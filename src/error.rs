//! The one error of the Web API layer, and the causes it carries.

use vstd::prelude::*;

verus! {

#[verifier::external_type_specification]
#[verifier::external_body]
pub struct ExApiError(aspotify::Error);

#[verifier::external_type_specification]
#[verifier::external_body]
pub struct ExHttpError(reqwest::Error);

#[verifier::external_type_specification]
#[verifier::external_body]
pub struct ExImageError(image::ImageError);

/// What made a call of the Web API layer fail.
#[derive(Debug)]
pub enum WebApiCause {
    /// The access token could not be obtained; its message.
    Token(String),
    /// The catalog service refused the request or could not be reached.
    Api(aspotify::Error),
    /// A plain HTTP request failed.
    Http(reqwest::Error),
    /// Bytes could not be decoded as a picture.
    Image(image::ImageError),
}

/// Every failure of the Web API layer: a single variant, carrying its cause.
#[derive(Debug)]
pub enum WebError {
    WebApiError(WebApiCause),
}

impl From<aspotify::Error> for WebError {
    fn from(error: aspotify::Error) -> (r: WebError) {
        WebError::WebApiError(WebApiCause::Api(error))
    }
}

impl vstd::std_specs::convert::FromSpecImpl<aspotify::Error> for WebError {
    open spec fn obeys_from_spec() -> bool {
        true
    }

    open spec fn from_spec(error: aspotify::Error) -> WebError {
        WebError::WebApiError(WebApiCause::Api(error))
    }
}

impl From<reqwest::Error> for WebError {
    fn from(error: reqwest::Error) -> (r: WebError) {
        WebError::WebApiError(WebApiCause::Http(error))
    }
}

impl vstd::std_specs::convert::FromSpecImpl<reqwest::Error> for WebError {
    open spec fn obeys_from_spec() -> bool {
        true
    }

    open spec fn from_spec(error: reqwest::Error) -> WebError {
        WebError::WebApiError(WebApiCause::Http(error))
    }
}

impl From<image::ImageError> for WebError {
    fn from(error: image::ImageError) -> (r: WebError) {
        WebError::WebApiError(WebApiCause::Image(error))
    }
}

impl vstd::std_specs::convert::FromSpecImpl<image::ImageError> for WebError {
    open spec fn obeys_from_spec() -> bool {
        true
    }

    open spec fn from_spec(error: image::ImageError) -> WebError {
        WebError::WebApiError(WebApiCause::Image(error))
    }
}

} // verus!
