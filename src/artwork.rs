//! Decoding of cover art fetched from the service.

use vstd::prelude::*;
use crate::error::{WebApiCause, WebError};

verus! {

#[verifier::external_type_specification]
#[verifier::external_body]
pub struct ExDynamicImage(image::DynamicImage);

/// Whether `bytes` decode as a picture in one of the formats that
/// `image::load_from_memory` recognises.
pub uninterp spec fn decodes_as_image(bytes: Seq<u8>) -> bool;

/// Relies on `image::load_from_memory`: it guesses the format from the
/// bytes and decodes them, and succeeds or fails by the bytes alone.
#[verifier::external_body]
fn load_from_memory(bytes: &[u8]) -> (r: Result<image::DynamicImage, image::ImageError>)
    ensures
        r is Ok == decodes_as_image(bytes@),
{
    image::load_from_memory(bytes)
}

/// Decodes the bytes of a picture; the decoder's error becomes the cause
/// of a Web API error.
pub fn decode_image(bytes: &[u8]) -> (r: Result<image::DynamicImage, WebError>)
    ensures
        r is Ok == decodes_as_image(bytes@),
        r matches Err(e) ==> e matches WebError::WebApiError(WebApiCause::Image(_)),
{
    match load_from_memory(bytes) {
        Ok(picture) => Ok(picture),
        Err(error) => Err(WebError::from(error)),
    }
}

} // verus!
