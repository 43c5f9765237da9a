//! The Web API layer of a desktop music player: response records of the
//! catalog service, their conversion into the player's own data model,
//! the paging of library listings and the decoding of cover art.

pub mod api;
pub mod model;
pub mod convert;
pub mod paging;
pub mod search;
pub mod error;
pub mod artwork;
