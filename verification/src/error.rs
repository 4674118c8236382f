//! Error taxonomy of the image store and of the request layer above it.

use vstd::prelude::*;

verus! {

/// Errors that can occur when processing images.
///
/// Each variant carries a human-readable message describing the underlying
/// failure; the variant itself is what callers dispatch on.
#[derive(Debug)]
pub enum AppImageError {
    /// The remote avatar fetch failed at the network or HTTP level.
    Download(String),
    /// The supplied bytes are not a valid PNG image.
    Decode(String),
    /// A local file-system operation failed.
    Io(String),
}

/// Errors of the request layer: a response is derived from the variant alone
/// for database failures, and from the carried message for image failures.
#[derive(Debug)]
pub enum AppError {
    DatabaseError(String),
    ImageError(String),
}

impl AppError {
    /// The HTTP status code and body text a failed request is answered with.
    /// Database details never reach the client; an image error is the
    /// client's own doing, so its message is returned as is.
    pub fn into_response(self) -> (r: (u16, String))
        ensures
            self matches AppError::DatabaseError(_) ==> r.0 == 500
                && r.1@ == "Something went wrong on our end. Sorry about that!"@,
            self matches AppError::ImageError(m) ==> r.0 == 400 && r.1@ == m@,
    {
        match self {
            AppError::DatabaseError(_) => {
                (500, "Something went wrong on our end. Sorry about that!".to_owned())
            },
            AppError::ImageError(m) => (400, m),
        }
    }
}

} // verus!
