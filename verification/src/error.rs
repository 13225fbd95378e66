//! The ways a request can fail.

use vstd::prelude::*;
use vstd::string::*;

verus! {

/// Why the pipeline produced no output.
#[derive(Debug, Clone, Copy, PartialEq, Eq)]
pub enum TransformError {
    /// The source bytes could not be decoded as an image of the format that
    /// the identifier names.
    SourceUnreadable,
    /// The chosen encoder rejected the transformed raster.
    EncodeFailure,
}

/// The one failure that a caller of the optimizer sees: the image is not
/// available, whatever the cause.
#[derive(Debug, Clone, Copy, PartialEq, Eq)]
pub struct ImageNotFound;

/// `std::io::Error`, the error of std's reads and writes.
#[verifier::external_type_specification]
#[verifier::external_body]
pub struct ExIoError(std::io::Error);

impl From<std::io::Error> for ImageNotFound {
    /// A source that cannot be read is an image that is not there.
    fn from(e: std::io::Error) -> (out: ImageNotFound) {
        ImageNotFound
    }
}

impl vstd::std_specs::convert::FromSpecImpl<std::io::Error> for ImageNotFound {
    open spec fn obeys_from_spec() -> bool {
        true
    }

    open spec fn from_spec(e: std::io::Error) -> ImageNotFound {
        ImageNotFound
    }
}

impl ImageNotFound {
    /// The message of the failure.
    pub fn to_string(&self) -> (s: String)
        ensures
            s@ == "Image not found"@,
    {
        String::from_str("Image not found")
    }
}

} // verus!
