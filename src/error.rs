use vstd::prelude::*;

verus! {

/// Why an image could not be decoded.
#[derive(Debug, Clone, Copy, PartialEq, Eq, Structural)]
pub enum DecodeError {
    /// The file length fits no known packaging of the image.
    MalformedLength,
    /// Neither candidate position holds a header that checks out.
    HeaderNotFound,
    /// Fewer bytes are available than the header layout needs.
    Truncated,
    /// The platform selection names no platform this library decodes.
    UnsupportedPlatform,
}

} // verus!
