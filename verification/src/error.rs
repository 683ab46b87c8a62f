use vstd::prelude::*;

verus! {

/// Why reading an image failed.
#[derive(Clone, Copy, PartialEq, Eq, Debug, Structural)]
pub enum ImageError {
    /// A read or a seek went past the end (or before the start) of the data.
    UnexpectedEof,
    /// A signature, a size or an encoding in the image is not what the format allows.
    InvalidData,
    /// The image is well formed but names something this loader cannot find or does not handle.
    Other,
}

impl ImageError {
    /// The description of each error.
    pub open spec fn spec_message(&self) -> Seq<char> {
        match self {
            ImageError::UnexpectedEof => "unexpected end of image"@,
            ImageError::InvalidData => "invalid data in image"@,
            ImageError::Other => "unsupported or missing item"@,
        }
    }

    /// A short English description of the error.
    pub fn message(&self) -> (text: &'static str)
        ensures
            text@ == self.spec_message(),
    {
        match self {
            ImageError::UnexpectedEof => "unexpected end of image",
            ImageError::InvalidData => "invalid data in image",
            ImageError::Other => "unsupported or missing item",
        }
    }
}

} // verus!
