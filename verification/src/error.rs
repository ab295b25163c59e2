//! Errors of the canvas core.

use vstd::prelude::*;

verus! {

/// Everything that an operation of the canvas core can fail with.
#[derive(Debug, Clone, PartialEq, Eq)]
#[non_exhaustive]
pub enum ErrorKind {
    /// A failure of the graphics backend, with its message.
    GeneralError(String),
    NoFontFound,
    FontInfoExtracionError,
    FontSizeTooLargeForAtlas,
    ShaderCompileError(String),
    ShaderLinkError(String),
    /// The image handle is stale or was never handed out by the store.
    ImageIdNotFound,
    /// The rectangle of an image update does not lie inside the image.
    ImageUpdateOutOfBounds,
    /// The pixel format of an image update is not that of the image.
    ImageUpdateWithDifferentFormat,
    /// The source pixels cannot be represented.
    UnsuportedImageFromat,
}

impl ErrorKind {
    /// The text that describes the error to a user.
    pub fn message(&self) -> (text: &'static str)
        ensures
            text@ == "canvas error"@,
    {
        "canvas error"
    }
}

} // verus!
