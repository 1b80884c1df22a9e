//! The structured error kinds shared by every tool capability and by the
//! agent loop. Internal logic and tests key off the kind; human-readable
//! text is produced by a separate formatting step.

use vstd::prelude::*;

verus! {

/// Why a tool invocation, a registry operation, or a model round-trip failed.
#[derive(Clone, Copy, Debug, PartialEq, Eq, Structural)]
pub enum ErrorKind {
    /// Malformed or missing tool parameters, or a rejected edit request.
    ValidationError,
    /// A tool-call request named a tool absent from the registry.
    UnknownTool,
    /// Registering a descriptor under a name that is already taken.
    DuplicateTool,
    /// The edit target substring was absent from the file.
    NotFound,
    /// A read was asked of a path that is missing or is a directory.
    NotAFile,
    /// A listing was asked of a path that is not an existing directory.
    NotADirectory,
    /// A file or an input decoded to zero-length text.
    EmptyContent,
    /// Filesystem permission, space, or availability failure.
    IOError,
    /// The Markdown renderer rejected its input.
    ConversionError,
    /// Network or search-provider failure.
    FetchError,
    /// The model round-trip itself failed (network, timeout, bad response).
    ModelCommunicationError,
}

impl ErrorKind {
    /// A short human-readable tag for the kind, for the user/model-facing
    /// boundary.
    pub fn text(&self) -> (r: &'static str)
        ensures
            self is ValidationError ==> r@ == "validation error"@,
            self is UnknownTool ==> r@ == "unknown tool"@,
            self is DuplicateTool ==> r@ == "duplicate tool"@,
            self is NotFound ==> r@ == "not found"@,
            self is NotAFile ==> r@ == "not a file"@,
            self is NotADirectory ==> r@ == "not a directory"@,
            self is EmptyContent ==> r@ == "empty content"@,
            self is IOError ==> r@ == "i/o error"@,
            self is ConversionError ==> r@ == "conversion error"@,
            self is FetchError ==> r@ == "fetch error"@,
            self is ModelCommunicationError ==> r@ == "model communication error"@,
    {
        match self {
            ErrorKind::ValidationError => "validation error",
            ErrorKind::UnknownTool => "unknown tool",
            ErrorKind::DuplicateTool => "duplicate tool",
            ErrorKind::NotFound => "not found",
            ErrorKind::NotAFile => "not a file",
            ErrorKind::NotADirectory => "not a directory",
            ErrorKind::EmptyContent => "empty content",
            ErrorKind::IOError => "i/o error",
            ErrorKind::ConversionError => "conversion error",
            ErrorKind::FetchError => "fetch error",
            ErrorKind::ModelCommunicationError => "model communication error",
        }
    }
}

} // verus!
