//! Errors of an extraction.
use vstd::prelude::*;

verus! {

/// Why an extraction failed.
#[derive(Clone, Debug, PartialEq, Eq)]
pub enum ExtractError {
    /// The filename has no extension, or it names no supported format.
    UnsupportedFormat,
    /// The path has no final component to take a filename from.
    MissingFilename,
    /// The source is not a readable compressed container.
    ContainerOpenFailure,
    /// An entry of the container could not be read: its header, or the
    /// content of a selected entry.
    UnreadableEntry,
    /// The markup of a selected entry is invalid.
    MalformedInput { position: usize, message: String },
}

/// The mathematical value of an [`ExtractError`].
pub enum ErrorView {
    UnsupportedFormat,
    MissingFilename,
    ContainerOpenFailure,
    UnreadableEntry,
    MalformedInput(usize, Seq<char>),
}

impl View for ExtractError {
    type V = ErrorView;

    open spec fn view(&self) -> ErrorView {
        match self {
            ExtractError::UnsupportedFormat => ErrorView::UnsupportedFormat,
            ExtractError::MissingFilename => ErrorView::MissingFilename,
            ExtractError::ContainerOpenFailure => ErrorView::ContainerOpenFailure,
            ExtractError::UnreadableEntry => ErrorView::UnreadableEntry,
            ExtractError::MalformedInput { position, message } => ErrorView::MalformedInput(
                *position,
                message@,
            ),
        }
    }
}

/// The mathematical value of an extraction's outcome.
pub open spec fn outcome(r: Result<String, ExtractError>) -> Result<Seq<char>, ErrorView> {
    match r {
        Ok(s) => Ok(s@),
        Err(e) => Err(e@),
    }
}

} // verus!
