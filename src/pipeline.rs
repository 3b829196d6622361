//! Extraction from a whole container: selection, then capture.
use vstd::prelude::*;
use crate::capture::{capture_text, text_of};
use crate::container::{container_listing, open_container, select_entries, selected};
use crate::document::{kind_of_extension, DocumentKind};
use crate::error::{outcome, ErrorView, ExtractError};
use crate::text::{after_last, last_index_of};

verus! {

/// The text that `kind` extracts from the container held in `bytes`.
pub open spec fn extraction(kind: DocumentKind, bytes: Seq<u8>) -> Result<Seq<char>, ErrorView> {
    match container_listing(bytes) {
        None => Err(ErrorView::ContainerOpenFailure),
        Some(entries) => match selected(kind, entries) {
            Err(e) => Err(e),
            Ok(xml) => text_of(kind, xml),
        },
    }
}

/// The extension of `filename`: what follows its last `.`, if it has one.
pub open spec fn extension_of(filename: Seq<char>) -> Option<Seq<char>> {
    match last_index_of(filename, '.') {
        Some(k) => Some(filename.subrange(k + 1, filename.len() as int)),
        None => None,
    }
}

/// The kind that the extension of `filename` names, if any.
pub open spec fn kind_of_filename(filename: Seq<char>) -> Option<DocumentKind> {
    match extension_of(filename) {
        Some(e) => kind_of_extension(e),
        None => None,
    }
}

/// The text extracted from the container held in `bytes`, whose format the
/// extension of `filename` names.
pub open spec fn file_extraction(bytes: Seq<u8>, filename: Seq<char>) -> Result<
    Seq<char>,
    ErrorView,
> {
    match kind_of_filename(filename) {
        None => Err(ErrorView::UnsupportedFormat),
        Some(kind) => extraction(kind, bytes),
    }
}

/// The final component of a path, as std's `Path::file_name` gives it.
pub uninterp spec fn path_file_name(path: Seq<char>) -> Option<Seq<char>>;

/// Relies on `std::path::Path::file_name`: the final component of `path`,
/// none for a path that ends in `..` or is the root.
#[verifier::external_body]
fn final_component(path: &str) -> (r: Option<String>)
    ensures
        match r {
            Some(s) => path_file_name(path@) == Some(s@),
            None => path_file_name(path@) is None,
        },
        path@ == "/"@ ==> r is None,
{
    std::path::Path::new(path).file_name().and_then(|s| s.to_str()).map(|s| s.to_string())
}

impl DocumentKind {
    /// Extracts the text of the container held in `container` under the
    /// policy of this kind.
    pub fn extract(&self, container: Vec<u8>) -> (r: Result<String, ExtractError>)
        ensures
            outcome(r) == extraction(*self, container@),
    {
        let mut archive = open_container(container)?;
        let xml = select_entries(*self, &mut archive)?;
        capture_text(*self, xml.as_str())
    }
}

/// The kind that the extension of `filename` names.
pub fn kind_for_filename(filename: &str) -> (r: Result<DocumentKind, ExtractError>)
    ensures
        match kind_of_filename(filename@) {
            Some(k) => r == Ok::<DocumentKind, ExtractError>(k),
            None => r matches Err(e) && e@ == ErrorView::UnsupportedFormat,
        },
{
    match after_last(filename, '.') {
        None => Err(ExtractError::UnsupportedFormat),
        Some(ext) => match DocumentKind::from_extension(ext) {
            Some(k) => Ok(k),
            None => Err(ExtractError::UnsupportedFormat),
        },
    }
}

/// Extracts the text of the container held in `container`, whose format the
/// extension of `filename` names (matched exactly, case included).
pub fn extract(container: Vec<u8>, filename: &str) -> (r: Result<String, ExtractError>)
    ensures
        outcome(r) == file_extraction(container@, filename@),
{
    let kind = kind_for_filename(filename)?;
    kind.extract(container)
}

/// The filename of `path`: its final component, or `MissingFilename`.
pub fn file_name_for(path: &str) -> (r: Result<String, ExtractError>)
    ensures
        match path_file_name(path@) {
            Some(n) => r matches Ok(s) && s@ == n,
            None => r matches Err(e) && e@ == ErrorView::MissingFilename,
        },
        path@ == "/"@ ==> (r matches Err(e) && e@ == ErrorView::MissingFilename),
{
    match final_component(path) {
        Some(name) => Ok(name),
        None => Err(ExtractError::MissingFilename),
    }
}

} // verus!
