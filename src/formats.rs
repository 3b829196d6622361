//! One document type per format, each holding the text extracted from a
//! container of that format.
use vstd::prelude::*;
use crate::document::DocumentKind;
use crate::error::{ErrorView, ExtractError};
use crate::pipeline::extraction;

verus! {

/// A document whose text has been extracted.
pub trait Document: Sized + View<V = Seq<char>> {
    /// The format of documents of this type.
    spec fn format() -> DocumentKind;

    /// The format of the document.
    fn kind(&self) -> (r: DocumentKind)
        ensures
            r == Self::format(),
    ;

    /// The extracted text.
    fn text(&self) -> (r: &str)
        ensures
            r@ == self@,
    ;
}

/// Whether `r` is what reading a document of `kind` from `bytes` gives.
pub open spec fn read_as(kind: DocumentKind, bytes: Seq<u8>, r: Result<Seq<char>, ErrorView>) -> bool {
    r == extraction(kind, bytes)
}

/// An OOXML word-processor document.
pub struct Docx {
    text: String,
}

impl View for Docx {
    type V = Seq<char>;

    closed spec fn view(&self) -> Seq<char> {
        self.text@
    }
}

impl Docx {
    /// Reads the document held in `container`.
    pub fn from_bytes(container: Vec<u8>) -> (r: Result<Docx, ExtractError>)
        ensures
            read_as(
                DocumentKind::Docx,
                container@,
                match r {
                    Ok(d) => Ok(d@),
                    Err(e) => Err(e@),
                },
            ),
    {
        let text = DocumentKind::Docx.extract(container)?;
        Ok(Docx { text })
    }

    /// The extracted text, taken out of the document.
    pub fn into_text(self) -> (r: String)
        ensures
            r@ == self@,
    {
        self.text
    }
}

impl Document for Docx {
    open spec fn format() -> DocumentKind {
        DocumentKind::Docx
    }

    fn kind(&self) -> (r: DocumentKind) {
        DocumentKind::Docx
    }

    fn text(&self) -> (r: &str) {
        self.text.as_str()
    }
}

/// An ODF presentation.
pub struct Odp {
    text: String,
}

impl View for Odp {
    type V = Seq<char>;

    closed spec fn view(&self) -> Seq<char> {
        self.text@
    }
}

impl Odp {
    /// Reads the document held in `container`.
    pub fn from_bytes(container: Vec<u8>) -> (r: Result<Odp, ExtractError>)
        ensures
            read_as(
                DocumentKind::Odp,
                container@,
                match r {
                    Ok(d) => Ok(d@),
                    Err(e) => Err(e@),
                },
            ),
    {
        let text = DocumentKind::Odp.extract(container)?;
        Ok(Odp { text })
    }

    /// The extracted text, taken out of the document.
    pub fn into_text(self) -> (r: String)
        ensures
            r@ == self@,
    {
        self.text
    }
}

impl Document for Odp {
    open spec fn format() -> DocumentKind {
        DocumentKind::Odp
    }

    fn kind(&self) -> (r: DocumentKind) {
        DocumentKind::Odp
    }

    fn text(&self) -> (r: &str) {
        self.text.as_str()
    }
}

/// An ODF spreadsheet.
pub struct Ods {
    text: String,
}

impl View for Ods {
    type V = Seq<char>;

    closed spec fn view(&self) -> Seq<char> {
        self.text@
    }
}

impl Ods {
    /// Reads the document held in `container`.
    pub fn from_bytes(container: Vec<u8>) -> (r: Result<Ods, ExtractError>)
        ensures
            read_as(
                DocumentKind::Ods,
                container@,
                match r {
                    Ok(d) => Ok(d@),
                    Err(e) => Err(e@),
                },
            ),
    {
        let text = DocumentKind::Ods.extract(container)?;
        Ok(Ods { text })
    }

    /// The extracted text, taken out of the document.
    pub fn into_text(self) -> (r: String)
        ensures
            r@ == self@,
    {
        self.text
    }
}

impl Document for Ods {
    open spec fn format() -> DocumentKind {
        DocumentKind::Ods
    }

    fn kind(&self) -> (r: DocumentKind) {
        DocumentKind::Ods
    }

    fn text(&self) -> (r: &str) {
        self.text.as_str()
    }
}

/// An ODF text document.
pub struct Odt {
    text: String,
}

impl View for Odt {
    type V = Seq<char>;

    closed spec fn view(&self) -> Seq<char> {
        self.text@
    }
}

impl Odt {
    /// Reads the document held in `container`.
    pub fn from_bytes(container: Vec<u8>) -> (r: Result<Odt, ExtractError>)
        ensures
            read_as(
                DocumentKind::Odt,
                container@,
                match r {
                    Ok(d) => Ok(d@),
                    Err(e) => Err(e@),
                },
            ),
    {
        let text = DocumentKind::Odt.extract(container)?;
        Ok(Odt { text })
    }

    /// The extracted text, taken out of the document.
    pub fn into_text(self) -> (r: String)
        ensures
            r@ == self@,
    {
        self.text
    }
}

impl Document for Odt {
    open spec fn format() -> DocumentKind {
        DocumentKind::Odt
    }

    fn kind(&self) -> (r: DocumentKind) {
        DocumentKind::Odt
    }

    fn text(&self) -> (r: &str) {
        self.text.as_str()
    }
}

/// An OOXML presentation.
pub struct Pptx {
    text: String,
}

impl View for Pptx {
    type V = Seq<char>;

    closed spec fn view(&self) -> Seq<char> {
        self.text@
    }
}

impl Pptx {
    /// Reads the document held in `container`.
    pub fn from_bytes(container: Vec<u8>) -> (r: Result<Pptx, ExtractError>)
        ensures
            read_as(
                DocumentKind::Pptx,
                container@,
                match r {
                    Ok(d) => Ok(d@),
                    Err(e) => Err(e@),
                },
            ),
    {
        let text = DocumentKind::Pptx.extract(container)?;
        Ok(Pptx { text })
    }

    /// The extracted text, taken out of the document.
    pub fn into_text(self) -> (r: String)
        ensures
            r@ == self@,
    {
        self.text
    }
}

impl Document for Pptx {
    open spec fn format() -> DocumentKind {
        DocumentKind::Pptx
    }

    fn kind(&self) -> (r: DocumentKind) {
        DocumentKind::Pptx
    }

    fn text(&self) -> (r: &str) {
        self.text.as_str()
    }
}

/// An OOXML spreadsheet.
pub struct Xlsx {
    text: String,
}

impl View for Xlsx {
    type V = Seq<char>;

    closed spec fn view(&self) -> Seq<char> {
        self.text@
    }
}

impl Xlsx {
    /// Reads the document held in `container`.
    pub fn from_bytes(container: Vec<u8>) -> (r: Result<Xlsx, ExtractError>)
        ensures
            read_as(
                DocumentKind::Xlsx,
                container@,
                match r {
                    Ok(d) => Ok(d@),
                    Err(e) => Err(e@),
                },
            ),
    {
        let text = DocumentKind::Xlsx.extract(container)?;
        Ok(Xlsx { text })
    }

    /// The extracted text, taken out of the document.
    pub fn into_text(self) -> (r: String)
        ensures
            r@ == self@,
    {
        self.text
    }
}

impl Document for Xlsx {
    open spec fn format() -> DocumentKind {
        DocumentKind::Xlsx
    }

    fn kind(&self) -> (r: DocumentKind) {
        DocumentKind::Xlsx
    }

    fn text(&self) -> (r: &str) {
        self.text.as_str()
    }
}

} // verus!
