//! The supported document formats and the fixed capture policy of each.
use vstd::prelude::*;

verus! {

/// The six supported document kinds.
#[derive(Clone, Copy, Debug, PartialEq, Eq, Structural)]
pub enum DocumentKind {
    Docx,
    Odp,
    Ods,
    Odt,
    Pptx,
    Xlsx,
}

/// The human-readable label of a kind.
pub open spec fn label(kind: DocumentKind) -> Seq<char> {
    match kind {
        DocumentKind::Docx => "Word Document"@,
        DocumentKind::Odp => "Open Office Presentation"@,
        DocumentKind::Ods => "Open Office Spreadsheet"@,
        DocumentKind::Odt => "Open Office Document"@,
        DocumentKind::Pptx => "Power Point"@,
        DocumentKind::Xlsx => "Excel"@,
    }
}

/// The canonical filename extension of a kind. The document kind keeps its
/// historical capitalised spelling.
pub open spec fn canonical_extension(kind: DocumentKind) -> Seq<char> {
    match kind {
        DocumentKind::Docx => "docx"@,
        DocumentKind::Odp => "odp"@,
        DocumentKind::Ods => "ods"@,
        DocumentKind::Odt => "Odt"@,
        DocumentKind::Pptx => "pptx"@,
        DocumentKind::Xlsx => "xlsx"@,
    }
}

/// The kind whose canonical extension is exactly `ext`, if any.
pub open spec fn kind_of_extension(ext: Seq<char>) -> Option<DocumentKind> {
    if ext == "docx"@ {
        Some(DocumentKind::Docx)
    } else if ext == "odp"@ {
        Some(DocumentKind::Odp)
    } else if ext == "ods"@ {
        Some(DocumentKind::Ods)
    } else if ext == "Odt"@ {
        Some(DocumentKind::Odt)
    } else if ext == "pptx"@ {
        Some(DocumentKind::Pptx)
    } else if ext == "xlsx"@ {
        Some(DocumentKind::Xlsx)
    } else {
        None
    }
}

/// Whether the container entry `name` holds text for `kind`.
pub open spec fn selects(kind: DocumentKind, name: Seq<char>) -> bool {
    match kind {
        DocumentKind::Docx => name == "word/document.xml"@,
        DocumentKind::Xlsx => name == "xl/sharedStrings.xml"@ || "xl/charts/"@.is_prefix_of(name)
            || ("xl/worksheets/"@.is_prefix_of(name) && crate::text::ends_with(name, ".xml"@)),
        DocumentKind::Pptx => "ppt/slides/"@.is_prefix_of(name) && crate::text::ends_with(
            name,
            ".xml"@,
        ),
        _ => name == "content.xml"@,
    }
}

/// Whether every selected entry is read (rather than the first one only).
pub open spec fn merges(kind: DocumentKind) -> bool {
    kind is Xlsx || kind is Pptx
}

/// Whether a start tag named `tag` arms capture for `kind`.
pub open spec fn arms(kind: DocumentKind, tag: Seq<char>) -> bool {
    match kind {
        DocumentKind::Docx => tag == "w:p"@ || tag == "w:t"@,
        DocumentKind::Xlsx => tag == "t"@ || tag == "a:t"@,
        DocumentKind::Odp => tag == "text:p"@ || tag == "text:span"@,
        DocumentKind::Pptx => tag == "a:p"@ || tag == "a:t"@,
        _ => tag == "text:p"@,
    }
}

/// The separator that a start tag named `tag` emits for `kind` (empty for
/// a tag that emits none).
pub open spec fn separator(kind: DocumentKind, tag: Seq<char>) -> Seq<char> {
    match kind {
        DocumentKind::Docx => if tag == "w:p"@ {
            "\n\n"@
        } else {
            Seq::empty()
        },
        DocumentKind::Xlsx => if arms(kind, tag) {
            "\n"@
        } else {
            Seq::empty()
        },
        DocumentKind::Pptx => if tag == "a:p"@ {
            "\n\n"@
        } else {
            Seq::empty()
        },
        _ => if tag == "text:p"@ {
            "\n\n"@
        } else {
            Seq::empty()
        },
    }
}

impl DocumentKind {
    /// The human-readable label of this kind.
    pub fn as_str(&self) -> (r: &'static str)
        ensures
            r@ == label(*self),
    {
        match self {
            DocumentKind::Docx => "Word Document",
            DocumentKind::Odp => "Open Office Presentation",
            DocumentKind::Ods => "Open Office Spreadsheet",
            DocumentKind::Odt => "Open Office Document",
            DocumentKind::Pptx => "Power Point",
            DocumentKind::Xlsx => "Excel",
        }
    }

    /// The canonical filename extension of this kind.
    pub fn extension(&self) -> (r: &'static str)
        ensures
            r@ == canonical_extension(*self),
    {
        match self {
            DocumentKind::Docx => "docx",
            DocumentKind::Odp => "odp",
            DocumentKind::Ods => "ods",
            DocumentKind::Odt => "Odt",
            DocumentKind::Pptx => "pptx",
            DocumentKind::Xlsx => "xlsx",
        }
    }

    /// The kind whose canonical extension is exactly `ext` (case-sensitive).
    pub fn from_extension(ext: &str) -> (r: Option<DocumentKind>)
        ensures
            r == kind_of_extension(ext@),
    {
        if crate::text::same_text(ext, "docx") {
            Some(DocumentKind::Docx)
        } else if crate::text::same_text(ext, "odp") {
            Some(DocumentKind::Odp)
        } else if crate::text::same_text(ext, "ods") {
            Some(DocumentKind::Ods)
        } else if crate::text::same_text(ext, "Odt") {
            Some(DocumentKind::Odt)
        } else if crate::text::same_text(ext, "pptx") {
            Some(DocumentKind::Pptx)
        } else if crate::text::same_text(ext, "xlsx") {
            Some(DocumentKind::Xlsx)
        } else {
            None
        }
    }

    /// Whether the container entry `name` holds text for this kind.
    pub fn selects(&self, name: &str) -> (r: bool)
        ensures
            r == selects(*self, name@),
    {
        match self {
            DocumentKind::Docx => crate::text::same_text(name, "word/document.xml"),
            DocumentKind::Xlsx => crate::text::same_text(name, "xl/sharedStrings.xml")
                || crate::text::starts_with(name, "xl/charts/") || (crate::text::starts_with(
                name,
                "xl/worksheets/",
            ) && crate::text::has_suffix(name, ".xml")),
            DocumentKind::Pptx => crate::text::starts_with(name, "ppt/slides/")
                && crate::text::has_suffix(name, ".xml"),
            _ => crate::text::same_text(name, "content.xml"),
        }
    }

    /// Whether every selected entry is read, rather than the first one only.
    pub fn merges(&self) -> (r: bool)
        ensures
            r == merges(*self),
    {
        match self {
            DocumentKind::Xlsx => true,
            DocumentKind::Pptx => true,
            _ => false,
        }
    }

    /// Whether a start tag named `tag` arms capture for this kind.
    pub fn arms(&self, tag: &str) -> (r: bool)
        ensures
            r == arms(*self, tag@),
    {
        match self {
            DocumentKind::Docx => crate::text::same_text(tag, "w:p") || crate::text::same_text(
                tag,
                "w:t",
            ),
            DocumentKind::Xlsx => crate::text::same_text(tag, "t") || crate::text::same_text(
                tag,
                "a:t",
            ),
            DocumentKind::Odp => crate::text::same_text(tag, "text:p") || crate::text::same_text(
                tag,
                "text:span",
            ),
            DocumentKind::Pptx => crate::text::same_text(tag, "a:p") || crate::text::same_text(
                tag,
                "a:t",
            ),
            _ => crate::text::same_text(tag, "text:p"),
        }
    }

    /// The separator that a start tag named `tag` emits for this kind.
    pub fn separator(&self, tag: &str) -> (r: &'static str)
        ensures
            r@ == separator(*self, tag@),
    {
        proof {
            reveal_strlit("");
        }
        let (paragraph, line) = match self {
            DocumentKind::Docx => ("w:p", false),
            DocumentKind::Xlsx => ("", true),
            DocumentKind::Pptx => ("a:p", false),
            _ => ("text:p", false),
        };
        if line {
            if self.arms(tag) {
                "\n"
            } else {
                ""
            }
        } else if crate::text::same_text(tag, paragraph) {
            "\n\n"
        } else {
            ""
        }
    }
}

impl std::str::FromStr for DocumentKind {
    type Err = crate::error::ExtractError;

    /// The kind whose canonical extension is exactly `s`.
    fn from_str(s: &str) -> (r: Result<DocumentKind, crate::error::ExtractError>)
        ensures
            match kind_of_extension(s@) {
                Some(k) => r == Ok::<DocumentKind, crate::error::ExtractError>(k),
                None => r matches Err(e) && e@ == crate::error::ErrorView::UnsupportedFormat,
            },
    {
        match DocumentKind::from_extension(s) {
            Some(k) => Ok(k),
            None => Err(crate::error::ExtractError::UnsupportedFormat),
        }
    }
}

} // verus!
