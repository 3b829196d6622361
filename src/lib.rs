//! Plain-text extraction from office document containers.
//!
//! A container (a zip archive) is opened from bytes, the entries that hold
//! text for the document's format are selected, and their XML is walked by a
//! tag-triggered capture engine: a start tag of the format's policy arms
//! capture, and the next text event is taken.
pub mod capture;
pub mod container;
pub mod document;
pub mod error;
pub mod formats;
pub mod laws;
pub mod markup;
pub mod pipeline;
pub mod text;

pub use capture::{capture_events, capture_text};
pub use document::DocumentKind;
pub use error::ExtractError;
pub use formats::{Document, Docx, Odp, Ods, Odt, Pptx, Xlsx};
pub use markup::{tokenize, XmlEvent};
pub use pipeline::{extract, file_name_for, kind_for_filename};
