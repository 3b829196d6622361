use std::io::Write;

use dotext::{
    capture_events, extract, file_name_for, kind_for_filename, tokenize, Document, DocumentKind,
    Docx, ExtractError, Odp, Ods, Odt, Pptx, Xlsx, XmlEvent,
};

fn container(entries: &[(&str, &[u8])]) -> Vec<u8> {
    let mut writer = zip::ZipWriter::new(std::io::Cursor::new(Vec::new()));
    let options =
        zip::write::FileOptions::default().compression_method(zip::CompressionMethod::Stored);
    for (name, content) in entries {
        writer.start_file(*name, options).unwrap();
        writer.write_all(content).unwrap();
    }
    writer.finish().unwrap().into_inner()
}

fn deflated(entries: &[(&str, &[u8])]) -> Vec<u8> {
    let mut writer = zip::ZipWriter::new(std::io::Cursor::new(Vec::new()));
    let options =
        zip::write::FileOptions::default().compression_method(zip::CompressionMethod::Deflated);
    for (name, content) in entries {
        writer.start_file(*name, options).unwrap();
        writer.write_all(content).unwrap();
    }
    writer.finish().unwrap().into_inner()
}

const ALL_KINDS: [DocumentKind; 6] = [
    DocumentKind::Docx,
    DocumentKind::Odp,
    DocumentKind::Ods,
    DocumentKind::Odt,
    DocumentKind::Pptx,
    DocumentKind::Xlsx,
];

const DOCX_HELLO: &[u8] =
    b"<w:document><w:body><w:p><w:r><w:t>hello</w:t></w:r></w:p></w:body></w:document>";

const ODF_HELLO: &[u8] = b"<office:document-content><office:body><text:p>hello</text:p></office:body></office:document-content>";

#[test]
fn docx_instantiate() {
    let _ = Docx::from_bytes(container(&[("word/document.xml", DOCX_HELLO)]));
}

#[test]
fn docx_read() {
    let bytes = container(&[("word/document.xml", DOCX_HELLO)]);
    let doc = Docx::from_bytes(bytes).unwrap();
    let data = doc.text().to_string();
    println!("len: {}, data: {}", data.len(), data);
    assert_eq!(data, "\n\nhello");
}

#[test]
fn odp_instantiate() {
    let _ = Odp::from_bytes(container(&[("content.xml", ODF_HELLO)]));
}

#[test]
fn odp_read() {
    let xml: &[u8] = b"<office:document-content><text:p><text:span>Title</text:span></text:p></office:document-content>";
    let doc = Odp::from_bytes(container(&[("content.xml", xml)])).unwrap();
    let data = doc.text().to_string();
    println!("len: {}, data: {}", data.len(), data);
    assert_eq!(data, "\n\nTitle");
}

#[test]
fn ods_instantiate() {
    let _ = Ods::from_bytes(container(&[("content.xml", ODF_HELLO)]));
}

#[test]
fn ods_read() {
    let doc = Ods::from_bytes(container(&[("content.xml", ODF_HELLO)])).unwrap();
    let data = doc.into_text();
    println!("len: {}, data: {}", data.len(), data);
    assert_eq!(data, "\n\nhello");
}

#[test]
fn odt_instantiate() {
    let _ = Odt::from_bytes(container(&[("content.xml", ODF_HELLO)]));
}

#[test]
fn odt_read() {
    let doc = Odt::from_bytes(container(&[("content.xml", ODF_HELLO)])).unwrap();
    assert_eq!(doc.kind(), DocumentKind::Odt);
    let data = doc.into_text();
    println!("len: {}, data: {}", data.len(), data);
    assert_eq!(data, "\n\nhello");
}

#[test]
fn xlsx_instantiate() {
    let _ = Xlsx::from_bytes(container(&[("xl/sharedStrings.xml", b"<sst><si><t>x</t></si></sst>")]));
}

#[test]
fn xlsx_read() {
    let shared: &[u8] = b"<sst><si><t>Name</t></si><si><t>Total</t></si></sst>";
    let doc = Xlsx::from_bytes(container(&[("xl/sharedStrings.xml", shared)])).unwrap();
    let data = doc.into_text();
    println!("len: {}, data: {}", data.len(), data);
    assert_eq!(data, "\nName\nTotal");
}

#[test]
fn pptx_read() {
    let slide: &[u8] = b"<p:sld><a:p><a:r><a:t>Slide one</a:t></a:r></a:p></p:sld>";
    let rels: &[u8] = b"<Relationships><a:t>ignored</a:t></Relationships>";
    let bytes = container(&[("ppt/slides/slide1.xml", slide), ("ppt/slides/_rels/slide1.xml.rels", rels)]);
    let doc = Pptx::from_bytes(bytes).unwrap();
    assert_eq!(doc.kind(), DocumentKind::Pptx);
    assert_eq!(doc.into_text(), "\n\nSlide one");
}

#[test]
fn no_matching_entry_yields_empty_text() {
    let bytes = container(&[("unrelated.txt", b"<w:p>text</w:p>"), ("docProps/app.xml", b"<t>x</t>")]);
    for kind in ALL_KINDS {
        assert_eq!(kind.extract(bytes.clone()), Ok(String::new()), "{}", kind.as_str());
    }
}

#[test]
fn empty_entry_yields_empty_text() {
    let bytes = container(&[("word/document.xml", b"")]);
    assert_eq!(extract(bytes, "empty.docx"), Ok(String::new()));
}

#[test]
fn extraction_is_deterministic() {
    let sheet: &[u8] = b"<worksheet><c><t>a</t></c></worksheet>";
    let bytes = container(&[
        ("word/document.xml", DOCX_HELLO),
        ("content.xml", ODF_HELLO),
        ("xl/worksheets/sheet1.xml", sheet),
        ("ppt/slides/slide1.xml", b"<a:p><a:t>s</a:t></a:p>"),
    ]);
    for kind in ALL_KINDS {
        let first = kind.extract(bytes.clone());
        let second = kind.extract(bytes.clone());
        assert_eq!(first, second);
        assert!(first.is_ok());
    }
}

#[test]
fn no_text_tags_no_separators() {
    let xml: &[u8] = b"<w:document><w:body><w:tbl><w:r>loose</w:r></w:tbl></w:body></w:document>";
    let bytes = container(&[("word/document.xml", xml)]);
    assert_eq!(extract(bytes, "plain.docx"), Ok(String::new()));
}

#[test]
fn round_trip_hello() {
    let docx = container(&[("word/document.xml", DOCX_HELLO)]);
    assert_eq!(extract(docx, "a.docx"), Ok("\n\nhello".to_string()));
    let odf = container(&[("content.xml", ODF_HELLO)]);
    assert_eq!(extract(odf.clone(), "a.odp"), Ok("\n\nhello".to_string()));
    assert_eq!(extract(odf.clone(), "a.ods"), Ok("\n\nhello".to_string()));
    assert_eq!(extract(odf, "a.Odt"), Ok("\n\nhello".to_string()));
}

#[test]
fn round_trip_deflated() {
    let docx = deflated(&[("word/document.xml", DOCX_HELLO)]);
    assert_eq!(extract(docx, "a.docx"), Ok("\n\nhello".to_string()));
}

#[test]
fn spreadsheet_merges_worksheets_in_order() {
    let first: &[u8] = b"<worksheet><sheetData><c><is><t>alpha</t></is></c></sheetData></worksheet>";
    let second: &[u8] = b"<worksheet><sheetData><c><is><t>beta</t></is></c></sheetData></worksheet>";
    let bytes = container(&[("xl/worksheets/sheet1.xml", first), ("xl/worksheets/sheet2.xml", second)]);
    assert_eq!(extract(bytes, "book.xlsx"), Ok("\nalpha\nbeta".to_string()));
}

#[test]
fn spreadsheet_reads_chart_labels() {
    let chart: &[u8] = b"<c:chartSpace><a:p><a:r><a:t>Sales</a:t></a:r></a:p></c:chartSpace>";
    let bytes = container(&[("xl/charts/chart1.xml", chart)]);
    assert_eq!(extract(bytes, "book.xlsx"), Ok("\nSales".to_string()));
}

#[test]
fn word_processor_reads_first_body_only() {
    let other: &[u8] = b"<w:p><w:t>second</w:t></w:p>";
    let bytes = container(&[("word/document.xml", DOCX_HELLO), ("word/document.xml.bak", other)]);
    assert_eq!(extract(bytes, "a.docx"), Ok("\n\nhello".to_string()));
}

#[test]
fn extension_match_is_case_sensitive() {
    let bytes = container(&[("word/document.xml", DOCX_HELLO)]);
    assert_eq!(extract(bytes.clone(), "report.DOCX"), Err(ExtractError::UnsupportedFormat));
    assert_eq!(extract(bytes.clone(), "report.odt"), Err(ExtractError::UnsupportedFormat));
    assert_eq!(extract(bytes, "report.docx"), Ok("\n\nhello".to_string()));
}

#[test]
fn missing_extension_is_unsupported() {
    let bytes = container(&[("word/document.xml", DOCX_HELLO)]);
    assert_eq!(extract(bytes.clone(), "report"), Err(ExtractError::UnsupportedFormat));
    assert_eq!(extract(bytes, "report.txt"), Err(ExtractError::UnsupportedFormat));
    assert_eq!(kind_for_filename("archive.tar.xlsx"), Ok(DocumentKind::Xlsx));
}

#[test]
fn malformed_markup_fails_without_text() {
    let xml: &[u8] = b"<w:document><w:p><w:t>kept?</w:t></w:q></w:document>";
    let bytes = container(&[("word/document.xml", xml)]);
    match extract(bytes, "bad.docx") {
        Err(ExtractError::MalformedInput { position, message }) => {
            assert!(position > 0);
            assert!(!message.is_empty());
        }
        other => panic!("unexpected {:?}", other),
    }
}

#[test]
fn unknown_entity_is_malformed() {
    let xml: &[u8] = b"<w:p><w:t>a &bogus; b</w:t></w:p>";
    let bytes = container(&[("word/document.xml", xml)]);
    assert!(matches!(extract(bytes, "bad.docx"), Err(ExtractError::MalformedInput { .. })));
}

#[test]
fn entities_are_unescaped() {
    let xml: &[u8] = b"<w:p><w:t>a &amp; b &lt;c&gt;</w:t></w:p>";
    let bytes = container(&[("word/document.xml", xml)]);
    assert_eq!(extract(bytes, "x.docx"), Ok("\n\na & b <c>".to_string()));
}

#[test]
fn not_a_container_fails_to_open() {
    assert_eq!(
        extract(b"plain text, not a zip".to_vec(), "a.docx"),
        Err(ExtractError::ContainerOpenFailure)
    );
}

#[test]
fn unreadable_selected_entry_is_reported() {
    let bytes = container(&[("word/document.xml", &[0xff, 0xfe, 0x00])]);
    assert_eq!(extract(bytes, "a.docx"), Err(ExtractError::UnreadableEntry));
}

#[test]
fn root_path_has_no_filename() {
    assert_eq!(file_name_for("/"), Err(ExtractError::MissingFilename));
    assert_eq!(file_name_for("docs/.."), Err(ExtractError::MissingFilename));
    assert_eq!(file_name_for("docs/report.docx"), Ok("report.docx".to_string()));
}

#[test]
fn labels_and_extensions() {
    let labels = [
        "Word Document",
        "Open Office Presentation",
        "Open Office Spreadsheet",
        "Open Office Document",
        "Power Point",
        "Excel",
    ];
    let extensions = ["docx", "odp", "ods", "Odt", "pptx", "xlsx"];
    for (i, kind) in ALL_KINDS.iter().enumerate() {
        assert_eq!(kind.as_str(), labels[i]);
        assert_eq!(kind.extension(), extensions[i]);
        assert_eq!(DocumentKind::from_extension(extensions[i]), Some(*kind));
    }
    assert_eq!(DocumentKind::from_extension("Docx"), None);
}

#[test]
fn rearming_emits_separator_each_time() {
    let events = vec![
        XmlEvent::Start("w:p".to_string()),
        XmlEvent::Start("w:p".to_string()),
        XmlEvent::Text(10, "x".to_string()),
        XmlEvent::Text(20, "dropped &bogus;".to_string()),
        XmlEvent::Eof,
    ];
    assert_eq!(capture_events(DocumentKind::Docx, &events), Ok("\n\n\n\nx".to_string()));
}

#[test]
fn end_tag_does_not_disarm() {
    let events = vec![
        XmlEvent::Start("w:t".to_string()),
        XmlEvent::Other,
        XmlEvent::Text(5, "y".to_string()),
        XmlEvent::Eof,
        XmlEvent::Start("w:t".to_string()),
        XmlEvent::Text(30, "after end".to_string()),
    ];
    assert_eq!(capture_events(DocumentKind::Docx, &events), Ok("y".to_string()));
}

#[test]
fn malformed_event_discards_text() {
    let events = vec![
        XmlEvent::Start("text:p".to_string()),
        XmlEvent::Text(3, "partial".to_string()),
        XmlEvent::Malformed(7, "bad".to_string()),
    ];
    assert_eq!(
        capture_events(DocumentKind::Odt, &events),
        Err(ExtractError::MalformedInput { position: 7, message: "bad".to_string() })
    );
}

#[test]
fn span_arms_only_for_presentations() {
    let events = vec![
        XmlEvent::Start("text:span".to_string()),
        XmlEvent::Text(1, "s".to_string()),
        XmlEvent::Eof,
    ];
    assert_eq!(capture_events(DocumentKind::Odp, &events), Ok("s".to_string()));
    assert_eq!(capture_events(DocumentKind::Ods, &events), Ok(String::new()));
}

#[test]
fn tokenizer_reports_events() {
    let events = tokenize("<a>x &amp; y</a>");
    assert_eq!(
        events,
        vec![
            XmlEvent::Start("a".to_string()),
            XmlEvent::Text(12, "x &amp; y".to_string()),
            XmlEvent::Other,
            XmlEvent::Eof,
        ]
    );
}

#[test]
fn kinds_parse_from_extensions() {
    assert_eq!("xlsx".parse::<DocumentKind>(), Ok(DocumentKind::Xlsx));
    assert_eq!("Odt".parse::<DocumentKind>(), Ok(DocumentKind::Odt));
    assert_eq!("XLSX".parse::<DocumentKind>(), Err(ExtractError::UnsupportedFormat));
}

#[test]
fn uncaptured_text_is_not_unescaped() {
    let xml: &[u8] = b"<w:document>&bogus;<w:p><w:t>fine</w:t></w:p></w:document>";
    let bytes = container(&[("word/document.xml", xml)]);
    assert_eq!(extract(bytes, "a.docx"), Ok("\n\nfine".to_string()));
}

#[test]
fn captured_text_is_unescaped() {
    let events = vec![
        XmlEvent::Start("w:t".to_string()),
        XmlEvent::Text(12, "a &amp; b &#65;".to_string()),
        XmlEvent::Eof,
    ];
    assert_eq!(capture_events(DocumentKind::Docx, &events), Ok("a & b A".to_string()));
}

#[test]
fn bad_reference_in_captured_text_is_malformed() {
    let events = vec![
        XmlEvent::Start("w:t".to_string()),
        XmlEvent::Text(12, "a &bogus; b".to_string()),
        XmlEvent::Eof,
    ];
    match capture_events(DocumentKind::Docx, &events) {
        Err(ExtractError::MalformedInput { position, message }) => {
            assert_eq!(position, 12);
            assert!(!message.is_empty());
        }
        other => panic!("unexpected {:?}", other),
    }
}

#[test]
fn document_kind_and_text_agree() {
    let doc = Docx::from_bytes(container(&[("word/document.xml", DOCX_HELLO)])).unwrap();
    assert_eq!(doc.kind(), DocumentKind::Docx);
    assert_eq!(doc.text(), "\n\nhello");
    for kind in ALL_KINDS {
        assert_eq!(kind.extension().parse::<DocumentKind>(), Ok(kind));
    }
    assert_eq!("DOCX".parse::<DocumentKind>(), Err(ExtractError::UnsupportedFormat));
    assert_eq!(" docx".parse::<DocumentKind>(), Err(ExtractError::UnsupportedFormat));
}
