use std::io::{Cursor, Read, Write};

use rs_meta_cleaner::{
    clear_office_xml_properties, is_office_document, is_office_extension, CleanerError,
};
use zip::write::SimpleFileOptions;
use zip::{CompressionMethod, ZipArchive, ZipWriter};

const CORE: &str = "<?xml version=\"1.0\"?><cp:coreProperties xmlns:dc=\"http://purl.org/dc/elements/1.1/\"><dc:creator>Alice</dc:creator><dc:title>Plan</dc:title></cp:coreProperties>";
const APP: &str = "<Properties><Company>ACME</Company><Pages>3</Pages></Properties>";

fn build(entries: &[(&str, &[u8], CompressionMethod)]) -> Vec<u8> {
    let mut w = ZipWriter::new(Cursor::new(Vec::new()));
    for (name, data, method) in entries {
        w.start_file(*name, SimpleFileOptions::default().compression_method(*method)).unwrap();
        w.write_all(data).unwrap();
    }
    w.finish().unwrap().into_inner()
}

fn read_all(bytes: Vec<u8>) -> Vec<(String, Vec<u8>, CompressionMethod)> {
    let mut a = ZipArchive::new(Cursor::new(bytes)).unwrap();
    let mut out = Vec::new();
    for i in 0..a.len() {
        let mut f = a.by_index(i).unwrap();
        let mut data = Vec::new();
        f.read_to_end(&mut data).unwrap();
        out.push((f.name().to_string(), data, f.compression()));
    }
    out
}

fn sample() -> Vec<u8> {
    build(&[
        ("[Content_Types].xml", b"<Types/>", CompressionMethod::Deflated),
        ("docProps/core.xml", CORE.as_bytes(), CompressionMethod::Deflated),
        ("word/document.xml", b"<w:document>Hello</w:document>", CompressionMethod::Stored),
        ("docProps/app.xml", APP.as_bytes(), CompressionMethod::Deflated),
    ])
}

#[test]
fn office_extensions_are_recognised() {
    for ext in ["docx", "xlsx", "pptx", "docm", "xlsm", "pptm", "dotx", "xltx", "potx"] {
        assert!(is_office_extension(ext));
    }
    assert!(!is_office_extension("txt"));
    assert!(!is_office_extension("DOCX"));
    assert!(is_office_document("/tmp/Report.DOCX"));
    assert!(is_office_document("a/b.pptm"));
    assert!(!is_office_document("a/b.pdf"));
    assert!(!is_office_document("a/docx"));
}

#[test]
fn non_office_file_is_left_alone() {
    let bytes = sample();
    assert!(matches!(clear_office_xml_properties("notes.txt", bytes.clone()), Ok(None)));
    assert!(matches!(clear_office_xml_properties("archive.zip", bytes), Ok(None)));
}

#[test]
fn office_name_that_is_not_an_archive_is_left_alone() {
    let r = clear_office_xml_properties("fake.docx", b"not a zip at all".to_vec());
    assert!(matches!(r, Ok(None)));
}

#[test]
fn creator_is_blanked_and_other_entries_kept() {
    let out = clear_office_xml_properties("doc.docx", sample()).unwrap().unwrap();
    let entries = read_all(out);
    let before = read_all(sample());
    assert_eq!(entries.len(), 4);
    for (i, (name, data, method)) in entries.iter().enumerate() {
        assert_eq!(name, &before[i].0);
        assert_eq!(*method, before[i].2);
        if name == "docProps/core.xml" {
            let text = String::from_utf8(data.clone()).unwrap();
            assert!(text.contains("<dc:creator></dc:creator>"));
            assert!(text.contains("<dc:title></dc:title>"));
            assert!(!text.contains("Alice"));
            assert!(text.contains("xmlns:dc=\"http://purl.org/dc/elements/1.1/\""));
        } else if name == "docProps/app.xml" {
            assert_eq!(data, b"<Properties><Company></Company><Pages>3</Pages></Properties>");
        } else {
            assert_eq!(data, &before[i].1);
        }
    }
}

#[test]
fn property_part_that_is_not_text_fails() {
    let bytes = build(&[("docProps/core.xml", &[0xff, 0xfe, 0x00], CompressionMethod::Stored)]);
    match clear_office_xml_properties("bad.xlsx", bytes) {
        Err(CleanerError::CleaningFailed { path, reason }) => {
            assert_eq!(path, "bad.xlsx");
            assert!(!reason.is_empty());
        }
        _ => panic!("expected CleaningFailed"),
    }
}

#[test]
fn cleaning_twice_gives_the_same_document() {
    let once = clear_office_xml_properties("doc.docx", sample()).unwrap().unwrap();
    let twice = clear_office_xml_properties("doc.docx", once.clone()).unwrap().unwrap();
    assert_eq!(read_all(once), read_all(twice));
}

#[test]
fn entry_name_too_long_to_rewrite_fails() {
    let long = "n".repeat(20000);
    let bytes = build(&[(long.as_str(), b"x", CompressionMethod::Stored)]);
    match clear_office_xml_properties("long.docx", bytes) {
        Err(CleanerError::CleaningFailed { path, .. }) => assert_eq!(path, "long.docx"),
        _ => panic!("expected CleaningFailed"),
    }
}

#[test]
fn rewritten_document_reads_back_with_same_names_in_order() {
    let out = clear_office_xml_properties("doc.docx", sample()).unwrap().unwrap();
    let names: Vec<String> = read_all(out).into_iter().map(|e| e.0).collect();
    assert_eq!(
        names,
        vec!["[Content_Types].xml", "docProps/core.xml", "word/document.xml", "docProps/app.xml"]
    );
}
