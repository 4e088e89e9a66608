use rs_meta_cleaner::{blank_element, clean_app_xml, clean_core_xml};

fn scrub_core(s: &str) -> String {
    String::from_utf8(clean_core_xml(s.as_bytes().to_vec())).unwrap()
}

#[test]
fn creator_is_blanked() {
    let xml = "<cp:coreProperties><dc:creator>Alice</dc:creator><dc:language>en</dc:language></cp:coreProperties>";
    assert_eq!(
        scrub_core(xml),
        "<cp:coreProperties><dc:creator></dc:creator><dc:language>en</dc:language></cp:coreProperties>"
    );
}

#[test]
fn every_core_field_is_blanked() {
    let xml = "<dc:title>T</dc:title><dc:subject>S</dc:subject><dc:description>D</dc:description>\
<cp:keywords>k</cp:keywords><cp:category>c</cp:category><cp:contentStatus>final</cp:contentStatus>\
<cp:lastModifiedBy>Bob</cp:lastModifiedBy>";
    assert_eq!(
        scrub_core(xml),
        "<dc:title></dc:title><dc:subject></dc:subject><dc:description></dc:description>\
<cp:keywords></cp:keywords><cp:category></cp:category><cp:contentStatus></cp:contentStatus>\
<cp:lastModifiedBy></cp:lastModifiedBy>"
    );
}

#[test]
fn attributes_on_opening_tag_are_kept() {
    let xml = "<dc:title xml:lang=\"en\">Secret plan</dc:title>";
    assert_eq!(scrub_core(xml), "<dc:title xml:lang=\"en\"></dc:title>");
}

#[test]
fn element_sharing_a_prefix_is_untouched() {
    let xml = "<dc:titleExtra>keep</dc:titleExtra><dc:title>x</dc:title>";
    assert_eq!(scrub_core(xml), "<dc:titleExtra>keep</dc:titleExtra><dc:title></dc:title>");
}

#[test]
fn self_closing_and_unclosed_are_untouched() {
    assert_eq!(scrub_core("<dc:creator/><x>y</x>"), "<dc:creator/><x>y</x>");
    assert_eq!(scrub_core("<dc:creator>dangling"), "<dc:creator>dangling");
}

#[test]
fn repeated_elements_are_all_blanked() {
    let out = blank_element(b"<a>1</a>-<a k='v'>22</a>", b"a");
    assert_eq!(out, b"<a></a>-<a k='v'></a>".to_vec());
}

#[test]
fn empty_input_stays_empty() {
    assert!(clean_core_xml(Vec::new()).is_empty());
    assert!(clean_app_xml(Vec::new()).is_empty());
}

#[test]
fn app_fields_are_blanked() {
    let xml = "<Properties><Application>Word</Application><Company>ACME</Company><Manager>Eve</Manager><HyperlinkBase>http://x</HyperlinkBase></Properties>";
    let out = String::from_utf8(clean_app_xml(xml.as_bytes().to_vec())).unwrap();
    assert_eq!(
        out,
        "<Properties><Application>Word</Application><Company></Company><Manager></Manager><HyperlinkBase></HyperlinkBase></Properties>"
    );
}

#[test]
fn content_across_lines_is_blanked() {
    let out = blank_element(b"<a>line1\nline2</a>", b"a");
    assert_eq!(out, b"<a></a>".to_vec());
}
