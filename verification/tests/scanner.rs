use media_dashboard::text_scan::{extract_attr, extract_tag, take_chars, trim_trailing_char};
use media_dashboard::torznab::{count_configured_indexers, scan_indexers};

#[test]
fn scan_counts_configured_fragments_only() {
    // Each fragment is padded past the 300-character counting window,
    // as real feeds are, so one fragment's window cannot bleed into the
    // next fragment's attributes.
    let pad = "x".repeat(300);
    let doc = format!(
        "<indexers>\
        <indexer id=\"alpha\" configured=\"true\" type=\"private\" pad=\"{p}\"><title>Alpha</title></indexer>\
        <indexer id=\"beta\" configured=\"false\" type=\"public\" pad=\"{p}\"><title>Beta</title></indexer>\
        <indexer id=\"gamma\" configured=\"true\" pad=\"{p}\"><title>Gamma</title></indexer>\
        </indexers>",
        p = pad
    );
    let doc = doc.as_str();
    let records = scan_indexers(doc);
    assert_eq!(records.len(), 2);
    assert_eq!(records[0].id, "alpha");
    assert_eq!(records[0].name, "Alpha");
    assert_eq!(records[0].itype, "private");
    assert!(records[0].configured);
    assert_eq!(records[1].id, "gamma");
    assert_eq!(records[1].name, "Gamma");
    assert!(records[1].configured);
    assert_eq!(count_configured_indexers(doc), 2);
}

#[test]
fn scan_of_empty_document_is_empty() {
    assert_eq!(scan_indexers("").len(), 0);
    assert_eq!(count_configured_indexers(""), 0);
    assert_eq!(scan_indexers("<rss><channel></channel></rss>").len(), 0);
}

#[test]
fn missing_title_falls_back_to_id() {
    let doc = "<indexer id=\"quiet\" configured=\"true\" type=\"public\"></indexer>";
    let records = scan_indexers(doc);
    assert_eq!(records.len(), 1);
    assert_eq!(records[0].name, "quiet");
    assert_eq!(records[0].id, "quiet");
}

#[test]
fn missing_type_defaults_to_public() {
    let doc = "<indexer id=\"x\" configured=\"true\"><title>X</title></indexer>";
    let records = scan_indexers(doc);
    assert_eq!(records.len(), 1);
    assert_eq!(records[0].itype, "public");
}

#[test]
fn configured_must_be_literally_true() {
    let doc = "<indexer id=\"x\" configured=\"yes\"><title>X</title></indexer>";
    assert_eq!(scan_indexers(doc).len(), 0);
    assert_eq!(count_configured_indexers(doc), 0);
}

#[test]
fn count_window_is_bounded_to_three_hundred_characters() {
    // The configured attribute sits past the 300-character counting
    // window, so the cheap pass misses it while the listing pass,
    // which scans the whole suffix, still finds it.
    let padding = "x".repeat(310);
    let doc = format!(
        "<indexer id=\"far\" pad=\"{}\" configured=\"true\"><title>Far</title></indexer>",
        padding
    );
    assert_eq!(count_configured_indexers(&doc), 0);
    assert_eq!(scan_indexers(&doc).len(), 1);
}

#[test]
fn extract_attr_reads_first_value() {
    let s = "<indexer id=\"abc\" type=\"public\">";
    assert_eq!(extract_attr(s, "id"), Some("abc".to_string()));
    assert_eq!(extract_attr(s, "type"), Some("public".to_string()));
    assert_eq!(extract_attr(s, "missing"), None);
}

#[test]
fn extract_attr_requires_closing_quote() {
    assert_eq!(extract_attr("<indexer id=\"unterminated", "id"), None);
}

#[test]
fn overlong_attribute_is_absent_not_truncated() {
    let long_value = "v".repeat(200);
    let s = format!("<indexer id=\"{}\">", long_value);
    assert_eq!(extract_attr(&s, "id"), None);

    let fits = "v".repeat(199);
    let s2 = format!("<indexer id=\"{}\">", fits);
    assert_eq!(extract_attr(&s2, "id"), Some(fits));
}

#[test]
fn extract_tag_trims_element_text() {
    let s = "<item><title>  Spaced Out \n</title></item>";
    assert_eq!(extract_tag(s, "title"), Some("Spaced Out".to_string()));
    assert_eq!(extract_tag(s, "missing"), None);
    assert_eq!(extract_tag("<title>no close", "title"), None);
}

#[test]
fn extract_tag_trims_unicode_whitespace() {
    // no-break space and ideographic space are stripped like ASCII spaces
    let s = "<title>\u{a0}\u{3000} Name \u{2009}</title>";
    assert_eq!(extract_tag(s, "title"), Some("Name".to_string()));
}

#[test]
fn overlong_element_text_is_absent() {
    let long_text = "t".repeat(500);
    let s = format!("<title>{}</title>", long_text);
    assert_eq!(extract_tag(&s, "title"), None);

    let fits = "t".repeat(499);
    let s2 = format!("<title>{}</title>", fits);
    assert_eq!(extract_tag(&s2, "title"), Some(fits));
}

#[test]
fn take_chars_keeps_at_most_n() {
    assert_eq!(take_chars("abcdef", 3), "abc");
    assert_eq!(take_chars("ab", 80), "ab");
    assert_eq!(take_chars("", 5), "");
}

#[test]
fn trim_trailing_char_strips_only_the_end() {
    assert_eq!(trim_trailing_char("http://host//", '/'), "http://host");
    assert_eq!(trim_trailing_char("http://host", '/'), "http://host");
    assert_eq!(trim_trailing_char("///", '/'), "");
}
