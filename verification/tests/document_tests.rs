use oscar_doc::document::{Document, HeaderName, Metadata, RawRecord, WarcHeaders};
use warc::{Record, WarcHeader};

fn headers_from_warc(headers: &std::collections::HashMap<WarcHeader, Vec<u8>>) -> WarcHeaders {
    let mut entries: Vec<(HeaderName, Vec<u8>)> = Vec::new();
    for (k, v) in headers.iter() {
        entries.push((HeaderName::parse_name(k.to_string()), v.clone()));
    }
    WarcHeaders::from_entries(entries)
}

#[test]
fn test_from_record() {
    let record = Record::default();
    let body = "foo
        bar
        baz";

    let record = record.add_body(body);
    let metadata = Metadata::default();
    let (headers, body) = record.into_raw_parts();
    let raw = RawRecord {
        headers: headers_from_warc(&headers.headers),
        body: body.clone(),
    };
    let doc = Document::from_record(raw, metadata);

    assert_eq!(doc.content(), &String::from_utf8_lossy(&body).into_owned());
    assert_eq!(doc.warc_headers().len(), headers.headers.len());
    for (k, v) in headers.headers.iter() {
        assert_eq!(
            doc.warc_headers().get(&HeaderName::parse_name(k.to_string())),
            Some(v)
        );
    }
    assert_eq!(
        doc.warc_id(),
        String::from_utf8_lossy(headers.headers.get(&WarcHeader::RecordID).unwrap())
            .into_owned()
    );
}

#[test]
fn from_record_content_and_id() {
    let entries = vec![(HeaderName::RecordID, b"<urn:uuid:1>".to_vec())];
    let raw = RawRecord {
        headers: WarcHeaders::from_entries(entries),
        body: b"foo\nbar\nbaz".to_vec(),
    };
    let doc = Document::from_record(raw, Metadata::default());
    assert_eq!(doc.content(), "foo\nbar\nbaz");
    assert_eq!(doc.warc_id(), "<urn:uuid:1>");
}

#[test]
fn from_record_repairs_invalid_bytes() {
    let entries = vec![(HeaderName::RecordID, b"<urn:uuid:2>".to_vec())];
    let raw = RawRecord {
        headers: WarcHeaders::from_entries(entries),
        body: b"\xff\xfefoo".to_vec(),
    };
    let doc = Document::from_record(raw, Metadata::default());
    assert_eq!(doc.content(), "\u{fffd}\u{fffd}foo");
}

#[test]
fn missing_record_id_is_detectable() {
    let doc = Document::new(
        "text".to_string(),
        WarcHeaders::new(),
        Metadata::default(),
    );
    assert!(doc.warc_headers().get(&HeaderName::RecordID).is_none());
}

#[test]
fn url_absent_without_target_uri() {
    let doc = Document::new(
        "text".to_string(),
        WarcHeaders::new(),
        Metadata::default(),
    );
    assert_eq!(doc.url(), None);
}

#[test]
fn url_present_with_target_uri() {
    let entries = vec![(HeaderName::TargetURI, b"https://example.org/a".to_vec())];
    let doc = Document::new(
        "text".to_string(),
        WarcHeaders::from_entries(entries),
        Metadata::default(),
    );
    assert_eq!(doc.url(), Some("https://example.org/a".to_string()));
}

#[test]
fn set_content_replaces_wholesale() {
    let mut doc = Document::new(
        "before".to_string(),
        WarcHeaders::new(),
        Metadata::default(),
    );
    doc.set_content("after".to_string());
    assert_eq!(doc.content(), "after");
}

#[test]
fn metadata_mut_annotates_in_place() {
    let mut doc = Document::new(
        "text".to_string(),
        WarcHeaders::new(),
        Metadata::default(),
    );
    doc.metadata_mut().add_annotation("tiny".to_string());
    assert_eq!(doc.metadata().annotation(), Some(&vec!["tiny".to_string()]));
}

#[test]
fn default_metadata_is_english_placeholder() {
    let m = Metadata::default();
    assert_eq!(m.identification().label().as_str(), "en");
    assert_eq!(m.identification().prob(), 1.0f32.to_bits());
    assert_eq!(m.harmful_pp(), None);
    assert!(m.annotation().is_none());
    assert!(m.categories().is_none());
    let sids = m.sentence_identifications();
    assert_eq!(sids.len(), 1);
    let s = sids[0].as_ref().unwrap();
    assert_eq!(s.label().as_str(), "en");
    assert_eq!(s.prob(), 1.0f32.to_bits());
}

#[test]
fn category_ops_in_order_then_clear() {
    let mut m = Metadata::default();
    assert!(m.categories().is_none());
    m.add_category("x".to_string());
    m.add_category("y".to_string());
    assert_eq!(
        m.categories(),
        Some(&vec!["x".to_string(), "y".to_string()])
    );
    m.set_categories(None);
    assert!(m.categories().is_none());
}

#[test]
fn set_categories_replaces_wholesale() {
    let mut m = Metadata::default();
    m.add_category("old".to_string());
    m.set_categories(Some(vec!["new".to_string()]));
    assert_eq!(m.categories(), Some(&vec!["new".to_string()]));
}

#[test]
fn annotations_append_in_order() {
    let mut m = Metadata::default();
    assert!(m.annotation().is_none());
    m.add_annotation("short_sentences".to_string());
    m.add_annotation("header".to_string());
    assert_eq!(
        m.annotation(),
        Some(&vec!["short_sentences".to_string(), "header".to_string()])
    );
}

#[test]
fn harmful_pp_set_and_clear() {
    let mut m = Metadata::default();
    m.set_harmful_pp(Some(42.5f32.to_bits()));
    assert_eq!(m.harmful_pp(), Some(42.5f32.to_bits()));
    m.set_harmful_pp(None);
    assert_eq!(m.harmful_pp(), None);
}
