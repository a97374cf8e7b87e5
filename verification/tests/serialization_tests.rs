use oscar_doc::common_types::{Identification, IdentificationSer};
use oscar_doc::document::{Document, HeaderName, Metadata, MetadataSer, WarcHeaders};
use oscar_doc::error::Error;
use oscar_doc::lang::LangTag;

#[test]
fn test_serialize() {
    let m = Metadata::default();

    let serialized = m.into_ser();

    println!("{:?}", serialized);

    let m2 = Metadata::from_ser(serialized).unwrap();

    println!("{:?}", m2);
}

#[test]
fn identification_round_trip() {
    let tag = LangTag::parse("fr".to_string()).unwrap();
    let ident = Identification::new(tag, 0.9f32.to_bits());
    let expected = {
        let tag = LangTag::parse("fr".to_string()).unwrap();
        Identification::new(tag, 0.9f32.to_bits())
    };
    let ser = ident.into_ser();
    assert_eq!(ser.label, "fr");
    assert_eq!(ser.prob, 0.9f32.to_bits());
    let back = Identification::from_ser(ser).unwrap();
    assert_eq!(back, expected);
}

#[test]
fn invalid_label_is_rejected() {
    let ser = IdentificationSer {
        label: "certainly not a language tag!!".to_string(),
        prob: 0.5f32.to_bits(),
    };
    let r = Identification::from_ser(ser);
    assert!(matches!(r, Err(Error::UnknownLang(_))));
}

#[test]
fn invalid_sentence_label_fails_metadata() {
    let en = IdentificationSer {
        label: "en".to_string(),
        prob: 1.0f32.to_bits(),
    };
    let bad = IdentificationSer {
        label: "12 monkeys".to_string(),
        prob: 1.0f32.to_bits(),
    };
    let ser = MetadataSer {
        identification: en,
        harmful_pp: None,
        quality_warnings: None,
        categories: None,
        sentence_identifications: vec![None, Some(bad)],
    };
    let r = Metadata::from_ser(ser);
    assert!(matches!(r, Err(Error::UnknownLang(_))));
}

fn sample_document() -> Document {
    let entries = vec![
        (HeaderName::RecordID, b"<urn:uuid:42>".to_vec()),
        (HeaderName::TargetURI, b"https://example.org/page".to_vec()),
        (HeaderName::ContentType, b"text/plain".to_vec()),
        (
            HeaderName::Unknown("x-pipeline-stage".to_string()),
            b"ingest".to_vec(),
        ),
    ];
    let ident = Identification::new(LangTag::parse("en".to_string()).unwrap(), 1.0f32.to_bits());
    let sids = vec![
        Some(Identification::new(
            LangTag::parse("en".to_string()).unwrap(),
            0.8f32.to_bits(),
        )),
        None,
    ];
    let mut metadata = Metadata::new(&ident, &sids);
    metadata.add_annotation("short_sentences".to_string());
    metadata.add_category("news".to_string());
    metadata.set_harmful_pp(Some(123.5f32.to_bits()));
    Document::new(
        "foo\nbar".to_string(),
        WarcHeaders::from_entries(entries),
        metadata,
    )
}

#[test]
fn document_round_trip() {
    let doc = sample_document();
    let again = sample_document();
    let ser = doc.into_ser();
    let back = Document::from_ser(ser).unwrap();
    assert_eq!(back, again);
}

#[test]
fn document_ser_is_plain_text() {
    let ser = sample_document().into_ser();
    assert_eq!(ser.content, "foo\nbar");
    assert_eq!(
        ser.warc_headers,
        vec![
            ("warc-record-id".to_string(), "<urn:uuid:42>".to_string()),
            (
                "warc-target-uri".to_string(),
                "https://example.org/page".to_string()
            ),
            ("content-type".to_string(), "text/plain".to_string()),
            ("x-pipeline-stage".to_string(), "ingest".to_string()),
        ]
    );
    assert_eq!(ser.metadata.identification.label, "en");
    assert_eq!(ser.metadata.harmful_pp, Some(123.5f32.to_bits()));
    assert_eq!(
        ser.metadata.quality_warnings,
        Some(vec!["short_sentences".to_string()])
    );
    assert_eq!(ser.metadata.categories, Some(vec!["news".to_string()]));
    assert_eq!(ser.metadata.sentence_identifications.len(), 2);
    assert!(ser.metadata.sentence_identifications[1].is_none());
}

#[test]
fn from_ser_encodes_header_values() {
    let ser = sample_document().into_ser();
    let back = Document::from_ser(ser).unwrap();
    assert_eq!(
        back.warc_headers().get(&HeaderName::TargetURI),
        Some(&b"https://example.org/page".to_vec())
    );
    assert_eq!(back.url(), Some("https://example.org/page".to_string()));
}

#[test]
fn header_names_render_and_parse() {
    let names = vec![
        (HeaderName::ContentLength, "content-length"),
        (HeaderName::ContentType, "content-type"),
        (HeaderName::BlockDigest, "warc-block-digest"),
        (HeaderName::ConcurrentTo, "warc-concurrent-to"),
        (HeaderName::Date, "warc-date"),
        (HeaderName::Filename, "warc-filename"),
        (
            HeaderName::IdentifiedPayloadType,
            "warc-identified-payload-type",
        ),
        (HeaderName::IPAddress, "warc-ip-address"),
        (HeaderName::PayloadDigest, "warc-payload-digest"),
        (HeaderName::Profile, "warc-profile"),
        (HeaderName::RecordID, "warc-record-id"),
        (HeaderName::RefersTo, "warc-refers-to"),
        (HeaderName::SegmentNumber, "warc-segment-number"),
        (HeaderName::SegmentOriginID, "warc-segment-origin-id"),
        (HeaderName::SegmentTotalLength, "warc-segment-total-length"),
        (HeaderName::TargetURI, "warc-target-uri"),
        (HeaderName::Truncated, "warc-truncated"),
        (HeaderName::WarcType, "warc-type"),
        (HeaderName::WarcInfoID, "warc-warcinfo-id"),
    ];
    for (name, text) in names {
        assert_eq!(name.to_str(), text);
        assert_eq!(HeaderName::parse_name(text.to_string()), name);
    }
    let odd = HeaderName::parse_name("x-custom".to_string());
    assert_eq!(odd, HeaderName::Unknown("x-custom".to_string()));
    assert_eq!(odd.to_str(), "x-custom");
}

#[test]
fn lang_tag_parse_accepts_and_rejects() {
    assert_eq!(
        LangTag::parse("en-US".to_string()).unwrap().as_str(),
        "en-US"
    );
    assert!(matches!(
        LangTag::parse("definitely not!!".to_string()),
        Err(Error::UnknownLang(s)) if s == "definitely not!!"
    ));
}
