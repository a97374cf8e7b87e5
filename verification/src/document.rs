//! Documents and their metadata.
//!
//! A [`Document`] is the unit of work of the pipeline: the decoded textual
//! content of a captured resource, the mapping of archival header fields to
//! their raw byte values, and the per-document [`Metadata`]. The `*Ser` types
//! are the durable shapes used for storage and interchange: plain text
//! throughout, converted to and from the validated in-memory form by the
//! `into_ser` / `from_ser` pairs.

use vstd::prelude::*;

verus! {

use crate::common_types::{
    ident_to_ser,
    Identification,
    IdentificationSer,
    IdentificationSerView,
    IdentificationView,
    PROB_CERTAIN,
};
use crate::error::Error;
use crate::lang::{is_valid_lang_tag, LangTag};
use crate::text::{encode_utf8, lossy_decode, utf8_encode, utf8_lossy, valid_text};

/// The name of an archival header field: the fixed enumeration of WARC
/// header names, plus `Unknown` for any name outside it (kept as it stands).
#[derive(Debug, PartialEq, Eq)]
pub enum HeaderName {
    ContentLength,
    ContentType,
    BlockDigest,
    ConcurrentTo,
    Date,
    Filename,
    IdentifiedPayloadType,
    IPAddress,
    PayloadDigest,
    Profile,
    RecordID,
    RefersTo,
    SegmentNumber,
    SegmentOriginID,
    SegmentTotalLength,
    TargetURI,
    Truncated,
    WarcType,
    WarcInfoID,
    Unknown(String),
}

impl View for HeaderName {
    type V = Seq<char>;

    open spec fn view(&self) -> Seq<char> {
        match self {
            HeaderName::ContentLength => "content-length"@,
            HeaderName::ContentType => "content-type"@,
            HeaderName::BlockDigest => "warc-block-digest"@,
            HeaderName::ConcurrentTo => "warc-concurrent-to"@,
            HeaderName::Date => "warc-date"@,
            HeaderName::Filename => "warc-filename"@,
            HeaderName::IdentifiedPayloadType => "warc-identified-payload-type"@,
            HeaderName::IPAddress => "warc-ip-address"@,
            HeaderName::PayloadDigest => "warc-payload-digest"@,
            HeaderName::Profile => "warc-profile"@,
            HeaderName::RecordID => "warc-record-id"@,
            HeaderName::RefersTo => "warc-refers-to"@,
            HeaderName::SegmentNumber => "warc-segment-number"@,
            HeaderName::SegmentOriginID => "warc-segment-origin-id"@,
            HeaderName::SegmentTotalLength => "warc-segment-total-length"@,
            HeaderName::TargetURI => "warc-target-uri"@,
            HeaderName::Truncated => "warc-truncated"@,
            HeaderName::WarcType => "warc-type"@,
            HeaderName::WarcInfoID => "warc-warcinfo-id"@,
            HeaderName::Unknown(s) => s@,
        }
    }
}

impl DeepView for HeaderName {
    type V = Seq<char>;

    open spec fn deep_view(&self) -> Seq<char> {
        self@
    }
}

impl HeaderName {
    /// The textual rendering of the header name.
    pub fn to_str(&self) -> (r: &str)
        ensures
            r@ == self@,
    {
        match self {
            HeaderName::ContentLength => "content-length",
            HeaderName::ContentType => "content-type",
            HeaderName::BlockDigest => "warc-block-digest",
            HeaderName::ConcurrentTo => "warc-concurrent-to",
            HeaderName::Date => "warc-date",
            HeaderName::Filename => "warc-filename",
            HeaderName::IdentifiedPayloadType => "warc-identified-payload-type",
            HeaderName::IPAddress => "warc-ip-address",
            HeaderName::PayloadDigest => "warc-payload-digest",
            HeaderName::Profile => "warc-profile",
            HeaderName::RecordID => "warc-record-id",
            HeaderName::RefersTo => "warc-refers-to",
            HeaderName::SegmentNumber => "warc-segment-number",
            HeaderName::SegmentOriginID => "warc-segment-origin-id",
            HeaderName::SegmentTotalLength => "warc-segment-total-length",
            HeaderName::TargetURI => "warc-target-uri",
            HeaderName::Truncated => "warc-truncated",
            HeaderName::WarcType => "warc-type",
            HeaderName::WarcInfoID => "warc-warcinfo-id",
            HeaderName::Unknown(s) => s.as_str(),
        }
    }

    /// Give up the name and hand back its textual rendering.
    pub fn into_name_string(self) -> (r: String)
        ensures
            r@ == self@,
    {
        match self {
            HeaderName::Unknown(s) => s,
            other => other.to_str().to_owned(),
        }
    }

    /// Parse a textual header name. A name outside the fixed enumeration is
    /// kept as `Unknown`; either way the name's rendering is the given text.
    pub fn parse_name(name: String) -> (r: HeaderName)
        ensures
            r@ == name@,
    {
        if name == "content-length".to_owned() {
            HeaderName::ContentLength
        } else if name == "content-type".to_owned() {
            HeaderName::ContentType
        } else if name == "warc-block-digest".to_owned() {
            HeaderName::BlockDigest
        } else if name == "warc-concurrent-to".to_owned() {
            HeaderName::ConcurrentTo
        } else if name == "warc-date".to_owned() {
            HeaderName::Date
        } else if name == "warc-filename".to_owned() {
            HeaderName::Filename
        } else if name == "warc-identified-payload-type".to_owned() {
            HeaderName::IdentifiedPayloadType
        } else if name == "warc-ip-address".to_owned() {
            HeaderName::IPAddress
        } else if name == "warc-payload-digest".to_owned() {
            HeaderName::PayloadDigest
        } else if name == "warc-profile".to_owned() {
            HeaderName::Profile
        } else if name == "warc-record-id".to_owned() {
            HeaderName::RecordID
        } else if name == "warc-refers-to".to_owned() {
            HeaderName::RefersTo
        } else if name == "warc-segment-number".to_owned() {
            HeaderName::SegmentNumber
        } else if name == "warc-segment-origin-id".to_owned() {
            HeaderName::SegmentOriginID
        } else if name == "warc-segment-total-length".to_owned() {
            HeaderName::SegmentTotalLength
        } else if name == "warc-target-uri".to_owned() {
            HeaderName::TargetURI
        } else if name == "warc-truncated".to_owned() {
            HeaderName::Truncated
        } else if name == "warc-type".to_owned() {
            HeaderName::WarcType
        } else if name == "warc-warcinfo-id".to_owned() {
            HeaderName::WarcInfoID
        } else {
            HeaderName::Unknown(name)
        }
    }
}

/// The value of `name` in an association list of headers: the value beside
/// its first occurrence, or nothing when the name does not occur.
pub open spec fn lookup(entries: Seq<(Seq<char>, Seq<u8>)>, name: Seq<char>) -> Option<Seq<u8>>
    decreases entries.len(),
{
    if entries.len() == 0 {
        None
    } else if entries[0].0 == name {
        Some(entries[0].1)
    } else {
        lookup(entries.skip(1), name)
    }
}

/// Walking `i` entries without a match leaves the lookup unchanged.
proof fn lemma_lookup_skip(entries: Seq<(Seq<char>, Seq<u8>)>, name: Seq<char>, i: int)
    requires
        0 <= i <= entries.len(),
        forall|j: int| 0 <= j < i ==> entries[j].0 != name,
    ensures
        lookup(entries, name) == lookup(entries.skip(i), name),
    decreases i,
{
    if i > 0 {
        assert(entries.skip(1).skip(i - 1) =~= entries.skip(i));
        lemma_lookup_skip(entries.skip(1), name, i - 1);
    } else {
        assert(entries.skip(0) =~= entries);
    }
}

/// The archival headers of one document: a mapping from header-field name to
/// raw byte value, kept as an association list in insertion order. A name's
/// value is the one beside its first occurrence.
#[derive(Debug, PartialEq, Eq)]
pub struct WarcHeaders {
    entries: Vec<(HeaderName, Vec<u8>)>,
}

impl View for WarcHeaders {
    type V = Seq<(Seq<char>, Seq<u8>)>;

    closed spec fn view(&self) -> Seq<(Seq<char>, Seq<u8>)> {
        self.entries.deep_view()
    }
}

impl WarcHeaders {
    /// A headers mapping with no entries.
    pub fn new() -> (r: WarcHeaders)
        ensures
            r@ == Seq::<(Seq<char>, Seq<u8>)>::empty(),
    {
        let r = WarcHeaders { entries: Vec::new() };
        proof {
            assert(r@ =~= Seq::<(Seq<char>, Seq<u8>)>::empty());
        }
        r
    }

    /// A headers mapping holding exactly the given entries, in their order.
    pub fn from_entries(entries: Vec<(HeaderName, Vec<u8>)>) -> (r: WarcHeaders)
        ensures
            r@ == entries.deep_view(),
    {
        WarcHeaders { entries }
    }

    /// The entries, in their order.
    pub fn entries(&self) -> (r: &Vec<(HeaderName, Vec<u8>)>)
        ensures
            r.deep_view() == self@,
    {
        &self.entries
    }

    /// Give up the mapping and hand back its entries, in their order.
    pub fn into_entries(self) -> (r: Vec<(HeaderName, Vec<u8>)>)
        ensures
            r.deep_view() == self@,
    {
        self.entries
    }

    /// The number of entries.
    pub fn len(&self) -> (r: usize)
        ensures
            r == self@.len(),
    {
        self.entries.len()
    }

    /// The raw byte value of `name`: the value beside its first occurrence,
    /// or nothing when the name does not occur.
    pub fn get(&self, name: &HeaderName) -> (r: Option<&Vec<u8>>)
        ensures
            match r {
                Some(v) => lookup(self@, name@) == Some(v@),
                None => lookup(self@, name@) is None,
            },
    {
        let n = name.to_str().to_owned();
        let mut i: usize = 0;
        while i < self.entries.len()
            invariant
                0 <= i <= self.entries@.len(),
                self@.len() == self.entries@.len(),
                n@ == name@,
                forall|j: int| 0 <= j < i ==> self@[j].0 != name@,
            decreases self.entries@.len() - i,
        {
            let k = self.entries[i].0.to_str().to_owned();
            if k == n {
                proof {
                    lemma_lookup_skip(self@, name@, i as int);
                    assert(self@.skip(i as int)[0] == self@[i as int]);
                    assert(self@[i as int].1 == self.entries@[i as int].1@);
                }
                return Some(&self.entries[i].1);
            }
            proof {
                assert(self@[i as int].0 == self.entries@[i as int].0@);
            }
            i += 1;
        }
        proof {
            lemma_lookup_skip(self@, name@, i as int);
            assert(self@.skip(i as int).len() == 0);
        }
        None
    }
}

/// Mathematical model of a [`Metadata`].
#[verifier::ext_equal]
pub ghost struct MetadataView {
    pub identification: IdentificationView,
    pub harmful_pp: Option<u32>,
    pub quality_warnings: Option<Seq<Seq<char>>>,
    pub categories: Option<Seq<Seq<char>>>,
    pub sentence_identifications: Seq<Option<IdentificationView>>,
}

/// A tag list with `t` appended: to an absent list, as the list of `t` alone.
pub open spec fn appended(tags: Option<Seq<Seq<char>>>, t: Seq<char>) -> Seq<Seq<char>> {
    match tags {
        Some(s) => s.push(t),
        None => seq![t],
    }
}

/// What adding the quality-warning tag `t` does to a metadata.
pub open spec fn with_annotation(m: MetadataView, t: Seq<char>) -> MetadataView {
    MetadataView { quality_warnings: Some(appended(m.quality_warnings, t)), ..m }
}

/// What adding the category tag `t` does to a metadata.
pub open spec fn with_category(m: MetadataView, t: Seq<char>) -> MetadataView {
    MetadataView { categories: Some(appended(m.categories, t)), ..m }
}

/// What replacing the category tags wholesale does to a metadata.
pub open spec fn with_categories(m: MetadataView, c: Option<Seq<Seq<char>>>) -> MetadataView {
    MetadataView { categories: c, ..m }
}

/// The document-level identification of the fixed placeholder: English with
/// confidence 1.0.
pub open spec fn english_ident() -> IdentificationView {
    IdentificationView { label: "en"@, prob: PROB_CERTAIN }
}

/// The fixed placeholder metadata: the whole document and its single
/// sentence are English with confidence 1.0, and no optional field is set.
pub open spec fn default_metadata() -> MetadataView {
    MetadataView {
        identification: english_ident(),
        harmful_pp: None,
        quality_warnings: None,
        categories: None,
        sentence_identifications: seq![Some(english_ident())],
    }
}

/// Per-document annotations: the document-level language identification, an
/// optional harmfulness perplexity score (kept as the bit pattern of its
/// 32-bit value), optional quality-warning tags, optional url-derived
/// category tags, and one optional language identification per sentence of
/// the document, in sentence order (an absent slot means that no
/// identification could be computed for that sentence).
#[derive(Debug, PartialEq)]
pub struct Metadata {
    identification: Identification,
    harmful_pp: Option<u32>,
    quality_warnings: Option<Vec<String>>,
    categories: Option<Vec<String>>,
    sentence_identifications: Vec<Option<Identification>>,
}

impl View for Metadata {
    type V = MetadataView;

    closed spec fn view(&self) -> MetadataView {
        MetadataView {
            identification: self.identification@,
            harmful_pp: self.harmful_pp,
            quality_warnings: self.quality_warnings.deep_view(),
            categories: self.categories.deep_view(),
            sentence_identifications: self.sentence_identifications.deep_view(),
        }
    }
}

impl Metadata {
    /// A metadata with the given identifications and all optional fields
    /// absent.
    pub fn new(
        identification: &Identification,
        sentence_identifications: &[Option<Identification>],
    ) -> (r: Metadata)
        ensures
            r@ == (MetadataView {
                identification: identification@,
                harmful_pp: None,
                quality_warnings: None,
                categories: None,
                sentence_identifications: sentence_identifications.deep_view(),
            }),
    {
        let mut sids: Vec<Option<Identification>> = Vec::new();
        let mut i: usize = 0;
        while i < sentence_identifications.len()
            invariant
                0 <= i <= sentence_identifications@.len(),
                sids@.len() == i,
                forall|j: int|
                    0 <= j < i ==> sids@[j].deep_view()
                        == sentence_identifications@[j].deep_view(),
            decreases sentence_identifications@.len() - i,
        {
            let x = match &sentence_identifications[i] {
                Some(id) => Some(id.clone()),
                None => None,
            };
            sids.push(x);
            i += 1;
        }
        proof {
            assert(sids.deep_view() =~= sentence_identifications.deep_view());
        }
        Metadata {
            identification: identification.clone(),
            harmful_pp: None,
            quality_warnings: None,
            categories: None,
            sentence_identifications: sids,
        }
    }

    /// Append a quality-warning tag, creating the list when absent.
    pub fn add_annotation(&mut self, annotation: String)
        ensures
            final(self)@ == with_annotation(old(self)@, annotation@),
    {
        let mut list = match self.quality_warnings.take() {
            Some(l) => l,
            None => Vec::new(),
        };
        list.push(annotation);
        proof {
            assert(list.deep_view() =~= appended(old(self)@.quality_warnings, annotation@));
        }
        self.quality_warnings = Some(list);
    }

    /// Append a category tag, creating the list when absent.
    pub fn add_category(&mut self, category: String)
        ensures
            final(self)@ == with_category(old(self)@, category@),
    {
        let mut list = match self.categories.take() {
            Some(l) => l,
            None => Vec::new(),
        };
        list.push(category);
        proof {
            assert(list.deep_view() =~= appended(old(self)@.categories, category@));
        }
        self.categories = Some(list);
    }

    /// Replace the category tags wholesale (clearing them when given none).
    pub fn set_categories(&mut self, categories: Option<Vec<String>>)
        ensures
            final(self)@ == with_categories(old(self)@, categories.deep_view()),
    {
        self.categories = categories;
    }

    /// Replace the harmfulness score wholesale (clearing it when given none).
    pub fn set_harmful_pp(&mut self, harmful_pp: Option<u32>)
        ensures
            final(self)@ == (MetadataView { harmful_pp, ..old(self)@ }),
    {
        self.harmful_pp = harmful_pp;
    }

    /// Get a reference to the metadata's document-level identification.
    pub fn identification(&self) -> (r: &Identification)
        ensures
            r@ == self@.identification,
    {
        &self.identification
    }

    /// Get the metadata's harmfulness score, if one has been set.
    pub fn harmful_pp(&self) -> (r: Option<u32>)
        ensures
            r == self@.harmful_pp,
    {
        self.harmful_pp
    }

    /// Get a reference to the metadata's quality-warning tags; an absent list
    /// is distinguishable from a present-but-empty one.
    pub fn annotation(&self) -> (r: Option<&Vec<String>>)
        ensures
            match r {
                Some(v) => self@.quality_warnings == Some(v.deep_view()),
                None => self@.quality_warnings is None,
            },
    {
        self.quality_warnings.as_ref()
    }

    /// Get a reference to the metadata's category tags.
    pub fn categories(&self) -> (r: Option<&Vec<String>>)
        ensures
            match r {
                Some(v) => self@.categories == Some(v.deep_view()),
                None => self@.categories is None,
            },
    {
        self.categories.as_ref()
    }

    /// Get a reference to the metadata's sentence identifications.
    pub fn sentence_identifications(&self) -> (r: &[Option<Identification>])
        ensures
            r.deep_view() == self@.sentence_identifications,
    {
        self.sentence_identifications.as_slice()
    }
}

impl Default for Metadata {
    /// The safe placeholder used when no classifier output is available yet:
    /// English with confidence 1.0 for the document and its single sentence,
    /// no warnings, no categories, no harmfulness score.
    fn default() -> (r: Metadata)
        ensures
            r@ == default_metadata(),
    {
        let ident = Identification::new(LangTag::english(), PROB_CERTAIN);
        let mut sids: Vec<Option<Identification>> = Vec::new();
        sids.push(Some(ident.clone()));
        let r = Metadata {
            identification: ident,
            harmful_pp: None,
            quality_warnings: None,
            categories: None,
            sentence_identifications: sids,
        };
        proof {
            assert(r@.sentence_identifications =~= default_metadata().sentence_identifications);
        }
        r
    }
}

/// Mathematical model of a [`MetadataSer`].
#[verifier::ext_equal]
pub ghost struct MetadataSerView {
    pub identification: IdentificationSerView,
    pub harmful_pp: Option<u32>,
    pub quality_warnings: Option<Seq<Seq<char>>>,
    pub categories: Option<Seq<Seq<char>>>,
    pub sentence_identifications: Seq<Option<IdentificationSerView>>,
}

/// Rendering one optional sentence identification for the durable form.
pub open spec fn ident_opt_to_ser(o: Option<IdentificationView>) -> Option<IdentificationSerView> {
    match o {
        Some(i) => Some(ident_to_ser(i)),
        None => None,
    }
}

/// Whether one durable optional sentence identification carries a
/// well-formed label (an absent one does vacuously).
pub open spec fn ident_opt_valid(o: Option<IdentificationSerView>) -> bool {
    match o {
        Some(i) => is_valid_lang_tag(i.label),
        None => true,
    }
}

/// Parsing one durable optional sentence identification back, on the
/// understanding that its label is well-formed.
pub open spec fn ident_opt_parsed(o: Option<IdentificationSerView>) -> Option<IdentificationView> {
    match o {
        Some(i) => Some(IdentificationView { label: i.label, prob: i.prob }),
        None => None,
    }
}

/// Rendering a metadata for the durable form: every label becomes its plain
/// textual rendering; everything else is kept as it is.
pub open spec fn meta_to_ser(m: MetadataView) -> MetadataSerView {
    MetadataSerView {
        identification: ident_to_ser(m.identification),
        harmful_pp: m.harmful_pp,
        quality_warnings: m.quality_warnings,
        categories: m.categories,
        sentence_identifications: m.sentence_identifications.map_values(
            |o: Option<IdentificationView>| ident_opt_to_ser(o),
        ),
    }
}

/// Whether every label of a durable metadata is a well-formed language tag.
pub open spec fn meta_labels_valid(s: MetadataSerView) -> bool {
    &&& is_valid_lang_tag(s.identification.label)
    &&& forall|i: int|
        0 <= i < s.sentence_identifications.len() ==> ident_opt_valid(
            #[trigger] s.sentence_identifications[i],
        )
}

/// Parsing a metadata back from the durable form: succeeds exactly when
/// every label is a well-formed language tag.
pub open spec fn meta_from_ser(s: MetadataSerView) -> Option<MetadataView> {
    if meta_labels_valid(s) {
        Some(MetadataView {
            identification: IdentificationView {
                label: s.identification.label,
                prob: s.identification.prob,
            },
            harmful_pp: s.harmful_pp,
            quality_warnings: s.quality_warnings,
            categories: s.categories,
            sentence_identifications: s.sentence_identifications.map_values(
                |o: Option<IdentificationSerView>| ident_opt_parsed(o),
            ),
        })
    } else {
        None
    }
}

/// The durable shape of a metadata: identifications as plain tag strings,
/// everything else as it stands in memory.
#[derive(Debug, PartialEq)]
pub struct MetadataSer {
    pub identification: IdentificationSer,
    pub harmful_pp: Option<u32>,
    pub quality_warnings: Option<Vec<String>>,
    pub categories: Option<Vec<String>>,
    pub sentence_identifications: Vec<Option<IdentificationSer>>,
}

impl View for MetadataSer {
    type V = MetadataSerView;

    open spec fn view(&self) -> MetadataSerView {
        MetadataSerView {
            identification: self.identification@,
            harmful_pp: self.harmful_pp,
            quality_warnings: self.quality_warnings.deep_view(),
            categories: self.categories.deep_view(),
            sentence_identifications: self.sentence_identifications.deep_view(),
        }
    }
}

impl Metadata {
    /// Render for the durable form. Labels held in memory are validated, so
    /// the rendered metadata always carries well-formed labels and parsing it
    /// back cannot fail.
    pub fn into_ser(self) -> (r: MetadataSer)
        ensures
            r@ == meta_to_ser(self@),
            meta_labels_valid(r@),
    {
        let Metadata {
            identification,
            harmful_pp,
            quality_warnings,
            categories,
            sentence_identifications,
        } = self;
        let mut sids = sentence_identifications;
        let ghost orig = sids.deep_view();
        let mut out: Vec<Option<IdentificationSer>> = Vec::new();
        while sids.len() > 0
            invariant
                out@.len() + sids@.len() == orig.len(),
                sids.deep_view() == orig.skip(out@.len() as int),
                forall|j: int|
                    0 <= j < out@.len() ==> out@[j].deep_view() == ident_opt_to_ser(orig[j])
                        && ident_opt_valid(#[trigger] out@[j].deep_view()),
            decreases sids@.len(),
        {
            let ghost k = out@.len() as int;
            let ghost before = sids.deep_view();
            let x = sids.remove(0);
            proof {
                assert(x.deep_view() == before[0]);
                assert(before[0] == orig[k]);
                assert(sids.deep_view() =~= before.skip(1));
                assert(before.skip(1) =~= orig.skip(k + 1));
            }
            match x {
                Some(id) => out.push(Some(id.into_ser())),
                None => out.push(None),
            }
        }
        proof {
            assert(out.deep_view() =~= meta_to_ser(self@).sentence_identifications);
        }
        MetadataSer {
            identification: identification.into_ser(),
            harmful_pp,
            quality_warnings,
            categories,
            sentence_identifications: out,
        }
    }

    /// Parse from the durable form; the first label that is not a well-formed
    /// language tag is surfaced as a validation error.
    pub fn from_ser(ser: MetadataSer) -> (r: Result<Metadata, Error>)
        ensures
            r is Ok <==> meta_from_ser(ser@) is Some,
            r matches Ok(m) ==> meta_from_ser(ser@) == Some(m@),
            r matches Err(e) ==> e is UnknownLang,
    {
        let MetadataSer {
            identification,
            harmful_pp,
            quality_warnings,
            categories,
            sentence_identifications,
        } = ser;
        let ident = match Identification::from_ser(identification) {
            Ok(i) => i,
            Err(e) => {
                return Err(e);
            },
        };
        let mut sids_in = sentence_identifications;
        let ghost orig = sids_in.deep_view();
        let mut sids: Vec<Option<Identification>> = Vec::new();
        while sids_in.len() > 0
            invariant
                orig == ser@.sentence_identifications,
                sids@.len() + sids_in@.len() == orig.len(),
                sids_in.deep_view() == orig.skip(sids@.len() as int),
                forall|j: int|
                    0 <= j < sids@.len() ==> ident_opt_valid(#[trigger] orig[j]) && sids@[
                        j
                    ].deep_view() == ident_opt_parsed(orig[j]),
            decreases sids_in@.len(),
        {
            let ghost k = sids@.len() as int;
            let ghost before = sids_in.deep_view();
            let x = sids_in.remove(0);
            proof {
                assert(x.deep_view() == before[0]);
                assert(before[0] == orig[k]);
                assert(sids_in.deep_view() =~= before.skip(1));
                assert(before.skip(1) =~= orig.skip(k + 1));
            }
            match x {
                Some(s) => match Identification::from_ser(s) {
                    Ok(i) => sids.push(Some(i)),
                    Err(e) => {
                        proof {
                            assert(orig == ser@.sentence_identifications);
                            assert(0 <= k < ser@.sentence_identifications.len());
                            assert(!ident_opt_valid(ser@.sentence_identifications[k]));
                            assert(!meta_labels_valid(ser@));
                        }
                        return Err(e);
                    },
                },
                None => sids.push(None),
            }
        }
        let r = Metadata {
            identification: ident,
            harmful_pp,
            quality_warnings,
            categories,
            sentence_identifications: sids,
        };
        proof {
            assert(meta_labels_valid(ser@));
            assert(r@.sentence_identifications =~= meta_from_ser(
                ser@,
            ).unwrap().sentence_identifications);
        }
        Ok(r)
    }
}

/// Mathematical model of a [`Document`].
#[verifier::ext_equal]
pub ghost struct DocumentView {
    pub content: Seq<char>,
    pub warc_headers: Seq<(Seq<char>, Seq<u8>)>,
    pub metadata: MetadataView,
}

/// Mathematical model of a [`DocumentSer`].
#[verifier::ext_equal]
pub ghost struct DocumentSerView {
    pub content: Seq<char>,
    pub warc_headers: Seq<(Seq<char>, Seq<char>)>,
    pub metadata: MetadataSerView,
}

/// Rendering the headers for the durable form: every raw byte value becomes
/// its lossily decoded text; names and order are kept.
pub open spec fn headers_to_ser(h: Seq<(Seq<char>, Seq<u8>)>) -> Seq<(Seq<char>, Seq<char>)> {
    h.map_values(|e: (Seq<char>, Seq<u8>)| (e.0, lossy_decode(e.1)))
}

/// Reading the headers back: every text value becomes its UTF-8 encoding.
pub open spec fn headers_from_ser(h: Seq<(Seq<char>, Seq<char>)>) -> Seq<(Seq<char>, Seq<u8>)> {
    h.map_values(|e: (Seq<char>, Seq<char>)| (e.0, encode_utf8(e.1)))
}

/// Rendering a document for the durable form.
pub open spec fn doc_to_ser(d: DocumentView) -> DocumentSerView {
    DocumentSerView {
        content: d.content,
        warc_headers: headers_to_ser(d.warc_headers),
        metadata: meta_to_ser(d.metadata),
    }
}

/// Parsing a document back from the durable form: content and headers never
/// fail; the metadata's labels must all be well-formed.
pub open spec fn doc_from_ser(s: DocumentSerView) -> Option<DocumentView> {
    match meta_from_ser(s.metadata) {
        Some(m) => Some(
            DocumentView {
                content: s.content,
                warc_headers: headers_from_ser(s.warc_headers),
                metadata: m,
            },
        ),
        None => None,
    }
}

/// A raw captured record, as handed over by an archive reader: header fields
/// and raw body bytes.
#[derive(Debug, PartialEq)]
pub struct RawRecord {
    pub headers: WarcHeaders,
    pub body: Vec<u8>,
}

/// The unit of work of the pipeline: the decoded text of a captured
/// resource, its archival headers (raw bytes), and its metadata, owned
/// exclusively by the document.
#[derive(Debug, PartialEq)]
pub struct Document {
    content: String,
    warc_headers: WarcHeaders,
    metadata: Metadata,
}

impl View for Document {
    type V = DocumentView;

    closed spec fn view(&self) -> DocumentView {
        DocumentView {
            content: self.content@,
            warc_headers: self.warc_headers@,
            metadata: self.metadata@,
        }
    }
}

/// The durable shape of a document: plain text throughout, headers as pairs
/// of name and lossily decoded value.
#[derive(Debug, PartialEq)]
pub struct DocumentSer {
    pub content: String,
    pub warc_headers: Vec<(String, String)>,
    pub metadata: MetadataSer,
}

impl View for DocumentSer {
    type V = DocumentSerView;

    open spec fn view(&self) -> DocumentSerView {
        DocumentSerView {
            content: self.content@,
            warc_headers: self.warc_headers.deep_view(),
            metadata: self.metadata@,
        }
    }
}

impl Document {
    /// A document built directly from its parts, with no validation.
    pub fn new(content: String, warc_headers: WarcHeaders, metadata: Metadata) -> (r: Document)
        ensures
            r@ == (DocumentView {
                content: content@,
                warc_headers: warc_headers@,
                metadata: metadata@,
            }),
    {
        Document { content, warc_headers, metadata }
    }

    /// The sole ingestion path from capture data: split a raw captured record
    /// into its headers and body, decode the body lossily (never failing),
    /// and pair the result with the externally computed metadata.
    pub fn from_record(record: RawRecord, metadata: Metadata) -> (r: Document)
        ensures
            r@ == (DocumentView {
                content: lossy_decode(record.body@),
                warc_headers: record.headers@,
                metadata: metadata@,
            }),
    {
        let RawRecord { headers, body } = record;
        let content = utf8_lossy(body.as_slice());
        Document { content, warc_headers: headers, metadata }
    }

    /// Get a reference to the document's own language identification.
    pub fn identification(&self) -> (r: &Identification)
        ensures
            r@ == self@.metadata.identification,
    {
        self.metadata.identification()
    }

    /// Get a reference to the content.
    pub fn content(&self) -> (r: &String)
        ensures
            r@ == self@.content,
    {
        &self.content
    }

    /// The record id, decoded lossily. A document without a Record-ID header
    /// never comes from a real capture; such a document is outside this
    /// function's contract and the call is refused.
    pub fn warc_id(&self) -> (r: String)
        requires
            lookup(self@.warc_headers, "warc-record-id"@) is Some,
        ensures
            r@ == lossy_decode(lookup(self@.warc_headers, "warc-record-id"@).unwrap()),
    {
        match self.warc_headers.get(&HeaderName::RecordID) {
            Some(v) => utf8_lossy(v.as_slice()),
            None => vstd::pervasive::unreached(),
        }
    }

    /// Get a reference to the document's archival headers.
    pub fn warc_headers(&self) -> (r: &WarcHeaders)
        ensures
            r@ == self@.warc_headers,
    {
        &self.warc_headers
    }

    /// The target url as text, when the document has one; a document without
    /// a Target-URI header has none, which is not an error.
    pub fn url(&self) -> (r: Option<String>)
        ensures
            r is Some <==> lookup(self@.warc_headers, "warc-target-uri"@) is Some,
            r matches Some(u) ==> u@ == lossy_decode(
                lookup(self@.warc_headers, "warc-target-uri"@).unwrap(),
            ),
    {
        match self.warc_headers.get(&HeaderName::TargetURI) {
            Some(v) => Some(utf8_lossy(v.as_slice())),
            None => None,
        }
    }

    /// Get a mutable view of the document's metadata: the mutation surface
    /// used by downstream annotating stages.
    pub fn metadata_mut(&mut self) -> (r: &mut Metadata)
        ensures
            r@ == old(self)@.metadata,
            final(self)@ == (DocumentView { metadata: final(r)@, ..old(self)@ }),
    {
        &mut self.metadata
    }

    /// Get a reference to the document's metadata.
    pub fn metadata(&self) -> (r: &Metadata)
        ensures
            r@ == self@.metadata,
    {
        &self.metadata
    }

    /// Replace the document's content wholesale.
    pub fn set_content(&mut self, content: String)
        ensures
            final(self)@ == (DocumentView { content: content@, ..old(self)@ }),
    {
        self.content = content;
    }

    /// Render for the durable form: every header value becomes its lossily
    /// decoded text, every label its plain rendering. The rendered document
    /// always carries well-formed labels, so parsing it back cannot fail.
    pub fn into_ser(self) -> (r: DocumentSer)
        ensures
            r@ == doc_to_ser(self@),
            meta_labels_valid(r@.metadata),
    {
        let Document { content, warc_headers, metadata } = self;
        let mut entries = warc_headers.into_entries();
        let ghost orig = entries.deep_view();
        let mut hdrs: Vec<(String, String)> = Vec::new();
        while entries.len() > 0
            invariant
                hdrs@.len() + entries@.len() == orig.len(),
                entries.deep_view() == orig.skip(hdrs@.len() as int),
                forall|j: int|
                    0 <= j < hdrs@.len() ==> hdrs@[j].deep_view() == (
                        orig[j].0,
                        lossy_decode(orig[j].1),
                    ),
            decreases entries@.len(),
        {
            let ghost k = hdrs@.len() as int;
            let ghost before = entries.deep_view();
            let (name, value) = entries.remove(0);
            proof {
                assert(before[0] == (name.deep_view(), value.deep_view()));
                assert(value.deep_view() =~= value@);
                assert(before[0] == orig[k]);
                assert(entries.deep_view() =~= before.skip(1));
                assert(before.skip(1) =~= orig.skip(k + 1));
            }
            let text = utf8_lossy(value.as_slice());
            hdrs.push((name.into_name_string(), text));
        }
        proof {
            assert(hdrs.deep_view() =~= headers_to_ser(orig));
        }
        DocumentSer {
            content,
            warc_headers: hdrs,
            metadata: metadata.into_ser(),
        }
    }

    /// Parse from the durable form: every header text value is re-encoded to
    /// bytes, every label parsed; the first label that is not a well-formed
    /// language tag is surfaced as a validation error.
    pub fn from_ser(ser: DocumentSer) -> (r: Result<Document, Error>)
        ensures
            r is Ok <==> doc_from_ser(ser@) is Some,
            r matches Ok(d) ==> doc_from_ser(ser@) == Some(d@),
            r matches Err(e) ==> e is UnknownLang,
    {
        let DocumentSer { content, warc_headers, metadata } = ser;
        let meta = match Metadata::from_ser(metadata) {
            Ok(m) => m,
            Err(e) => {
                return Err(e);
            },
        };
        let mut hdrs_in = warc_headers;
        let ghost orig = hdrs_in.deep_view();
        let mut entries: Vec<(HeaderName, Vec<u8>)> = Vec::new();
        while hdrs_in.len() > 0
            invariant
                entries@.len() + hdrs_in@.len() == orig.len(),
                hdrs_in.deep_view() == orig.skip(entries@.len() as int),
                forall|j: int|
                    0 <= j < entries@.len() ==> entries@[j].deep_view() == (
                        orig[j].0,
                        encode_utf8(orig[j].1),
                    ),
            decreases hdrs_in@.len(),
        {
            let ghost k = entries@.len() as int;
            let ghost before = hdrs_in.deep_view();
            let (name, text) = hdrs_in.remove(0);
            proof {
                assert(before[0] == (name@, text@));
                assert(before[0] == orig[k]);
                assert(hdrs_in.deep_view() =~= before.skip(1));
                assert(before.skip(1) =~= orig.skip(k + 1));
            }
            let bytes = utf8_encode(text.as_str());
            entries.push((HeaderName::parse_name(name), bytes));
        }
        proof {
            assert(entries.deep_view() =~= headers_from_ser(orig));
        }
        Ok(Document {
            content,
            warc_headers: WarcHeaders::from_entries(entries),
            metadata: meta,
        })
    }
}

/// Whether every label held in a metadata is a well-formed language tag;
/// true of every metadata the library builds, since labels are validated at
/// construction.
pub open spec fn metadata_labels_ok(m: MetadataView) -> bool {
    &&& is_valid_lang_tag(m.identification.label)
    &&& forall|i: int|
        0 <= i < m.sentence_identifications.len() ==> match #[trigger] m.sentence_identifications[i] {
            Some(x) => is_valid_lang_tag(x.label),
            None => true,
        }
}

/// Law: adding the category `x` and then the category `y` to a metadata
/// without categories yields exactly the categories [`x`, `y`], in that
/// order; replacing the categories with "none" afterwards clears them.
pub proof fn lemma_category_ops(m: MetadataView, x: Seq<char>, y: Seq<char>)
    requires
        m.categories is None,
    ensures
        with_category(with_category(m, x), y).categories == Some(seq![x, y]),
        with_categories(with_category(with_category(m, x), y), None).categories is None,
{
    assert(appended(Some(seq![x]), y) =~= seq![x, y]);
}

/// Law: a metadata whose labels are all well-formed survives the round trip
/// to the durable form and back unchanged.
pub proof fn lemma_metadata_round_trip(m: MetadataView)
    requires
        metadata_labels_ok(m),
    ensures
        meta_from_ser(meta_to_ser(m)) == Some(m),
{
    let s = meta_to_ser(m);
    assert forall|i: int| 0 <= i < s.sentence_identifications.len() implies ident_opt_valid(
        #[trigger] s.sentence_identifications[i],
    ) by {
        assert(s.sentence_identifications[i] == ident_opt_to_ser(m.sentence_identifications[i]));
    }
    assert(meta_labels_valid(s));
    let m2 = meta_from_ser(s).unwrap();
    assert forall|i: int| 0 <= i < m2.sentence_identifications.len() implies #[trigger] m2.sentence_identifications[i]
        == m.sentence_identifications[i] by {
        assert(s.sentence_identifications[i] == ident_opt_to_ser(m.sentence_identifications[i]));
        assert(m2.sentence_identifications[i] == ident_opt_parsed(s.sentence_identifications[i]));
    }
    assert(m2.sentence_identifications =~= m.sentence_identifications);
    assert(m2 =~= m);
}

/// Law: a document whose header byte values are undamaged by decoding and
/// whose metadata labels are all well-formed survives the round trip to the
/// durable form and back unchanged. Header values that are not valid text
/// are repaired by the lossy decoding, so for them the round trip is not
/// bit-exact: a documented limitation of the durable form.
pub proof fn lemma_document_round_trip(d: DocumentView)
    requires
        forall|i: int| 0 <= i < d.warc_headers.len() ==> valid_text(#[trigger] d.warc_headers[i].1),
        metadata_labels_ok(d.metadata),
    ensures
        doc_from_ser(doc_to_ser(d)) == Some(d),
{
    lemma_metadata_round_trip(d.metadata);
    let s = doc_to_ser(d);
    let h2 = headers_from_ser(s.warc_headers);
    assert forall|i: int| 0 <= i < h2.len() implies #[trigger] h2[i] == d.warc_headers[i] by {
        assert(s.warc_headers[i] == (d.warc_headers[i].0, lossy_decode(d.warc_headers[i].1)));
        assert(valid_text(d.warc_headers[i].1));
    }
    assert(h2 =~= d.warc_headers);
    let d2 = doc_from_ser(s).unwrap();
    assert(d2 =~= d);
}

} // verus!
