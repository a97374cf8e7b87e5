//! Language identifications: a validated (language tag, confidence) pair.

use vstd::prelude::*;

verus! {

use crate::error::Error;
use crate::lang::{is_valid_lang_tag, LangTag};

/// The IEEE 754 bit pattern of the 32-bit confidence score 1.0.
pub const PROB_CERTAIN: u32 = 0x3F80_0000;

/// Mathematical model of an [`Identification`]: the tag's text and the raw
/// bit pattern of its 32-bit confidence score.
pub ghost struct IdentificationView {
    pub label: Seq<char>,
    pub prob: u32,
}

/// Mathematical model of an [`IdentificationSer`].
pub ghost struct IdentificationSerView {
    pub label: Seq<char>,
    pub prob: u32,
}

/// Rendering an identification for the durable form: the label becomes its
/// plain textual rendering, the score is kept as it is.
pub open spec fn ident_to_ser(i: IdentificationView) -> IdentificationSerView {
    IdentificationSerView { label: i.label, prob: i.prob }
}

/// Parsing an identification back from the durable form: succeeds exactly
/// when the label is a well-formed language tag.
pub open spec fn ident_from_ser(s: IdentificationSerView) -> Option<IdentificationView> {
    if is_valid_lang_tag(s.label) {
        Some(IdentificationView { label: s.label, prob: s.prob })
    } else {
        None
    }
}

/// A validated (language tag, confidence) pair, as produced by an external
/// language classifier. `prob` is the IEEE 754 bit pattern of the 32-bit
/// confidence score, semantically in [0.0, 1.0] (not enforced by the type).
#[derive(Debug, PartialEq)]
pub struct Identification {
    label: LangTag,
    prob: u32,
}

impl View for Identification {
    type V = IdentificationView;

    closed spec fn view(&self) -> IdentificationView {
        IdentificationView { label: self.label@, prob: self.prob }
    }
}

impl DeepView for Identification {
    type V = IdentificationView;

    open spec fn deep_view(&self) -> IdentificationView {
        self@
    }
}

impl Clone for Identification {
    fn clone(&self) -> (r: Self)
        ensures
            r@ == self@,
    {
        Identification { label: self.label.clone(), prob: self.prob }
    }
}

impl Identification {
    pub fn new(label: LangTag, prob: u32) -> (r: Self)
        ensures
            r@ == (IdentificationView { label: label@, prob }),
            is_valid_lang_tag(label@),
    {
        proof {
            use_type_invariant(&label);
        }
        Identification { label, prob }
    }

    /// Get a reference to the identification's label.
    pub fn label(&self) -> (r: &LangTag)
        ensures
            r@ == self@.label,
            is_valid_lang_tag(self@.label),
    {
        proof {
            use_type_invariant(&self.label);
        }
        &self.label
    }

    /// Get the identification's confidence score, as its bit pattern.
    pub fn prob(&self) -> (r: u32)
        ensures
            r == self@.prob,
    {
        self.prob
    }

    /// Render for the durable form.
    pub fn into_ser(self) -> (r: IdentificationSer)
        ensures
            r@ == ident_to_ser(self@),
            is_valid_lang_tag(r@.label),
    {
        IdentificationSer { label: self.label.into_string(), prob: self.prob }
    }

    /// Parse from the durable form; an invalid label is a validation error,
    /// never a default substitution.
    pub fn from_ser(ser: IdentificationSer) -> (r: Result<Identification, Error>)
        ensures
            r is Ok <==> ident_from_ser(ser@) is Some,
            r matches Ok(i) ==> ident_from_ser(ser@) == Some(i@),
            r matches Err(e) ==> e == Error::UnknownLang(ser.label),
    {
        let IdentificationSer { label, prob } = ser;
        match LangTag::parse(label) {
            Ok(tag) => Ok(Identification { label: tag, prob }),
            Err(e) => Err(e),
        }
    }
}

/// The durable shape of an identification: a plain tag string and the score.
#[derive(Debug, PartialEq)]
pub struct IdentificationSer {
    pub label: String,
    pub prob: u32,
}

impl View for IdentificationSer {
    type V = IdentificationSerView;

    open spec fn view(&self) -> IdentificationSerView {
        IdentificationSerView { label: self.label@, prob: self.prob }
    }
}

impl DeepView for IdentificationSer {
    type V = IdentificationSerView;

    open spec fn deep_view(&self) -> IdentificationSerView {
        self@
    }
}

/// Law: rendering an identification with a well-formed label for the durable
/// form and parsing it back gives the identification again.
pub proof fn lemma_identification_round_trip(i: IdentificationView)
    requires
        is_valid_lang_tag(i.label),
    ensures
        ident_from_ser(ident_to_ser(i)) == Some(i),
{
}

/// Law: a durable identification whose label is not a well-formed language
/// tag is rejected, never stored.
pub proof fn lemma_invalid_label_rejected(s: IdentificationSerView)
    requires
        !is_valid_lang_tag(s.label),
    ensures
        ident_from_ser(s) is None,
{
}

} // verus!
