//! Validated language tags.
//!
//! A [`LangTag`] holds the textual rendering of a syntactically valid
//! language tag; validity is decided by the `oxilangtag` parser and recorded
//! as a type invariant, so no unvalidated tag can exist in memory.

use vstd::prelude::*;

verus! {

use crate::error::Error;

/// Whether `s` is a well-formed language tag, exactly as decided by
/// `oxilangtag::LanguageTag::parse`.
pub uninterp spec fn is_valid_lang_tag(s: Seq<char>) -> bool;

/// Relies on `oxilangtag::LanguageTag::parse`: it accepts or rejects a tag by
/// the characters of `s` alone (a well-formedness grammar), and it accepts
/// the plain two-letter primary-subtag tag "en".
#[verifier::external_body]
fn tag_is_valid(s: &str) -> (r: bool)
    ensures
        r == is_valid_lang_tag(s@),
        s@ == "en"@ ==> r,
{
    oxilangtag::LanguageTag::parse(s).is_ok()
}

/// A syntactically valid language tag, kept as its textual rendering.
#[derive(Debug, PartialEq, Eq)]
pub struct LangTag {
    pub(crate) tag: String,
}

impl View for LangTag {
    type V = Seq<char>;

    open(crate) spec fn view(&self) -> Seq<char> {
        self.tag@
    }
}

impl DeepView for LangTag {
    type V = Seq<char>;

    open spec fn deep_view(&self) -> Seq<char> {
        self@
    }
}

impl Clone for LangTag {
    fn clone(&self) -> (r: Self)
        ensures
            r@ == self@,
    {
        proof {
            use_type_invariant(self);
        }
        LangTag { tag: self.tag.clone() }
    }
}

impl LangTag {
    #[verifier::type_invariant]
    pub(crate) open spec fn inv(self) -> bool {
        is_valid_lang_tag(self.tag@)
    }

    /// Parse a textual tag; succeeds exactly on well-formed language tags and
    /// surfaces a validation error on every other string.
    pub fn parse(tag: String) -> (r: Result<LangTag, Error>)
        ensures
            r is Ok <==> is_valid_lang_tag(tag@),
            r matches Ok(t) ==> t@ == tag@,
            r matches Err(e) ==> e == Error::UnknownLang(tag),
    {
        if tag_is_valid(tag.as_str()) {
            Ok(LangTag { tag })
        } else {
            Err(Error::UnknownLang(tag))
        }
    }

    /// The tag's textual rendering.
    pub fn as_str(&self) -> (r: &str)
        ensures
            r@ == self@,
            is_valid_lang_tag(self@),
    {
        proof {
            use_type_invariant(self);
        }
        self.tag.as_str()
    }

    /// Give up the tag and hand back its textual rendering.
    pub fn into_string(self) -> (r: String)
        ensures
            r@ == self@,
            is_valid_lang_tag(self@),
    {
        proof {
            use_type_invariant(&self);
        }
        self.tag
    }

    /// The fixed English tag "en".
    pub fn english() -> (r: LangTag)
        ensures
            r@ == "en"@,
    {
        let ok = tag_is_valid("en");
        if ok {
            LangTag { tag: "en".to_owned() }
        } else {
            vstd::pervasive::unreached()
        }
    }
}

} // verus!
