//! Utilities related to RDF: IRIs, language tags, and literals.

use vstd::prelude::*;

verus! {

/// Validity of an IRI reference under RFC 3987, as decided by the `sophia`
/// crate's grammar: a name for the outcome of its check, which depends on the
/// characters of the string alone.
pub uninterp spec fn iri_ref_valid(s: Seq<char>) -> bool;

/// Relies on sophia::term::iri::is_valid_iri_ref: tests a string against the
/// RFC 3987 IRI-reference grammar (absolute or relative); the outcome depends
/// on the characters alone.
#[verifier::external_body]
fn check_iri(s: &str) -> (r: bool)
    ensures
        r == iri_ref_valid(s@),
{
    sophia::term::iri::is_valid_iri_ref(s)
}

/// The canonical form that the `language_tags` crate gives to a tag, or
/// `None` where it rejects the tag: a name for the outcome of parsing
/// followed by canonicalization, which depends on the characters alone.
pub uninterp spec fn lang_tag_canonical(s: Seq<char>) -> Option<Seq<char>>;

/// Relies on language_tags::LanguageTag::parse and
/// language_tags::LanguageTag::canonicalize: both are driven by the input
/// characters and the registry tables compiled into the crate, so the
/// outcome depends on the characters alone.
#[verifier::external_body]
fn canonicalize_lang_tag(s: &str) -> (r: Option<String>)
    ensures
        r is Some <==> lang_tag_canonical(s@) is Some,
        r matches Some(c) ==> lang_tag_canonical(s@) == Some(c@),
{
    match language_tags::LanguageTag::parse(s) {
        Ok(tag) => match tag.canonicalize() {
            Ok(canon) => Some(canon.to_string()),
            Err(_) => None,
        },
        Err(_) => None,
    }
}

/// Error type returned when trying to parse an invalid IRI.
#[derive(Debug, Clone, PartialEq, Eq, Hash)]
pub struct InvalidIriError {
    /// The invalid IRI string that we tried to parse.
    pub attempted_iri: String,
}

/// Error type returned when trying to parse an invalid language tag.
#[derive(Debug, Clone, PartialEq, Eq, Hash)]
pub struct InvalidLangTagError {
    /// The invalid tag string that we tried to parse.
    pub attempted_tag: String,
}

/// Represents an IRI.  Two IRIs are treated as different whenever their text
/// is different.
#[derive(Debug, Clone, PartialEq, Eq, Hash)]
pub struct Iri {
    /// The constructor guarantees this is a valid IRI reference.
    iri: String,
}

impl View for Iri {
    type V = Seq<char>;

    closed spec fn view(&self) -> Seq<char> {
        self.iri@
    }
}

impl Iri {
    /// True if the held text is a valid IRI reference.
    pub open spec fn wf(self) -> bool {
        iri_ref_valid(self@)
    }

    /// Constructs an IRI from the given string.  Returns an error exactly
    /// when the string is not a valid IRI reference.
    pub fn new(iri: String) -> (r: Result<Self, InvalidIriError>)
        ensures
            r is Ok <==> iri_ref_valid(iri@),
            r matches Ok(v) ==> v@ == iri@ && v.wf(),
            r matches Err(e) ==> e.attempted_iri@ == iri@,
    {
        if check_iri(iri.as_str()) {
            Ok(Iri { iri })
        } else {
            Err(InvalidIriError { attempted_iri: iri })
        }
    }

    /// The raw IRI text.
    pub fn as_str(&self) -> (r: &str)
        ensures
            r@ == self@,
    {
        self.iri.as_str()
    }
}

/// Represents a language tag for an RDF literal.  The constructor
/// canonicalizes, so all semantically equivalent language tags hold the same
/// string.
#[derive(Debug, Clone, PartialEq, Eq, Hash)]
pub struct LangTag {
    /// The constructor guarantees this is the canonical form of a valid
    /// language tag.
    tag: String,
}

impl View for LangTag {
    type V = Seq<char>;

    closed spec fn view(&self) -> Seq<char> {
        self.tag@
    }
}

impl LangTag {
    /// Constructs a language tag from the given string, in canonical form.
    /// Returns an error exactly when the string is not a language tag that
    /// can be canonicalized.
    pub fn new(tag: String) -> (r: Result<Self, InvalidLangTagError>)
        ensures
            r is Ok <==> lang_tag_canonical(tag@) is Some,
            r matches Ok(t) ==> Some(t@) == lang_tag_canonical(tag@),
            r matches Err(e) ==> e.attempted_tag@ == tag@,
    {
        match canonicalize_lang_tag(tag.as_str()) {
            Some(canon) => Ok(LangTag { tag: canon }),
            None => Err(InvalidLangTagError { attempted_tag: tag }),
        }
    }

    /// The canonicalized tag text.
    pub fn as_str(&self) -> (r: &str)
        ensures
            r@ == self@,
    {
        self.tag.as_str()
    }
}

/// The text of the data type IRI that applies to all language-tagged RDF
/// literals.
pub open spec fn lang_tagged_iri_chars() -> Seq<char> {
    "http://www.w3.org/1999/02/22-rdf-syntax-ns#langString"@
}

/// The text of the default data type IRI for non-language-tagged RDF
/// literals.
pub open spec fn default_literal_iri_chars() -> Seq<char> {
    "http://www.w3.org/2001/XMLSchema#string"@
}

/// Generates the data type IRI that automatically applies to all
/// language-tagged RDF literals.
pub fn lang_tagged_literal_data_type() -> (r: Iri)
    ensures
        r@ == lang_tagged_iri_chars(),
{
    let text = "http://www.w3.org/1999/02/22-rdf-syntax-ns#langString";
    let iri = text.to_string();
    proof {
        vstd::string::to_string_from_display_ensures_for_str(text, iri);
    }
    Iri { iri }
}

/// Generates the default data type IRI for non-language-tagged RDF literals.
pub fn non_lang_tagged_literal_default_data_type() -> (r: Iri)
    ensures
        r@ == default_literal_iri_chars(),
{
    let text = "http://www.w3.org/2001/XMLSchema#string";
    let iri = text.to_string();
    proof {
        vstd::string::to_string_from_display_ensures_for_str(text, iri);
    }
    Iri { iri }
}

/// Represents an RDF literal.  Equality does not take any data-type-specific
/// equivalence into account: literals with values "0" and "0.0" differ even
/// under a numeric data type.
#[derive(Debug, Clone, PartialEq, Eq, Hash)]
pub struct Literal {
    /// Literal value text.
    value: String,
    /// IRI identifying the data type.  It is the language-tagged data type
    /// IRI if and only if a language tag is present.
    data_type: Iri,
    /// Optional language tag.
    lang_tag: Option<LangTag>,
}

impl Literal {
    /// The literal's text.
    pub closed spec fn spec_value(self) -> Seq<char> {
        self.value@
    }

    /// The literal's data type IRI text.
    pub closed spec fn spec_data_type(self) -> Seq<char> {
        self.data_type@
    }

    /// The literal's language tag, if any.
    pub closed spec fn spec_lang_tag(self) -> Option<LangTag> {
        self.lang_tag
    }

    /// A language tag is present exactly when the data type is the
    /// language-tagged literal data type.
    pub open spec fn wf(self) -> bool {
        self.spec_lang_tag() is Some <==> self.spec_data_type() == lang_tagged_iri_chars()
    }

    /// Constructs a literal with the given text value, no language tag, and
    /// the default data type for non-language-tagged literals.
    pub fn new(value: String) -> (r: Self)
        ensures
            r.spec_value() == value@,
            r.spec_data_type() == default_literal_iri_chars(),
            r.spec_lang_tag() is None,
            r.wf(),
    {
        proof {
            reveal_strlit("http://www.w3.org/1999/02/22-rdf-syntax-ns#langString");
            reveal_strlit("http://www.w3.org/2001/XMLSchema#string");
            assert(default_literal_iri_chars().len() != lang_tagged_iri_chars().len());
        }
        Literal { value, data_type: non_lang_tagged_literal_default_data_type(), lang_tag: None }
    }

    /// Constructs a literal with the given text value and language tag.  The
    /// data type is the type required for language-tagged literals.
    pub fn with_lang_tag(value: String, lang_tag: LangTag) -> (r: Self)
        ensures
            r.spec_value() == value@,
            r.spec_data_type() == lang_tagged_iri_chars(),
            r.spec_lang_tag() == Some(lang_tag),
            r.wf(),
    {
        Literal { value, data_type: lang_tagged_literal_data_type(), lang_tag: Some(lang_tag) }
    }

    /// Constructs a literal with the given text value, no language tag, and
    /// the given data type.  Returns `None` exactly when the provided data
    /// type requires a language tag.
    pub fn with_data_type(value: String, data_type: Iri) -> (r: Option<Self>)
        ensures
            r is Some <==> data_type@ != lang_tagged_iri_chars(),
            r matches Some(l) ==> l.spec_value() == value@ && l.spec_data_type() == data_type@
                && l.spec_lang_tag() is None && l.wf(),
    {
        let lang_type = lang_tagged_literal_data_type();
        if data_type.iri == lang_type.iri {
            None
        } else {
            Some(Literal { value, data_type, lang_tag: None })
        }
    }

    /// The literal's text.
    pub fn value(&self) -> (r: &str)
        ensures
            r@ == self.spec_value(),
    {
        self.value.as_str()
    }

    /// The literal's data type IRI.
    pub fn data_type(&self) -> (r: &Iri)
        ensures
            r@ == self.spec_data_type(),
    {
        &self.data_type
    }

    /// The literal's language tag, if any.
    pub fn lang_tag(&self) -> (r: Option<&LangTag>)
        ensures
            r matches Some(t) ==> self.spec_lang_tag() == Some(*t),
            r is Some == self.spec_lang_tag() is Some,
    {
        self.lang_tag.as_ref()
    }
}

} // verus!
