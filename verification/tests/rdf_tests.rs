//! Tests for the RDF wrappers, symbols, and the small data-model types.

use lv2se::bundle_model::project::ProjectInfo;
use lv2se::bundle_model::symbol::Symbol;
use lv2se::bundle_model::unknowns::{UnknownHostFeature, UnknownPluginType, UnknownUnit};
use lv2se::bundle_model::{IdentifiedBy, OptionallyIdentifiedBy, ResourceVersion};
use lv2se::rdf_util::{
    lang_tagged_literal_data_type, non_lang_tagged_literal_default_data_type, Iri, LangTag, Literal,
};

#[test]
fn basic_test() {
    assert_eq!(1i32, 1i32);
}

#[test]
fn valid_iris_are_accepted() {
    let iri = Iri::new("http://lv2plug.in/ns/lv2core#Plugin".to_string()).unwrap();
    assert_eq!(iri.as_str(), "http://lv2plug.in/ns/lv2core#Plugin");
    // Relative IRI references are accepted too.
    assert!(Iri::new("relative/path#frag".to_string()).is_ok());
}

#[test]
fn invalid_iris_are_rejected() {
    let err = Iri::new("not a valid iri".to_string()).unwrap_err();
    assert_eq!(err.attempted_iri, "not a valid iri");
    assert!(Iri::new("http://example.org/<bad>".to_string()).is_err());
}

#[test]
fn language_tags_are_canonicalized() {
    let tag = LangTag::new("en-us".to_string()).unwrap();
    assert_eq!(tag.as_str(), "en-US");
    let tag = LangTag::new("EN".to_string()).unwrap();
    assert_eq!(tag.as_str(), "en");
    // Suppress-Script: the default script of a language is removed.
    let tag = LangTag::new("en-Latn".to_string()).unwrap();
    assert_eq!(tag.as_str(), "en");
}

#[test]
fn invalid_language_tags_are_rejected() {
    let err = LangTag::new("not a tag".to_string()).unwrap_err();
    assert_eq!(err.attempted_tag, "not a tag");
    assert!(LangTag::new("".to_string()).is_err());
}

#[test]
fn literal_constructors_set_data_types() {
    let plain = Literal::new("hello".to_string());
    assert_eq!(plain.value(), "hello");
    assert_eq!(plain.data_type().as_str(), "http://www.w3.org/2001/XMLSchema#string");
    assert!(plain.lang_tag().is_none());

    let tag = LangTag::new("de".to_string()).unwrap();
    let tagged = Literal::with_lang_tag("hallo".to_string(), tag.clone());
    assert_eq!(tagged.value(), "hallo");
    assert_eq!(
        tagged.data_type().as_str(),
        "http://www.w3.org/1999/02/22-rdf-syntax-ns#langString"
    );
    assert_eq!(tagged.lang_tag().unwrap().as_str(), "de");
}

#[test]
fn literal_with_data_type_rejects_the_lang_string_type() {
    let lang_type = lang_tagged_literal_data_type();
    assert!(Literal::with_data_type("x".to_string(), lang_type).is_none());

    let int_type = Iri::new("http://www.w3.org/2001/XMLSchema#integer".to_string()).unwrap();
    let lit = Literal::with_data_type("42".to_string(), int_type).unwrap();
    assert_eq!(lit.value(), "42");
    assert_eq!(lit.data_type().as_str(), "http://www.w3.org/2001/XMLSchema#integer");
    assert!(lit.lang_tag().is_none());

    let default_type = non_lang_tagged_literal_default_data_type();
    assert!(Literal::with_data_type("y".to_string(), default_type).is_some());
}

#[test]
fn symbols_follow_the_lv2_syntax() {
    let sym = Symbol::new("gain_1".to_string()).unwrap();
    assert_eq!(sym.string(), "gain_1");
    assert!(Symbol::new("_leading_underscore".to_string()).is_ok());
    assert!(Symbol::new("UPPER".to_string()).is_ok());
    assert!(Symbol::new("1starts_with_digit".to_string()).is_err());
    assert!(Symbol::new("".to_string()).is_err());
    assert!(Symbol::new("has-dash".to_string()).is_err());
    assert!(Symbol::new("has space".to_string()).is_err());
}

#[test]
fn resource_version_flags() {
    let pre = ResourceVersion::new(0, 2);
    assert!(pre.is_pre_release());
    assert!(!pre.is_dev_release());
    assert_eq!(pre.minor_version(), 0);
    assert_eq!(pre.micro_version(), 2);

    let dev = ResourceVersion::new(1, 0);
    assert!(!dev.is_pre_release());
    assert!(dev.is_dev_release());

    let dev_micro = ResourceVersion::new(2, 3);
    assert!(dev_micro.is_dev_release());

    let stable = ResourceVersion::new(2, 2);
    assert!(!stable.is_pre_release());
    assert!(!stable.is_dev_release());
}

#[test]
fn unknown_vocabulary_keeps_its_identifiers() {
    let iri = Iri::new("http://example.org/ext#Weird".to_string()).unwrap();
    let unknown = UnknownPluginType::new(iri);
    let id: &Iri = unknown.id();
    assert_eq!(id.as_str(), "http://example.org/ext#Weird");

    let iri = Iri::new("http://example.org/feat".to_string()).unwrap();
    let feat = UnknownHostFeature::new(iri);
    assert_eq!(feat.id().as_str(), "http://example.org/feat");
}

#[test]
fn unknown_unit_identifiers() {
    let iri = Iri::new("http://example.org/unit#furlong".to_string()).unwrap();
    let sym = Symbol::new("furlong".to_string()).unwrap();
    let label = Literal::new("Furlong".to_string());
    let unit = UnknownUnit::new(
        Some(iri),
        vec![label],
        Some(sym),
        Some("%f fur".to_string()),
    );
    let id: Option<&Iri> = OptionallyIdentifiedBy::<Iri>::id(&unit);
    assert_eq!(id.unwrap().as_str(), "http://example.org/unit#furlong");
    let sym_id: Option<&Symbol> = OptionallyIdentifiedBy::<Symbol>::id(&unit);
    assert_eq!(sym_id.unwrap().string(), "furlong");
    assert_eq!(unit.labels().len(), 1);
    assert_eq!(unit.labels()[0].value(), "Furlong");
    assert_eq!(unit.render_str().unwrap(), "%f fur");
}

#[test]
fn project_info_identifiers() {
    let iri = Iri::new("http://example.org/project".to_string()).unwrap();
    let sym = Symbol::new("my_project".to_string()).unwrap();
    let name = Literal::new("My Project".to_string());
    let project = ProjectInfo::new(Some(iri), Some(sym), vec![name], vec![]);
    let id: Option<&Iri> = OptionallyIdentifiedBy::<Iri>::id(&project);
    assert_eq!(id.unwrap().as_str(), "http://example.org/project");
    let sym_id: Option<&Symbol> = OptionallyIdentifiedBy::<Symbol>::id(&project);
    assert_eq!(sym_id.unwrap().string(), "my_project");
    assert_eq!(project.names().len(), 1);
    assert_eq!(project.names()[0].value(), "My Project");
    assert!(project.short_names().is_empty());
}
