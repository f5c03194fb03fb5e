use oxiwiki::model::{NamedNode, NamedNodeBuf};

#[test]
fn parse_valid_absolute_iri() {
    let node = NamedNode::parse("http://example.com/foo").unwrap();
    assert_eq!(node.as_str(), "http://example.com/foo");
}

#[test]
fn parse_keeps_text_and_displays_in_angle_brackets() {
    let node = NamedNode::parse("http://example.com/foo").unwrap();
    assert_eq!(node.to_display_string(), "<http://example.com/foo>");
    let owned = NamedNodeBuf::parse(String::from("http://example.com/foo")).unwrap();
    assert_eq!(owned.to_display_string(), "<http://example.com/foo>");
}

#[test]
fn parse_rejects_relative_reference() {
    assert!(NamedNode::parse("foo").is_err());
    assert!(NamedNodeBuf::parse(String::from("//example.com")).is_err());
}

#[test]
fn parse_rejects_malformed_iri() {
    let err = NamedNode::parse("http://[").unwrap_err();
    assert!(!err.message().is_empty());
}

#[test]
fn unchecked_construction_keeps_text() {
    let node = NamedNode::new_unchecked("http://example.com/a");
    assert_eq!(node.as_str(), "http://example.com/a");
    let owned = NamedNodeBuf::new_unchecked(String::from("http://example.com/a"));
    assert_eq!(owned.as_str(), "http://example.com/a");
    assert_eq!(owned.into_string(), "http://example.com/a");
}

#[test]
fn equality_across_borrowed_and_owned_forms() {
    let borrowed = NamedNode::parse("http://example.com/foo").unwrap();
    let owned = NamedNodeBuf::parse(String::from("http://example.com/foo")).unwrap();
    assert!(owned.same_as(&borrowed));
    assert!(borrowed.same_as(&owned.as_named_node()));
    assert!(borrowed.to_buf() == owned);
    assert!(owned == borrowed.to_buf());
    let other = NamedNodeBuf::parse(String::from("http://example.com/bar")).unwrap();
    assert!(other != owned);
    assert!(!other.same_as(&borrowed));
}

#[test]
fn owned_and_borrowed_interconvert_without_change() {
    let owned = NamedNodeBuf::parse(String::from("http://example.com/x")).unwrap();
    let borrowed = owned.as_named_node();
    assert_eq!(borrowed.as_str(), "http://example.com/x");
    let copied = borrowed.to_buf();
    assert_eq!(copied.as_str(), "http://example.com/x");
}

#[test]
fn vocabulary_constants_hold_their_iris() {
    assert_eq!(
        oxiwiki::vocab::rdf::type_().as_str(),
        "http://www.w3.org/1999/02/22-rdf-syntax-ns#type"
    );
    assert_eq!(
        oxiwiki::vocab::rdf::lang_string().as_str(),
        "http://www.w3.org/1999/02/22-rdf-syntax-ns#langString"
    );
    assert_eq!(
        oxiwiki::vocab::rdfs::sub_class_of().as_str(),
        "http://www.w3.org/2000/01/rdf-schema#subClassOf"
    );
    assert_eq!(
        oxiwiki::vocab::xsd::integer().as_str(),
        "http://www.w3.org/2001/XMLSchema#integer"
    );
}

#[test]
fn vocabulary_constants_parse_as_valid_iris() {
    assert!(NamedNodeBuf::parse(oxiwiki::vocab::rdf::value().into_string()).is_ok());
    assert!(NamedNodeBuf::parse(oxiwiki::vocab::xsd::string().into_string()).is_ok());
}
