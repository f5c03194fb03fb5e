//! Ready-to-use identifiers of the base RDF vocabulary.
use vstd::prelude::*;
use vstd::string::*;
use crate::model::NamedNodeBuf;

verus! {

/// The class of containers of alternatives.
pub fn alt() -> (r: NamedNodeBuf)
    ensures
        r@ == "http://www.w3.org/1999/02/22-rdf-syntax-ns#Alt"@,
{
    NamedNodeBuf::new_unchecked(String::from_str("http://www.w3.org/1999/02/22-rdf-syntax-ns#Alt"))
}

/// The class of unordered containers.
pub fn bag() -> (r: NamedNodeBuf)
    ensures
        r@ == "http://www.w3.org/1999/02/22-rdf-syntax-ns#Bag"@,
{
    NamedNodeBuf::new_unchecked(String::from_str("http://www.w3.org/1999/02/22-rdf-syntax-ns#Bag"))
}

/// The first item in the subject RDF list.
pub fn first() -> (r: NamedNodeBuf)
    ensures
        r@ == "http://www.w3.org/1999/02/22-rdf-syntax-ns#first"@,
{
    NamedNodeBuf::new_unchecked(String::from_str("http://www.w3.org/1999/02/22-rdf-syntax-ns#first"))
}

/// The class of HTML literal values.
pub fn html() -> (r: NamedNodeBuf)
    ensures
        r@ == "http://www.w3.org/1999/02/22-rdf-syntax-ns#HTML"@,
{
    NamedNodeBuf::new_unchecked(String::from_str("http://www.w3.org/1999/02/22-rdf-syntax-ns#HTML"))
}

/// The class of language-tagged string literal values.
pub fn lang_string() -> (r: NamedNodeBuf)
    ensures
        r@ == "http://www.w3.org/1999/02/22-rdf-syntax-ns#langString"@,
{
    NamedNodeBuf::new_unchecked(String::from_str("http://www.w3.org/1999/02/22-rdf-syntax-ns#langString"))
}

/// The class of RDF Lists.
pub fn list() -> (r: NamedNodeBuf)
    ensures
        r@ == "http://www.w3.org/1999/02/22-rdf-syntax-ns#List"@,
{
    NamedNodeBuf::new_unchecked(String::from_str("http://www.w3.org/1999/02/22-rdf-syntax-ns#List"))
}

/// The empty RDF list.
pub fn nil() -> (r: NamedNodeBuf)
    ensures
        r@ == "http://www.w3.org/1999/02/22-rdf-syntax-ns#nil"@,
{
    NamedNodeBuf::new_unchecked(String::from_str("http://www.w3.org/1999/02/22-rdf-syntax-ns#nil"))
}

/// The object of the subject RDF statement.
pub fn object() -> (r: NamedNodeBuf)
    ensures
        r@ == "http://www.w3.org/1999/02/22-rdf-syntax-ns#object"@,
{
    NamedNodeBuf::new_unchecked(String::from_str("http://www.w3.org/1999/02/22-rdf-syntax-ns#object"))
}

/// The predicate of the subject RDF statement.
pub fn predicate() -> (r: NamedNodeBuf)
    ensures
        r@ == "http://www.w3.org/1999/02/22-rdf-syntax-ns#predicate"@,
{
    NamedNodeBuf::new_unchecked(String::from_str("http://www.w3.org/1999/02/22-rdf-syntax-ns#predicate"))
}

/// The class of RDF properties.
pub fn property() -> (r: NamedNodeBuf)
    ensures
        r@ == "http://www.w3.org/1999/02/22-rdf-syntax-ns#Property"@,
{
    NamedNodeBuf::new_unchecked(String::from_str("http://www.w3.org/1999/02/22-rdf-syntax-ns#Property"))
}

/// The rest of the subject RDF list after the first item.
pub fn rest() -> (r: NamedNodeBuf)
    ensures
        r@ == "http://www.w3.org/1999/02/22-rdf-syntax-ns#rest"@,
{
    NamedNodeBuf::new_unchecked(String::from_str("http://www.w3.org/1999/02/22-rdf-syntax-ns#rest"))
}

/// The class of ordered containers.
pub fn seq_() -> (r: NamedNodeBuf)
    ensures
        r@ == "http://www.w3.org/1999/02/22-rdf-syntax-ns#Seq"@,
{
    NamedNodeBuf::new_unchecked(String::from_str("http://www.w3.org/1999/02/22-rdf-syntax-ns#Seq"))
}

/// The class of RDF statements.
pub fn statement() -> (r: NamedNodeBuf)
    ensures
        r@ == "http://www.w3.org/1999/02/22-rdf-syntax-ns#Statement"@,
{
    NamedNodeBuf::new_unchecked(String::from_str("http://www.w3.org/1999/02/22-rdf-syntax-ns#Statement"))
}

/// The subject of the subject RDF statement.
pub fn subject() -> (r: NamedNodeBuf)
    ensures
        r@ == "http://www.w3.org/1999/02/22-rdf-syntax-ns#subject"@,
{
    NamedNodeBuf::new_unchecked(String::from_str("http://www.w3.org/1999/02/22-rdf-syntax-ns#subject"))
}

/// The subject is an instance of a class.
pub fn type_() -> (r: NamedNodeBuf)
    ensures
        r@ == "http://www.w3.org/1999/02/22-rdf-syntax-ns#type"@,
{
    NamedNodeBuf::new_unchecked(String::from_str("http://www.w3.org/1999/02/22-rdf-syntax-ns#type"))
}

/// Idiomatic property used for structured values.
pub fn value() -> (r: NamedNodeBuf)
    ensures
        r@ == "http://www.w3.org/1999/02/22-rdf-syntax-ns#value"@,
{
    NamedNodeBuf::new_unchecked(String::from_str("http://www.w3.org/1999/02/22-rdf-syntax-ns#value"))
}

/// The class of XML literal values.
pub fn xml_literal() -> (r: NamedNodeBuf)
    ensures
        r@ == "http://www.w3.org/1999/02/22-rdf-syntax-ns#XMLLiteral"@,
{
    NamedNodeBuf::new_unchecked(String::from_str("http://www.w3.org/1999/02/22-rdf-syntax-ns#XMLLiteral"))
}

} // verus!
