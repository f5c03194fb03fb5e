//! Ready-to-use identifiers of the RDF Schema vocabulary.
use vstd::prelude::*;
use vstd::string::*;
use crate::model::NamedNodeBuf;

verus! {

/// The class of classes.
pub fn class() -> (r: NamedNodeBuf)
    ensures
        r@ == "http://www.w3.org/2000/01/rdf-schema#Class"@,
{
    NamedNodeBuf::new_unchecked(String::from_str("http://www.w3.org/2000/01/rdf-schema#Class"))
}

/// A description of the subject resource.
pub fn comment() -> (r: NamedNodeBuf)
    ensures
        r@ == "http://www.w3.org/2000/01/rdf-schema#comment"@,
{
    NamedNodeBuf::new_unchecked(String::from_str("http://www.w3.org/2000/01/rdf-schema#comment"))
}

/// The class of RDF containers.
pub fn container() -> (r: NamedNodeBuf)
    ensures
        r@ == "http://www.w3.org/2000/01/rdf-schema#Container"@,
{
    NamedNodeBuf::new_unchecked(String::from_str("http://www.w3.org/2000/01/rdf-schema#Container"))
}

/// The class of container membership properties.
pub fn container_membership_property() -> (r: NamedNodeBuf)
    ensures
        r@ == "http://www.w3.org/2000/01/rdf-schema#ContainerMembershipProperty"@,
{
    NamedNodeBuf::new_unchecked(String::from_str("http://www.w3.org/2000/01/rdf-schema#ContainerMembershipProperty"))
}

/// The class of RDF datatypes.
pub fn datatype() -> (r: NamedNodeBuf)
    ensures
        r@ == "http://www.w3.org/2000/01/rdf-schema#Datatype"@,
{
    NamedNodeBuf::new_unchecked(String::from_str("http://www.w3.org/2000/01/rdf-schema#Datatype"))
}

/// A domain of the subject property.
pub fn domain() -> (r: NamedNodeBuf)
    ensures
        r@ == "http://www.w3.org/2000/01/rdf-schema#domain"@,
{
    NamedNodeBuf::new_unchecked(String::from_str("http://www.w3.org/2000/01/rdf-schema#domain"))
}

/// The definition of the subject resource.
pub fn is_defined_by() -> (r: NamedNodeBuf)
    ensures
        r@ == "http://www.w3.org/2000/01/rdf-schema#isDefinedBy"@,
{
    NamedNodeBuf::new_unchecked(String::from_str("http://www.w3.org/2000/01/rdf-schema#isDefinedBy"))
}

/// A human-readable name for the subject.
pub fn label() -> (r: NamedNodeBuf)
    ensures
        r@ == "http://www.w3.org/2000/01/rdf-schema#label"@,
{
    NamedNodeBuf::new_unchecked(String::from_str("http://www.w3.org/2000/01/rdf-schema#label"))
}

/// The class of literal values, e.g. textual strings and integers.
pub fn literal() -> (r: NamedNodeBuf)
    ensures
        r@ == "http://www.w3.org/2000/01/rdf-schema#Literal"@,
{
    NamedNodeBuf::new_unchecked(String::from_str("http://www.w3.org/2000/01/rdf-schema#Literal"))
}

/// A member of the subject resource.
pub fn member() -> (r: NamedNodeBuf)
    ensures
        r@ == "http://www.w3.org/2000/01/rdf-schema#member"@,
{
    NamedNodeBuf::new_unchecked(String::from_str("http://www.w3.org/2000/01/rdf-schema#member"))
}

/// A range of the subject property.
pub fn range() -> (r: NamedNodeBuf)
    ensures
        r@ == "http://www.w3.org/2000/01/rdf-schema#range"@,
{
    NamedNodeBuf::new_unchecked(String::from_str("http://www.w3.org/2000/01/rdf-schema#range"))
}

/// The class resource, everything.
pub fn resource() -> (r: NamedNodeBuf)
    ensures
        r@ == "http://www.w3.org/2000/01/rdf-schema#Resource"@,
{
    NamedNodeBuf::new_unchecked(String::from_str("http://www.w3.org/2000/01/rdf-schema#Resource"))
}

/// Further information about the subject resource.
pub fn see_also() -> (r: NamedNodeBuf)
    ensures
        r@ == "http://www.w3.org/2000/01/rdf-schema#seeAlso"@,
{
    NamedNodeBuf::new_unchecked(String::from_str("http://www.w3.org/2000/01/rdf-schema#seeAlso"))
}

/// The subject is a subclass of a class.
pub fn sub_class_of() -> (r: NamedNodeBuf)
    ensures
        r@ == "http://www.w3.org/2000/01/rdf-schema#subClassOf"@,
{
    NamedNodeBuf::new_unchecked(String::from_str("http://www.w3.org/2000/01/rdf-schema#subClassOf"))
}

/// The subject is a subproperty of a property.
pub fn sub_property_of() -> (r: NamedNodeBuf)
    ensures
        r@ == "http://www.w3.org/2000/01/rdf-schema#subPropertyOf"@,
{
    NamedNodeBuf::new_unchecked(String::from_str("http://www.w3.org/2000/01/rdf-schema#subPropertyOf"))
}

} // verus!
