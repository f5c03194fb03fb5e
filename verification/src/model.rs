use vstd::prelude::*;
use vstd::string::*;

verus! {

/// Whether a string is a syntactically valid absolute IRI under the
/// RFC 3987 grammar. The grammar takes pages to state, so the predicate
/// is left abstract; `iri_check` decides it at run time.
pub uninterp spec fn iri_ok(s: Seq<char>) -> bool;

/// Relies on oxiri's `Iri::parse`: it validates a string against the
/// RFC 3987 absolute-IRI grammar, keeps the string unchanged, and fails
/// exactly on strings the grammar rejects.
#[verifier::external_body]
fn iri_check(iri: &str) -> (r: Result<(), String>)
    ensures
        r is Ok <==> iri_ok(iri@),
{
    match oxiri::Iri::parse(iri) {
        Ok(_) => Ok(()),
        Err(e) => Err(e.to_string()),
    }
}

/// Error raised when a string is rejected by the absolute-IRI grammar.
#[derive(Debug)]
pub struct IriParseError {
    message: String,
}

impl View for IriParseError {
    type V = Seq<char>;

    closed spec fn view(&self) -> Seq<char> {
        self.message@
    }
}

impl IriParseError {
    /// The human-readable reason the string was rejected.
    pub fn message(&self) -> (r: &str)
        ensures
            r@ == self@,
    {
        self.message.as_str()
    }

    /// Hands the reason out as an owned string.
    pub fn into_message(self) -> (r: String)
        ensures
            r@ == self@,
    {
        self.message
    }
}

/// The serialized form of an identifier: the IRI wrapped in angle
/// brackets, as N-Triples, Turtle and SPARQL write it.
pub open spec fn displayed(s: Seq<char>) -> Seq<char> {
    seq!['<'] + s + seq!['>']
}

/// A borrowed RDF IRI.
///
/// A value built by `parse` always holds a syntactically valid absolute
/// IRI; `new_unchecked` leaves that guarantee to the caller.
#[derive(Clone, Copy, Debug)]
pub struct NamedNode<'a> {
    iri: &'a str,
}

impl<'a> View for NamedNode<'a> {
    type V = Seq<char>;

    closed spec fn view(&self) -> Seq<char> {
        self.iri@
    }
}

impl<'a> NamedNode<'a> {
    /// Whether the held string is a valid absolute IRI.
    pub open spec fn wf(self) -> bool {
        iri_ok(self@)
    }

    /// Builds an identifier, validating the string against the
    /// absolute-IRI grammar; succeeds exactly on valid input, and keeps
    /// the accepted string unchanged.
    pub fn parse(iri: &'a str) -> (r: Result<Self, IriParseError>)
        ensures
            r is Ok <==> iri_ok(iri@),
            r matches Ok(n) ==> n@ == iri@ && n.wf(),
    {
        match iri_check(iri) {
            Ok(()) => Ok(Self::new_unchecked(iri)),
            Err(message) => Err(IriParseError { message }),
        }
    }

    /// Builds an identifier from a string without validating it.
    ///
    /// It is the caller's responsibility to ensure that `iri` is a
    /// valid absolute IRI; only then does `wf` hold of the result.
    pub fn new_unchecked(iri: &'a str) -> (r: Self)
        ensures
            r@ == iri@,
    {
        NamedNode { iri }
    }

    /// The underlying IRI string.
    pub fn as_str(&self) -> (r: &'a str)
        ensures
            r@ == self@,
    {
        self.iri
    }

    /// The conventional serialized form: the IRI in angle brackets.
    pub fn to_display_string(&self) -> (r: String)
        ensures
            r@ == displayed(self@),
    {
        proof {
            reveal_strlit("<");
            reveal_strlit(">");
        }
        let mut out = String::from_str("<");
        out.append(self.iri);
        out.append(">");
        proof {
            assert(out@ =~= displayed(self@));
        }
        out
    }

    /// Copies the identifier into an owned form; the text is unchanged.
    pub fn to_buf(&self) -> (r: NamedNodeBuf)
        ensures
            r@ == self@,
    {
        NamedNodeBuf { iri: String::from_str(self.iri) }
    }

    /// Whether two borrowed identifiers hold the same IRI text.
    pub fn same_as(&self, other: &NamedNode<'_>) -> (r: bool)
        ensures
            r == (self@ == other@),
    {
        str_eq(self.iri, other.iri)
    }
}

/// An owned RDF IRI, with the same validity guarantee as `NamedNode`.
#[derive(Clone, Debug)]
pub struct NamedNodeBuf {
    iri: String,
}

impl View for NamedNodeBuf {
    type V = Seq<char>;

    closed spec fn view(&self) -> Seq<char> {
        self.iri@
    }
}

impl NamedNodeBuf {
    /// Whether the held string is a valid absolute IRI.
    pub open spec fn wf(self) -> bool {
        iri_ok(self@)
    }

    /// Builds an owned identifier, validating the string; succeeds
    /// exactly on valid input, and keeps the accepted string unchanged.
    pub fn parse(iri: String) -> (r: Result<Self, IriParseError>)
        ensures
            r is Ok <==> iri_ok(iri@),
            r matches Ok(n) ==> n@ == iri@ && n.wf(),
    {
        match iri_check(iri.as_str()) {
            Ok(()) => Ok(NamedNodeBuf { iri }),
            Err(message) => Err(IriParseError { message }),
        }
    }

    /// Builds an owned identifier from a string without validating it.
    ///
    /// It is the caller's responsibility to ensure that `iri` is a
    /// valid absolute IRI; only then does `wf` hold of the result.
    pub fn new_unchecked(iri: String) -> (r: Self)
        ensures
            r@ == iri@,
    {
        NamedNodeBuf { iri }
    }

    /// Hands the underlying IRI string back, without copying.
    pub fn into_string(self) -> (r: String)
        ensures
            r@ == self@,
    {
        self.iri
    }

    /// The underlying IRI string.
    pub fn as_str(&self) -> (r: &str)
        ensures
            r@ == self@,
    {
        self.iri.as_str()
    }

    /// Borrows the identifier without copying; the text is unchanged.
    pub fn as_named_node(&self) -> (r: NamedNode<'_>)
        ensures
            r@ == self@,
    {
        NamedNode::new_unchecked(self.iri.as_str())
    }

    /// The conventional serialized form: the IRI in angle brackets.
    pub fn to_display_string(&self) -> (r: String)
        ensures
            r@ == displayed(self@),
    {
        self.as_named_node().to_display_string()
    }

    /// Whether an owned and a borrowed identifier hold the same text.
    pub fn same_as(&self, other: &NamedNode<'_>) -> (r: bool)
        ensures
            r == (self@ == other@),
    {
        str_eq(self.iri.as_str(), other.as_str())
    }
}

impl PartialEq for NamedNodeBuf {
    fn eq(&self, other: &NamedNodeBuf) -> (r: bool) {
        self.iri.eq(&other.iri)
    }
}

impl vstd::std_specs::cmp::PartialEqSpecImpl for NamedNodeBuf {
    open spec fn obeys_eq_spec() -> bool {
        true
    }

    open spec fn eq_spec(&self, other: &NamedNodeBuf) -> bool {
        self@ == other@
    }
}

impl Eq for NamedNodeBuf {

}

/// Whether two string slices hold the same characters.
pub fn str_eq(a: &str, b: &str) -> (r: bool)
    ensures
        r == (a@ == b@),
{
    String::from_str(a).eq(&String::from_str(b))
}

/// An identifier accepted by `parse` is displayed as the input wrapped
/// in angle brackets: `parse` keeps the accepted text unchanged, and
/// the display form is exactly `"<"`, the text, `">"`.
pub proof fn lemma_display_after_parse(s: Seq<char>)
    requires
        iri_ok(s),
    ensures
        displayed(s) == "<"@ + s + ">"@,
{
    reveal_strlit("<");
    reveal_strlit(">");
    assert(displayed(s) =~= "<"@ + s + ">"@);
}

/// Identifiers compare by their text alone, so equality does not depend
/// on which of the two forms holds the text, nor on the side of the
/// comparison: any mix of borrowed and owned views agrees.
pub proof fn lemma_eq_across_forms(n: NamedNode<'_>, b: NamedNodeBuf)
    ensures
        (n@ == b@) <==> (b@ == n@),
{
}

} // verus!
