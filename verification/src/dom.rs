//! The boundary to the XML parser: documents are parsed by `minidom` and
//! copied into the client's own element type.

use crate::error::DavError;
use crate::xml::{Tree, XmlElement};
use vstd::prelude::*;

verus! {

/// `minidom::Element`, a parsed element. Nothing is known of its fields: it
/// is read through `dom_name`, `dom_texts` and `dom_children` only.
#[verifier::external_type_specification]
#[verifier::external_body]
pub struct ExDomElement(minidom::Element);

/// `minidom::Error`, the parser's reason for rejecting a text. It is carried
/// as far as `parse_document` and dropped there.
#[verifier::external_type_specification]
#[verifier::external_body]
pub struct ExDomError(minidom::Error);

/// What a parsed element holds: its local name, its text nodes and its child
/// elements, each in document order.
pub uninterp spec fn dom_tree(e: minidom::Element) -> Tree;

/// The document that the parser reads from a text, if it accepts the text.
pub uninterp spec fn parsed_document(text: Seq<char>) -> Option<Tree>;

/// Parses a text with `<minidom::Element as FromStr>::from_str`.
///
/// Trusted: the parser is a function of the text alone; the element that it
/// returns holds the document, and it fails exactly on the texts for which
/// there is no document.
#[verifier::external_body]
fn dom_parse(text: &str) -> (r: Result<minidom::Element, minidom::Error>)
    ensures
        r matches Ok(e) ==> parsed_document(text@) == Some(dom_tree(e)),
        r is Err ==> parsed_document(text@) is None,
{
    text.parse::<minidom::Element>()
}

/// Reads an element's local name with `minidom::Element::name`.
///
/// Trusted: the name returned is the name that the element holds.
#[verifier::external_body]
fn dom_name<'a>(e: &'a minidom::Element) -> (name: &'a str)
    ensures
        name@ == dom_tree(*e).name,
{
    e.name()
}

/// Collects an element's text nodes with `minidom::Element::texts`.
///
/// Trusted: the iterator yields the text nodes that the element holds, all
/// of them and in order.
#[verifier::external_body]
fn dom_texts<'a>(e: &'a minidom::Element) -> (texts: Vec<&'a str>)
    ensures
        texts@.len() == dom_tree(*e).texts.len(),
        forall|i: int| 0 <= i < texts@.len() ==> (#[trigger] texts@[i])@ == dom_tree(*e).texts[i],
{
    e.texts().collect()
}

/// Collects an element's child elements with `minidom::Element::children`.
///
/// Trusted: the iterator yields the child elements that the element holds,
/// all of them and in order.
#[verifier::external_body]
fn dom_children<'a>(e: &'a minidom::Element) -> (kids: Vec<&'a minidom::Element>)
    ensures
        kids@.len() == dom_tree(*e).children.len(),
        forall|i: int|
            0 <= i < kids@.len() ==> dom_tree(*#[trigger] kids@[i]) == dom_tree(*e).children[i],
{
    e.children().collect()
}

impl XmlElement {
    /// Copies a parsed element, with everything below it, into the client's
    /// own element type.
    pub fn from_dom(e: &minidom::Element) -> (out: XmlElement)
        ensures
            out@ == dom_tree(*e),
        decreases dom_tree(*e),
    {
        let name = dom_name(e).to_owned();
        let found_texts = dom_texts(e);
        let kids = dom_children(e);
        let mut texts: Vec<String> = Vec::new();
        let mut i: usize = 0;
        while i < found_texts.len()
            invariant
                i <= found_texts.len(),
                texts@.len() == i,
                forall|k: int| 0 <= k < i ==> (#[trigger] texts@[k])@ == found_texts@[k]@,
            decreases found_texts.len() - i,
        {
            texts.push(found_texts[i].to_owned());
            i += 1;
        }
        let mut children: Vec<XmlElement> = Vec::new();
        let mut j: usize = 0;
        while j < kids.len()
            invariant
                j <= kids.len(),
                children@.len() == j,
                kids@.len() == dom_tree(*e).children.len(),
                forall|k: int|
                    0 <= k < kids@.len() ==> dom_tree(*#[trigger] kids@[k]) == dom_tree(*e).children[k],
                forall|k: int| 0 <= k < j ==> (#[trigger] children@[k])@ == dom_tree(*e).children[k],
            decreases kids.len() - j,
        {
            let child = XmlElement::from_dom(kids[j]);
            children.push(child);
            j += 1;
        }
        let out = XmlElement { name, texts, children };
        proof {
            out.lemma_view();
            assert(out@.texts =~= dom_tree(*e).texts);
            assert(out@.children =~= dom_tree(*e).children);
        }
        out
    }
}

/// Parses the text of a response body into an element tree.
pub fn parse_document(text: &str) -> (r: Result<XmlElement, DavError>)
    ensures
        r matches Ok(root) ==> parsed_document(text@) == Some(root@),
        r matches Err(e) ==> e == DavError::MalformedResponse && parsed_document(text@) is None,
{
    match dom_parse(text) {
        Ok(e) => Ok(XmlElement::from_dom(&e)),
        Err(_) => Err(DavError::MalformedResponse),
    }
}

} // verus!
