//! Trusted access to the XML shape of server responses.
//!
//! The protocol's responses are loosely structured XML. The two queries the
//! pipeline needs — the text of the first element with a given name, and the
//! ordered list of positional `argument` element texts — are answered by
//! `xmltree` behind the two wrappers here; everything built on top of them is
//! verified against the named results.

use vstd::prelude::*;

verus! {

/// The text of the first element named `tag`, in document order, of the XML
/// document `xml`; `None` when the document does not parse or has no such
/// element. A function of the document and the tag alone.
pub uninterp spec fn xml_tag_text_of(xml: Seq<char>, tag: Seq<char>) -> Option<Seq<char>>;

/// The texts of the outermost `argument` elements of the XML document `xml`,
/// in document order, an absent text read as empty; `None` when the document
/// does not parse. A function of the document alone.
pub uninterp spec fn xml_arguments_of(xml: Seq<char>) -> Option<Seq<Seq<char>>>;

/// Relies on `xmltree::Element::parse` and `Element::get_text`: walks the
/// parsed tree in document order and returns the text of the first element
/// named `tag`.
#[verifier::external_body]
pub fn xml_tag_text(xml: &str, tag: &str) -> (r: Option<String>)
    ensures
        match r {
            Some(t) => xml_tag_text_of(xml@, tag@) == Some(t@),
            None => xml_tag_text_of(xml@, tag@) is None,
        },
{
    let root = xmltree::Element::parse(xml.as_bytes()).ok()?;
    let mut stack: Vec<xmltree::Element> = vec![root];
    while let Some(el) = stack.pop() {
        if el.name == tag {
            return Some(el.get_text().map(|t| t.into_owned()).unwrap_or_default());
        }
        for child in el.children.into_iter().rev() {
            if let xmltree::XMLNode::Element(e) = child {
                stack.push(e);
            }
        }
    }
    None
}

/// Relies on `xmltree::Element::parse` and `Element::get_text`: walks the
/// parsed tree in document order and collects the text of every outermost
/// element named `argument` — the walk does not descend into a matched
/// element — an absent text read as empty.
#[verifier::external_body]
pub fn xml_argument_texts(xml: &str) -> (r: Option<Vec<String>>)
    ensures
        match r {
            Some(args) => xml_arguments_of(xml@) == Some(args.deep_view()),
            None => xml_arguments_of(xml@) is None,
        },
{
    let root = xmltree::Element::parse(xml.as_bytes()).ok()?;
    let mut stack: Vec<xmltree::Element> = vec![root];
    let mut out: Vec<String> = Vec::new();
    while let Some(el) = stack.pop() {
        if el.name == "argument" {
            out.push(el.get_text().map(|t| t.into_owned()).unwrap_or_default());
        } else {
            for child in el.children.into_iter().rev() {
                if let xmltree::XMLNode::Element(e) = child {
                    stack.push(e);
                }
            }
        }
    }
    Some(out)
}

} // verus!
