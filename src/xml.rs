use vstd::prelude::*;

use crate::node::{Node, NodeModel};

verus! {

#[verifier::external_type_specification]
#[verifier::external_body]
pub struct ExXmlElement(treexml::Element);

/// What `treexml` makes of a document's text: its root node, if it has one,
/// or the parser's error message.
pub uninterp spec fn xml_document_of(text: Seq<char>) -> Result<Option<NodeModel>, Seq<char>>;

/// The text that `treexml` writes for a node (no document declaration).
pub uninterp spec fn xml_text_of(e: NodeModel) -> Seq<char>;

/// The model of a parse result.
pub open spec fn parsed_view(r: Result<Option<Node>, String>) -> Result<
    Option<NodeModel>,
    Seq<char>,
> {
    match r {
        Ok(Some(e)) => Ok(Some(e@)),
        Ok(None) => Ok(None),
        Err(m) => Err(m@),
    }
}

/// Moves a `treexml` node and its subtree into this library's node type; the
/// attributes and the namespace prefix, which no rule of the protocol reads,
/// are left behind.
#[verifier::external_body]
fn node_from_xml(e: treexml::Element) -> Node {
    Node {
        name: e.name,
        text: e.text,
        cdata: e.cdata,
        children: e.children.into_iter().map(node_from_xml).collect(),
    }
}

/// Copies a node and its subtree into a `treexml` node without attributes.
#[verifier::external_body]
fn node_to_xml(e: &Node) -> treexml::Element {
    let mut out = treexml::Element::new(&e.name);
    out.text = e.text.clone();
    out.cdata = e.cdata.clone();
    out.children = e.children.iter().map(node_to_xml).collect();
    out
}

/// Relies on `treexml::Document::parse` (over `xml-rs`): the result depends on
/// the text alone.
#[verifier::external_body]
pub(crate) fn parse_document(text: &str) -> (r: Result<Option<Node>, String>)
    ensures
        parsed_view(r) == xml_document_of(text@),
{
    match treexml::Document::parse(text.as_bytes()) {
        Ok(doc) => Ok(doc.root.map(node_from_xml)),
        Err(e) => Err(format!("{}", e)),
    }
}

/// Relies on `treexml::Element`'s `Display`: the text depends on the node
/// alone.
#[verifier::external_body]
pub(crate) fn xml_text(e: &Node) -> (r: String)
    ensures
        r@ == xml_text_of(e@),
{
    format!("{}", node_to_xml(e))
}

} // verus!
