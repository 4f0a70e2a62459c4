use vstd::prelude::*;

use crate::errors::{Error, ErrorModel};
use crate::node::{lemma_view_fields, opt_text_view, Node, NodeModel};
use crate::text::{parse_i64, parsed_i64, trim_text, trimmed};
use crate::xml::{parse_document, xml_document_of};

verus! {

/// The root node of a document's text, or why there is none.
pub open spec fn parsed_node(s: Seq<char>) -> Result<NodeModel, ErrorModel> {
    match xml_document_of(s) {
        Err(m) => Err(ErrorModel::DataParseError("XML error: "@ + m)),
        Ok(None) => Err(ErrorModel::NullError("Root is empty"@)),
        Ok(Some(root)) => Ok(root),
    }
}

pub open spec fn node_result_view(r: Result<Node, Error>) -> Result<NodeModel, ErrorModel> {
    match r {
        Ok(n) => Ok(n@),
        Err(e) => Err(e@),
    }
}

/// Parses a document and returns its root node.
pub fn parse_node(s: &str) -> (r: Result<Node, Error>)
    ensures
        node_result_view(r) == parsed_node(s@),
{
    match parse_document(s) {
        Ok(Some(root)) => Ok(root),
        Ok(None) => Err(Error::NullError(String::from_str("Root is empty"))),
        Err(m) => {
            let mut msg = String::from_str("XML error: ");
            msg.append(m.as_str());
            Err(Error::DataParseError(msg))
        },
    }
}

/// The integer that a node's text writes, if it has text that writes one.
pub open spec fn node_integer(n: NodeModel) -> Option<i64> {
    match n.text {
        Some(t) => parsed_i64(t),
        None => None,
    }
}

/// Reads a node's text as an integer.
pub fn eval_node_contents(node: &Node) -> (r: Option<i64>)
    ensures
        r == node_integer(node@),
{
    proof {
        lemma_view_fields(node);
    }
    match &node.text {
        Some(v) => parse_i64(v.as_str()),
        None => None,
    }
}

/// A node's character data if it has any, else its text.
pub open spec fn any_text_of(n: NodeModel) -> Option<Seq<char>> {
    if n.cdata is Some {
        n.cdata
    } else {
        n.text
    }
}

pub fn any_text(node: &Node) -> (r: Option<String>)
    ensures
        opt_text_view(r) == any_text_of(node@),
{
    proof {
        lemma_view_fields(node);
    }
    if node.cdata.is_some() {
        return clone_opt(&node.cdata);
    }
    if node.text.is_some() {
        return clone_opt(&node.text);
    }
    None
}

fn clone_opt(t: &Option<String>) -> (r: Option<String>)
    ensures
        opt_text_view(r) == opt_text_view(*t),
{
    match t {
        Some(s) => Some(s.clone()),
        None => None,
    }
}

pub open spec fn trimmed_opt(e: Option<Seq<char>>) -> Option<Seq<char>> {
    match e {
        Some(v) => Some(trimmed(v)),
        None => None,
    }
}

/// The text without leading and trailing white space, if there is a text.
pub fn trimmed_optional(e: &Option<String>) -> (r: Option<String>)
    ensures
        opt_text_view(r) == trimmed_opt(opt_text_view(*e)),
{
    match e {
        Some(v) => Some(String::from_str(trim_text(v.as_str()))),
        None => None,
    }
}

} // verus!
