//! Node tree and page data of the publishing API.

use vstd::prelude::*;

verus! {

/// One node of a page: raw text or a tagged element.
#[derive(Debug)]
pub enum Node {
    Text(String),
    Element(NodeElement),
}

/// A tagged element: its tag, optional attributes as name/value pairs, and
/// optional children.
#[derive(Debug)]
pub struct NodeElement {
    pub tag: String,
    pub attrs: Option<Vec<(String, String)>>,
    pub children: Option<Vec<Node>>,
}

impl NodeElement {
    /// A paragraph holding one text node.
    pub fn paragraph_text(text: &str) -> (r: NodeElement)
        ensures
            r.tag@ == "p"@,
            r.attrs is None,
            r.children is Some && r.children->0@.len() == 1 && (r.children->0@[0] matches
                Node::Text(t) && t@ == text@),
    {
        let mut children: Vec<Node> = Vec::new();
        children.push(Node::Text(String::from_str(text)));
        NodeElement { tag: String::from_str("p"), attrs: None, children: Some(children) }
    }

    /// A paragraph holding the given children.
    pub fn paragraph(children: Vec<Node>) -> (r: NodeElement)
        ensures
            r.tag@ == "p"@,
            r.attrs is None,
            r.children == Some(children),
    {
        NodeElement { tag: String::from_str("p"), attrs: None, children: Some(children) }
    }

    /// A third-level heading holding one text node.
    pub fn h3(text: &str) -> (r: NodeElement)
        ensures
            r.tag@ == "h3"@,
            r.attrs is None,
            r.children is Some && r.children->0@.len() == 1 && (r.children->0@[0] matches
                Node::Text(t) && t@ == text@),
    {
        let mut children: Vec<Node> = Vec::new();
        children.push(Node::Text(String::from_str(text)));
        NodeElement { tag: String::from_str("h3"), attrs: None, children: Some(children) }
    }

    /// A fourth-level heading holding one text node.
    pub fn h4(text: &str) -> (r: NodeElement)
        ensures
            r.tag@ == "h4"@,
            r.attrs is None,
            r.children is Some && r.children->0@.len() == 1 && (r.children->0@[0] matches
                Node::Text(t) && t@ == text@),
    {
        let mut children: Vec<Node> = Vec::new();
        children.push(Node::Text(String::from_str(text)));
        NodeElement { tag: String::from_str("h4"), attrs: None, children: Some(children) }
    }

    /// A link around one text node, with an optional target.
    pub fn link(text: &str, href: Option<&str>) -> (r: NodeElement)
        ensures
            r.tag@ == "a"@,
            (match href {
                Some(h) => r.attrs is Some && r.attrs->0@.len() == 1 && r.attrs->0@[0].0@
                    == "href"@ && r.attrs->0@[0].1@ == h@,
                None => r.attrs is None,
            }),
            r.children is Some && r.children->0@.len() == 1 && (r.children->0@[0] matches
                Node::Text(t) && t@ == text@),
    {
        let attrs = match href {
            Some(h) => {
                let mut pairs: Vec<(String, String)> = Vec::new();
                pairs.push((String::from_str("href"), String::from_str(h)));
                Some(pairs)
            },
            None => None,
        };
        let mut children: Vec<Node> = Vec::new();
        children.push(Node::Text(String::from_str(text)));
        NodeElement { tag: String::from_str("a"), attrs, children: Some(children) }
    }

    /// An image element pointing at its source.
    pub fn image(src: &str) -> (r: NodeElement)
        ensures
            r.tag@ == "img"@,
            r.attrs is Some && r.attrs->0@.len() == 1 && r.attrs->0@[0].0@ == "src"@
                && r.attrs->0@[0].1@ == src@,
            r.children is None,
    {
        let mut pairs: Vec<(String, String)> = Vec::new();
        pairs.push((String::from_str("src"), String::from_str(src)));
        NodeElement { tag: String::from_str("img"), attrs: Some(pairs), children: None }
    }

    /// A video element pointing at its source.
    pub fn video(src: &str) -> (r: NodeElement)
        ensures
            r.tag@ == "video"@,
            r.attrs is Some && r.attrs->0@.len() == 1 && r.attrs->0@[0].0@ == "src"@
                && r.attrs->0@[0].1@ == src@,
            r.children is None,
    {
        let mut pairs: Vec<(String, String)> = Vec::new();
        pairs.push((String::from_str("src"), String::from_str(src)));
        NodeElement { tag: String::from_str("video"), attrs: Some(pairs), children: None }
    }
}

/// A published page, as the API reports it.
#[derive(Debug)]
pub struct Page {
    pub path: String,
    pub url: String,
    pub title: String,
    pub description: String,
    pub author_name: Option<String>,
    pub image_url: Option<String>,
    pub content: Option<Vec<Node>>,
    pub views: u64,
    pub can_edit: Option<bool>,
}

} // verus!
