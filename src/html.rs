use vstd::prelude::*;

use crate::vdom::{attrs_view, node, node_types_view, Attribute, Node, NodeType, NodeTypeV, NodeV};

verus! {

pub fn text(txt: String) -> (r: NodeType)
    ensures
        r@ == NodeTypeV::Text(txt@),
{
    crate::vdom::text(txt)
}

/// A `div` element.
pub fn div(attrs: Vec<Attribute>, children: Vec<NodeType>) -> (r: Node)
    ensures
        r@ == (NodeV { tag: "div"@, attrs: attrs_view(attrs@), children: node_types_view(children@) }),
{
    node(String::from_str("div"), attrs, children)
}

/// A `p` element.
pub fn p(attrs: Vec<Attribute>, children: Vec<NodeType>) -> (r: Node)
    ensures
        r@ == (NodeV { tag: "p"@, attrs: attrs_view(attrs@), children: node_types_view(children@) }),
{
    node(String::from_str("p"), attrs, children)
}

/// A `s` element.
pub fn s(attrs: Vec<Attribute>, children: Vec<NodeType>) -> (r: Node)
    ensures
        r@ == (NodeV { tag: "s"@, attrs: attrs_view(attrs@), children: node_types_view(children@) }),
{
    node(String::from_str("s"), attrs, children)
}

/// A `u` element.
pub fn u(attrs: Vec<Attribute>, children: Vec<NodeType>) -> (r: Node)
    ensures
        r@ == (NodeV { tag: "u"@, attrs: attrs_view(attrs@), children: node_types_view(children@) }),
{
    node(String::from_str("u"), attrs, children)
}

/// A class attribute: the class list itself.
pub fn class(cls: String) -> (r: Attribute)
    ensures
        r@ == cls@,
{
    Attribute(cls)
}

/// A `key=value` attribute.
pub fn style(k: String, v: String) -> (r: Attribute)
    ensures
        r@ == k@ + "="@ + v@,
{
    let mut s = k;
    s.append("=");
    s.append(v.as_str());
    Attribute(s)
}

pub fn src(s: String) -> (r: Attribute)
    ensures
        r@ == "src"@ + "="@ + s@,
{
    style(String::from_str("src"), s)
}

pub fn alt(description: String) -> (r: Attribute)
    ensures
        r@ == "alt"@ + "="@ + description@,
{
    style(String::from_str("alt"), description)
}

pub fn href(url: String) -> (r: Attribute)
    ensures
        r@ == "href"@ + "="@ + url@,
{
    style(String::from_str("href"), url)
}

pub fn rel(value: String) -> (r: Attribute)
    ensures
        r@ == "rel"@ + "="@ + value@,
{
    style(String::from_str("rel"), value)
}

pub fn target(t: String) -> (r: Attribute)
    ensures
        r@ == "target"@ + "="@ + t@,
{
    style(String::from_str("target"), t)
}

pub fn download(file_name: String) -> (r: Attribute)
    ensures
        r@ == "download"@ + "="@ + file_name@,
{
    style(String::from_str("download"), file_name)
}

} // verus!
