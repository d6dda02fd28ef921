use vstd::prelude::*;

use crate::style::Property;

verus! {

/// A raw DOM attribute, written `key=value` or as a bare class list.
pub struct Attribute(pub String);

impl View for Attribute {
    type V = Seq<char>;

    open spec fn view(&self) -> Seq<char> {
        self.0@
    }
}

impl Clone for Attribute {
    fn clone(&self) -> (r: Self)
        ensures
            r@ == self@,
    {
        Attribute(self.0.clone())
    }
}

/// A virtual-DOM element: tag, attributes and children.
pub struct Node {
    pub tag: String,
    pub attrs: Vec<Attribute>,
    pub children: Vec<NodeType>,
}

pub enum NodeType {
    Node(Node),
    KeyedNode(String, Node),
    Text(String),
}

pub struct NodeV {
    pub tag: Seq<char>,
    pub attrs: Seq<Seq<char>>,
    pub children: Seq<NodeTypeV>,
}

pub enum NodeTypeV {
    Node(NodeV),
    KeyedNode(Seq<char>, NodeV),
    Text(Seq<char>),
}

pub open spec fn attrs_view(v: Seq<Attribute>) -> Seq<Seq<char>> {
    v.map_values(|a: Attribute| a@)
}

pub open spec fn node_view(n: Node) -> NodeV
    decreases n,
{
    NodeV {
        tag: n.tag@,
        attrs: attrs_view(n.attrs@),
        children: Seq::new(
            n.children.len() as nat,
            |i: int|
                if 0 <= i < n.children.len() {
                    node_type_view(n.children[i])
                } else {
                    NodeTypeV::Text(Seq::empty())
                },
        ),
    }
}

pub open spec fn node_type_view(n: NodeType) -> NodeTypeV
    decreases n,
{
    match n {
        NodeType::Node(x) => NodeTypeV::Node(node_view(x)),
        NodeType::KeyedNode(k, x) => NodeTypeV::KeyedNode(k@, node_view(x)),
        NodeType::Text(t) => NodeTypeV::Text(t@),
    }
}

impl View for Node {
    type V = NodeV;

    open spec fn view(&self) -> NodeV {
        node_view(*self)
    }
}

impl View for NodeType {
    type V = NodeTypeV;

    open spec fn view(&self) -> NodeTypeV {
        node_type_view(*self)
    }
}

pub open spec fn node_types_view(v: Seq<NodeType>) -> Seq<NodeTypeV> {
    v.map_values(|n: NodeType| node_type_view(n))
}

pub open spec fn nodes_view(v: Seq<Node>) -> Seq<NodeV> {
    v.map_values(|n: Node| node_view(n))
}

/// The view of a node is made of the views of its parts.
pub proof fn lemma_node_view(n: Node)
    ensures
        node_view(n) == (NodeV {
            tag: n.tag@,
            attrs: attrs_view(n.attrs@),
            children: node_types_view(n.children@),
        }),
{
    let a = node_view(n).children;
    let b = node_types_view(n.children@);
    assert(a.len() == b.len());
    assert forall|k: int| 0 <= k < a.len() implies a[k] == b[k] by {}
    assert(a =~= b);
}

impl NodeType {
    /// An empty `div`.
    pub fn default() -> (r: NodeType)
        ensures
            r@ == NodeTypeV::Node(NodeV { tag: "div"@, attrs: Seq::empty(), children: Seq::empty() }),
    {
        let attrs: Vec<Attribute> = Vec::new();
        let children: Vec<NodeType> = Vec::new();
        proof {
            assert(attrs_view(attrs@) =~= Seq::<Seq<char>>::empty());
            assert(node_types_view(children@) =~= Seq::<NodeTypeV>::empty());
        }
        NodeType::Node(node(String::from_str("div"), attrs, children))
    }
}

pub fn text(txt: String) -> (r: NodeType)
    ensures
        r@ == NodeTypeV::Text(txt@),
{
    NodeType::Text(txt)
}

pub fn node(tag: String, attrs: Vec<Attribute>, children: Vec<NodeType>) -> (r: Node)
    ensures
        r@ == (NodeV { tag: tag@, attrs: attrs_view(attrs@), children: node_types_view(children@) }),
{
    let r = Node { tag, attrs, children };
    proof {
        lemma_node_view(r);
    }
    r
}

pub fn keyed_node(key: String, tag: String, attrs: Vec<Attribute>, children: Vec<NodeType>) -> (r:
    NodeType)
    ensures
        r@ == NodeTypeV::KeyedNode(
            key@,
            NodeV { tag: tag@, attrs: attrs_view(attrs@), children: node_types_view(children@) },
        ),
{
    NodeType::KeyedNode(key, node(tag, attrs, children))
}

/// A property attribute, `key=value`.
pub fn property(prop: Property) -> (r: Attribute)
    ensures
        r@ == prop.0@ + "="@ + prop.1@,
{
    let Property(k, v) = prop;
    let mut s = k;
    s.append("=");
    s.append(v.as_str());
    Attribute(s)
}

/// A key and a value of a fact.
pub struct FactContent {
    pub key: String,
    pub val: String,
}

/// One fact about a virtual-DOM node.
pub enum Fact {
    Attr(FactContent),
    AttrNS(FactContent),
    Event(FactContent),
    Prop(FactContent),
    Style(FactContent),
}

#[derive(Debug, PartialEq, Eq, Structural, Clone, Copy)]
pub enum VNodeKind {
    Text,
    Node,
    KeyedNode,
    Thunk,
    Tagger,
    Custom,
}

#[derive(Debug, PartialEq, Eq, Structural, Clone, Copy)]
pub enum PatchKind {
    Redraw,
    Facts,
    Text,
    Thunk,
    Tagger,
    RemoveLast,
    Append,
    Reorder,
    Remove,
    Custom,
}

#[derive(Debug, PartialEq, Eq, Structural, Clone, Copy)]
pub enum EntryKind {
    Insert,
    Remove,
    Move,
}

#[derive(Debug, PartialEq, Eq, Structural, Clone, Copy)]
pub struct VdomObj {
    pub kind: VNodeKind,
}

pub struct VTextNode {
    pub text: String,
}

pub struct VNode {
    pub tag: String,
    pub facts: Vec<Fact>,
    pub kids: Vec<VNode>,
    pub kid_count: u32,
    pub namespace: String,
}

#[derive(Debug, PartialEq, Eq, Structural, Clone, Copy)]
pub struct Model;

#[derive(Debug, PartialEq, Eq, Structural, Clone, Copy)]
pub struct Render;

pub struct CustomVNode {
    pub facts: Vec<Fact>,
    pub model: Model,
    pub render: Render,
    pub diff: i32,
}

/// Facts sorted into properties and attributes, each a list of keys with
/// their values, every key once, in the order first given.
pub struct OrganizedFacts {
    pub props: Vec<(String, String)>,
    pub attrs: Vec<(String, String)>,
}

pub open spec fn pairs_v(v: Seq<(String, String)>) -> Seq<(Seq<char>, Seq<char>)> {
    v.map_values(|p: (String, String)| (p.0@, p.1@))
}

/// The first place of `k` among the keys.
pub open spec fn key_place(m: Seq<(Seq<char>, Seq<char>)>, k: Seq<char>) -> Option<int>
    decreases m.len(),
{
    if m.len() == 0 {
        None
    } else {
        match key_place(m.drop_last(), k) {
            Some(i) => Some(i),
            None => if m.last().0 == k {
                Some(m.len() - 1)
            } else {
                None
            },
        }
    }
}

/// The list with `k` set to `v`: in place when the key is there, at the
/// end otherwise.
pub open spec fn set_key(m: Seq<(Seq<char>, Seq<char>)>, k: Seq<char>, v: Seq<char>) -> Seq<(Seq<char>, Seq<char>)> {
    match key_place(m, k) {
        Some(i) => m.update(i, (k, v)),
        None => m.push((k, v)),
    }
}

/// The list with `v` added to the class list under `k`.
pub open spec fn class_added(m: Seq<(Seq<char>, Seq<char>)>, k: Seq<char>, v: Seq<char>) -> Seq<(Seq<char>, Seq<char>)> {
    match key_place(m, k) {
        Some(i) => m.update(i, (k, m[i].1 + " "@ + v)),
        None => m.push((k, v)),
    }
}

proof fn lemma_key_place_bounds(m: Seq<(Seq<char>, Seq<char>)>, k: Seq<char>)
    ensures
        key_place(m, k) matches Some(i) ==> 0 <= i < m.len() && m[i].0 == k,
        key_place(m, k) is None ==> forall|j: int| 0 <= j < m.len() ==> m[j].0 != k,
    decreases m.len(),
{
    if m.len() > 0 {
        lemma_key_place_bounds(m.drop_last(), k);
        assert forall|j: int| 0 <= j < m.len() - 1 implies m.drop_last()[j] == m[j] by {}
    }
}

fn find_key(m: &Vec<(String, String)>, k: &String) -> (r: Option<usize>)
    ensures
        match (r, key_place(pairs_v(m@), k@)) {
            (Some(i), Some(j)) => i == j,
            (None, None) => true,
            _ => false,
        },
{
    let ghost mv = pairs_v(m@);
    let mut i: usize = 0;
    while i < m.len()
        invariant
            i <= m.len(),
            mv == pairs_v(m@),
            key_place(mv.take(i as int), k@) is None,
        decreases m.len() - i,
    {
        proof {
            assert(mv.take(i as int + 1).drop_last() =~= mv.take(i as int));
        }
        if m[i].0 == *k {
            proof {
                assert(key_place(mv.take(i as int + 1), k@) == Some(i as int));
                lemma_prefix_place(mv, k@, i as int + 1);
            }
            return Some(i);
        }
        i = i + 1;
    }
    proof {
        assert(mv.take(m.len() as int) =~= mv);
    }
    None
}

proof fn lemma_prefix_place(m: Seq<(Seq<char>, Seq<char>)>, k: Seq<char>, n: int)
    requires
        0 <= n <= m.len(),
        key_place(m.take(n), k) is Some,
    ensures
        key_place(m, k) == key_place(m.take(n), k),
    decreases m.len() - n,
{
    if n < m.len() {
        assert(m.take(n + 1).drop_last() =~= m.take(n));
        lemma_prefix_place(m, k, n + 1);
    } else {
        assert(m.take(n) =~= m);
    }
}

fn set_value(m: &mut Vec<(String, String)>, k: String, v: String)
    ensures
        pairs_v(final(m)@) == set_key(pairs_v(old(m)@), k@, v@),
{
    match find_key(m, &k) {
        Some(i) => {
            proof {
                lemma_key_place_bounds(pairs_v(old(m)@), k@);
            }
            m.set(i, (k, v));
            proof {
                assert(pairs_v(m@) =~= pairs_v(old(m)@).update(i as int, (k@, v@)));
            }
        },
        None => {
            let ghost k0 = k@;
            let ghost v0 = v@;
            m.push((k, v));
            proof {
                assert(pairs_v(m@) =~= pairs_v(old(m)@).push((k0, v0)));
            }
        },
    }
}

/// `val` added to the class list under `key`: after a space when the key
/// is there, as a new entry otherwise.
pub fn add_class(facts: &mut Vec<(String, String)>, key: String, val: String)
    ensures
        pairs_v(final(facts)@) == class_added(pairs_v(old(facts)@), key@, val@),
{
    match find_key(facts, &key) {
        Some(i) => {
            proof {
                lemma_key_place_bounds(pairs_v(old(facts)@), key@);
            }
            let mut joined = facts[i].1.clone();
            joined.append(" ");
            joined.append(val.as_str());
            let ghost k0 = key@;
            let ghost j0 = joined@;
            facts.set(i, (key, joined));
            proof {
                assert(pairs_v(facts@) =~= pairs_v(old(facts)@).update(i as int, (k0, j0)));
            }
        },
        None => {
            let ghost k0 = key@;
            let ghost v0 = val@;
            facts.push((key, val));
            proof {
                assert(pairs_v(facts@) =~= pairs_v(old(facts)@).push((k0, v0)));
            }
        },
    }
}

pub enum FactV {
    Attr(Seq<char>, Seq<char>),
    Prop(Seq<char>, Seq<char>),
    Other,
}

pub open spec fn fact_v(f: Fact) -> FactV {
    match f {
        Fact::Attr(c) => FactV::Attr(c.key@, c.val@),
        Fact::Prop(c) => FactV::Prop(c.key@, c.val@),
        _ => FactV::Other,
    }
}

/// Facts sorted into properties and attributes: class names add up, every
/// other key keeps its last value; events, namespaced attributes and
/// styles are left out.
pub open spec fn organized(facts: Seq<FactV>) -> (Seq<(Seq<char>, Seq<char>)>, Seq<(Seq<char>, Seq<char>)>)
    decreases facts.len(),
{
    if facts.len() == 0 {
        (Seq::empty(), Seq::empty())
    } else {
        let (props, attrs) = organized(facts.drop_last());
        match facts.last() {
            FactV::Prop(k, v) => (
                if k == "className"@ {
                    class_added(props, k, v)
                } else {
                    set_key(props, k, v)
                },
                attrs,
            ),
            FactV::Attr(k, v) => (
                props,
                if k == "class"@ {
                    class_added(attrs, k, v)
                } else {
                    set_key(attrs, k, v)
                },
            ),
            FactV::Other => (props, attrs),
        }
    }
}

pub fn organize_facts(fact_list: Vec<Fact>) -> (r: OrganizedFacts)
    ensures
        (pairs_v(r.props@), pairs_v(r.attrs@)) == organized(fact_list@.map_values(|f: Fact| fact_v(f))),
{
    let ghost fv = fact_list@.map_values(|f: Fact| fact_v(f));
    let n = fact_list.len();
    let mut rev = crate::layout::reversed(fact_list);
    let mut props: Vec<(String, String)> = Vec::new();
    let mut attrs: Vec<(String, String)> = Vec::new();
    proof {
        assert(fv.take(0) =~= Seq::<FactV>::empty());
        assert(pairs_v(props@) =~= Seq::<(Seq<char>, Seq<char>)>::empty());
        assert(pairs_v(attrs@) =~= Seq::<(Seq<char>, Seq<char>)>::empty());
    }
    while rev.len() > 0
        invariant
            rev.len() <= n,
            n == fv.len(),
            forall|j: int| 0 <= j < rev.len() ==> fact_v(#[trigger] rev@[j]) == fv[n - 1 - j],
            (pairs_v(props@), pairs_v(attrs@)) == organized(fv.take(n - rev.len())),
        decreases rev.len(),
    {
        let ghost i = n - rev.len();
        let f = rev.pop().unwrap();
        proof {
            assert(fact_v(f) == fv[i]);
            assert(fv.take(i + 1).drop_last() =~= fv.take(i));
        }
        match f {
            Fact::Prop(FactContent { key, val }) => {
                if key == String::from_str("className") {
                    add_class(&mut props, key, val);
                } else {
                    set_value(&mut props, key, val);
                }
            },
            Fact::Attr(FactContent { key, val }) => {
                if key == String::from_str("class") {
                    add_class(&mut attrs, key, val);
                } else {
                    set_value(&mut attrs, key, val);
                }
            },
            _ => {},
        }
    }
    proof {
        assert(fv.take(n as int) =~= fv);
    }
    OrganizedFacts { props, attrs }
}

} // verus!
