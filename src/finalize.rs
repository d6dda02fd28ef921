use vstd::prelude::*;

use crate::base::BASE_CSS;
use crate::classes::Classes;
use crate::flag::{Field, Flag};
use crate::model::{
    kids_view, Children, EmbedStyle, EmbedV, KidsV, LayoutContext, NodeName, NodeNameV,
};
use crate::options::{focus_styles, OptStruct, RenderMode};
use crate::reduce::{reduce, reduced, style_views};
use crate::render::{rule_texts, todo_render_style_rule};
use crate::sheet::{stylesheet_text, to_stylesheet_str};
use crate::style::{style_name, Property, Style, StyleV};
use crate::text::{join, join_strings, views};
use crate::vdom::{
    attrs_view, node, node_type_view, node_types_view, node_view, Attribute, Node, NodeType,
    NodeTypeV, NodeV,
};

verus! {

pub open spec fn tag_node(tag: Seq<char>, attrs: Seq<Seq<char>>, children: Seq<NodeTypeV>) -> NodeV {
    NodeV { tag, attrs, children }
}

pub open spec fn div_v(attrs: Seq<Seq<char>>, children: Seq<NodeTypeV>) -> NodeV {
    tag_node("div"@, attrs, children)
}

/// The node that carries the static base stylesheet, as the render mode
/// asks.
pub open spec fn static_root_view(opts: OptStruct) -> NodeV {
    match opts.mode {
        RenderMode::Layout => div_v(
            Seq::empty(),
            seq![NodeTypeV::Node(tag_node("style"@, Seq::empty(), seq![NodeTypeV::Text(BASE_CSS@)]))],
        ),
        RenderMode::NoStaicStyleSheet => div_v(Seq::empty(), seq![NodeTypeV::Text(Seq::empty())]),
        RenderMode::WithVirtualCSS => tag_node(
            "elm-ui-static-rules"@,
            seq!["rules"@ + "="@ + BASE_CSS@],
            Seq::empty(),
        ),
    }
}

pub open spec fn quoted_rules(rules: Seq<Seq<char>>) -> Seq<char> {
    join(rules.map_values(|t: Seq<char>| "\""@ + t + "\""@), ","@)
}

/// The styles as a map from each name to its rules, in JSON.
pub open spec fn encoded_text(opts: OptStruct, sheet: Seq<StyleV>) -> Seq<char> {
    "{"@ + join(
        sheet.map_values(
            |s: StyleV|
                "\""@ + style_name(s) + "\":\""@ + quoted_rules(rule_texts(opts, s, None)) + "\""@,
        ),
        ","@,
    ) + "}"@
}

/// The node that carries the stylesheet of the given styles.
pub open spec fn stylesheet_node(opts: OptStruct, sheet: Seq<StyleV>) -> NodeV {
    match opts.mode {
        RenderMode::WithVirtualCSS => tag_node(
            "elm-ui-rules"@,
            seq!["rules"@ + "="@ + encoded_text(opts, sheet)],
            Seq::empty(),
        ),
        _ => div_v(
            Seq::empty(),
            seq![
                NodeTypeV::Node(
                    tag_node("style"@, Seq::empty(), seq![NodeTypeV::Text(stylesheet_text(opts, sheet))]),
                ),
            ],
        ),
    }
}

/// The styles a root embeds: the focus rules, then the hoisted styles, one
/// per name.
pub open spec fn sheet_of(opts: OptStruct, styles: Seq<StyleV>) -> Seq<StyleV> {
    reduced(focus_styles(opts.focus) + styles)
}

/// Children with the stylesheets put first.
pub open spec fn embedded(
    is_static: bool,
    opts: OptStruct,
    styles: Seq<StyleV>,
    children: Seq<NodeTypeV>,
) -> Seq<NodeTypeV> {
    (if is_static {
        seq![NodeTypeV::Node(static_root_view(opts))]
    } else {
        Seq::empty()
    }) + seq![NodeTypeV::Node(stylesheet_node(opts, sheet_of(opts, styles)))] + children
}

/// Keyed children with the stylesheets put first.
pub open spec fn embedded_keyed(
    is_static: bool,
    opts: OptStruct,
    styles: Seq<StyleV>,
    children: Seq<(Seq<char>, NodeV)>,
) -> Seq<(Seq<char>, NodeV)> {
    (if is_static {
        seq![("static-stylesheet"@, static_root_view(opts))]
    } else {
        Seq::empty()
    }) + seq![("dynamic-stylesheet"@, stylesheet_node(opts, sheet_of(opts, styles)))] + children
}

pub open spec fn as_nodes(v: Seq<NodeV>) -> Seq<NodeTypeV> {
    v.map_values(|n: NodeV| NodeTypeV::Node(n))
}

pub open spec fn as_keyed(v: Seq<(Seq<char>, NodeV)>) -> Seq<NodeTypeV> {
    v.map_values(|p: (Seq<char>, NodeV)| NodeTypeV::KeyedNode(p.0, p.1))
}

/// The node of a tag with its attributes and children, the stylesheets
/// embedded as asked.
pub open spec fn created_node(name: Seq<char>, attrs: Seq<Seq<char>>, kids: KidsV, embed: EmbedV) -> NodeTypeV {
    match kids {
        KidsV::Keyed(k) => {
            let k2 = match embed {
                EmbedV::NoStyleSheet => k,
                EmbedV::OnlyDynamic(o, s) => embedded_keyed(false, o, s, k),
                EmbedV::StaticRootAndynamic(o, s) => embedded_keyed(true, o, s, k),
            };
            NodeTypeV::KeyedNode(name, tag_node(name, attrs, as_keyed(k2)))
        },
        KidsV::Unkeyed(u) => {
            let c = match embed {
                EmbedV::NoStyleSheet => as_nodes(u),
                EmbedV::OnlyDynamic(o, s) => embedded(false, o, s, as_nodes(u)),
                EmbedV::StaticRootAndynamic(o, s) => embedded(true, o, s, as_nodes(u)),
            };
            NodeTypeV::Node(tag_node(name, attrs, c))
        },
    }
}

/// The node an element's tag name asks for; an embedded name puts the inner
/// tag inside the outer one.
pub open spec fn html_view(node: NodeNameV, attributes: Seq<Seq<char>>, kids: KidsV, embed: EmbedV) -> NodeTypeV {
    match node {
        NodeNameV::Generic => created_node("div"@, attributes, kids, embed),
        NodeNameV::NodeName(n) => created_node(n, attributes, kids, embed),
        NodeNameV::Embedded(n, internal) => NodeTypeV::Node(
            tag_node(
                n,
                attributes,
                seq![created_node(internal, seq!["s "@ + Classes::Single.name()], kids, embed)],
            ),
        ),
    }
}

/// The class of a container that pushes its one child to a side.
pub open spec fn container_class(c: Classes) -> Seq<char> {
    "s "@ + Classes::Single.name() + " "@ + Classes::Container.name() + " "@
        + Classes::ContentCenterY.name() + " "@ + c.name()
}

/// A finalised node, wrapped as its parent layout needs: in a row, a child
/// that fills the width without bounds sits in a plain `div`, one aligned
/// right or centred in a container that pushes it there; a column does the
/// same for heights and vertical alignment.
pub open spec fn finalized(
    has: Field,
    node: NodeNameV,
    attributes: Seq<Seq<char>>,
    kids: KidsV,
    embed: EmbedV,
    ctx: LayoutContext,
) -> NodeV {
    let h = html_view(node, attributes, kids, embed);
    match ctx {
        LayoutContext::AsRow => if has.has(Flag::spec_from(39)) && !(has.has(Flag::spec_from(44))) {
            div_v(Seq::empty(), seq![h])
        } else if has.has(Flag::spec_from(40)) {
            tag_node("u"@, seq![container_class(Classes::AlignContainerRight)], seq![h])
        } else if has.has(Flag::spec_from(42)) {
            tag_node("s"@, seq![container_class(Classes::AlignContainerCenterX)], seq![h])
        } else {
            div_v(Seq::empty(), seq![h])
        },
        LayoutContext::AsColumn => if has.has(Flag::spec_from(37)) && !(has.has(Flag::spec_from(45))) {
            div_v(Seq::empty(), seq![h])
        } else if has.has(Flag::spec_from(43)) {
            tag_node("u"@, seq![container_class(Classes::AlignContainerCenterY)], seq![h])
        } else if has.has(Flag::spec_from(41)) {
            tag_node("s"@, seq![container_class(Classes::AlignContainerBottom)], seq![h])
        } else {
            div_v(Seq::empty(), seq![h])
        },
        _ => div_v(Seq::empty(), seq![h]),
    }
}

fn one_node(n: Node) -> (r: Vec<NodeType>)
    ensures
        node_types_view(r@) == seq![NodeTypeV::Node(node_view(n))],
{
    let r = vec![NodeType::Node(n)];
    proof {
        assert(node_types_view(r@) =~= seq![NodeTypeV::Node(node_view(n))]);
    }
    r
}

fn no_attrs() -> (r: Vec<Attribute>)
    ensures
        attrs_view(r@) == Seq::<Seq<char>>::empty(),
{
    let r: Vec<Attribute> = Vec::new();
    proof {
        assert(attrs_view(r@) =~= Seq::<Seq<char>>::empty());
    }
    r
}

fn one_attr(a: String) -> (r: Vec<Attribute>)
    ensures
        attrs_view(r@) == seq![a@],
{
    let r = vec![Attribute(a)];
    proof {
        assert(attrs_view(r@) =~= seq![a@]);
    }
    r
}

fn no_children() -> (r: Vec<NodeType>)
    ensures
        node_types_view(r@) == Seq::<NodeTypeV>::empty(),
{
    let r: Vec<NodeType> = Vec::new();
    proof {
        assert(node_types_view(r@) =~= Seq::<NodeTypeV>::empty());
    }
    r
}

fn style_node(text: String) -> (r: Node)
    ensures
        r@ == div_v(
            Seq::empty(),
            seq![NodeTypeV::Node(tag_node("style"@, Seq::empty(), seq![NodeTypeV::Text(text@)]))],
        ),
{
    let t = vec![NodeType::Text(text)];
    proof {
        assert(node_types_view(t@) =~= seq![NodeTypeV::Text(text@)]);
    }
    let inner = node(String::from_str("style"), no_attrs(), t);
    node(String::from_str("div"), no_attrs(), one_node(inner))
}

/// The node that carries the static base stylesheet.
pub fn static_root(opts: &OptStruct) -> (r: Node)
    ensures
        r@ == static_root_view(*opts),
{
    match opts.mode {
        RenderMode::Layout => style_node(crate::base::rules()),
        RenderMode::NoStaicStyleSheet => {
            let t = vec![NodeType::Text(String::new())];
            proof {
                assert(node_types_view(t@) =~= seq![NodeTypeV::Text(Seq::empty())]);
            }
            node(String::from_str("div"), no_attrs(), t)
        },
        RenderMode::WithVirtualCSS => {
            let a = crate::vdom::property(Property(String::from_str("rules"), crate::base::rules()));
            let attrs = vec![a];
            proof {
                assert(attrs_view(attrs@) =~= seq!["rules"@ + "="@ + BASE_CSS@]);
            }
            node(String::from_str("elm-ui-static-rules"), attrs, no_children())
        },
    }
}

/// The styles as a map from each name to its rules, in JSON.
#[verifier::rlimit(40)]
pub fn encode_styles(opts: &OptStruct, stylesheet: &Vec<Style>) -> (r: String)
    ensures
        r@ == encoded_text(*opts, style_views(stylesheet@)),
{
    let ghost sv = style_views(stylesheet@);
    let mut entries: Vec<String> = Vec::new();
    let mut i: usize = 0;
    while i < stylesheet.len()
        invariant
            i <= stylesheet.len(),
            sv == style_views(stylesheet@),
            entries.len() == i,
            forall|j: int|
                0 <= j < i ==> #[trigger] entries@[j]@ == "\""@ + style_name(sv[j]) + "\":\""@
                    + quoted_rules(rule_texts(*opts, sv[j], None)) + "\""@,
        decreases stylesheet.len() - i,
    {
        let rules = todo_render_style_rule(opts, &stylesheet[i], &None);
        let mut quoted: Vec<String> = Vec::new();
        let mut k: usize = 0;
        while k < rules.len()
            invariant
                k <= rules.len(),
                quoted.len() == k,
                forall|j: int| 0 <= j < k ==> #[trigger] quoted@[j]@ == "\""@ + rules@[j]@ + "\""@,
            decreases rules.len() - k,
        {
            let mut q = String::from_str("\"");
            q.append(rules[k].as_str());
            q.append("\"");
            quoted.push(q);
            k = k + 1;
        }
        proof {
            assert(views(quoted@) =~= views(rules@).map_values(|t: Seq<char>| "\""@ + t + "\""@));
        }
        let body = join_strings(&quoted, ",");
        let mut e = String::from_str("\"");
        let name = stylesheet[i].name();
        e.append(name.as_str());
        e.append("\":\"");
        e.append(body.as_str());
        e.append("\"");
        entries.push(e);
        i = i + 1;
    }
    proof {
        assert(views(entries@) =~= sv.map_values(
            |s: StyleV|
                "\""@ + style_name(s) + "\":\""@ + quoted_rules(rule_texts(*opts, s, None)) + "\""@,
        ));
    }
    let inner = join_strings(&entries, ",");
    let mut s = String::from_str("{");
    s.append(inner.as_str());
    s.append("}");
    s
}

/// The node that carries the stylesheet of the given styles.
pub fn to_stylesheet(opts: &OptStruct, stylesheet: &Vec<Style>) -> (r: Node)
    ensures
        r@ == stylesheet_node(*opts, style_views(stylesheet@)),
{
    match opts.mode {
        RenderMode::WithVirtualCSS => {
            let a = crate::vdom::property(
                Property(String::from_str("rules"), encode_styles(opts, stylesheet)),
            );
            let attrs = vec![a];
            proof {
                assert(attrs_view(attrs@) =~= seq![
                    "rules"@ + "="@ + encoded_text(*opts, style_views(stylesheet@)),
                ]);
            }
            node(String::from_str("elm-ui-rules"), attrs, no_children())
        },
        _ => style_node(to_stylesheet_str(opts, stylesheet)),
    }
}

/// The focus rules followed by the styles, one per name.
fn sheet_styles(opts: &OptStruct, styles: &Vec<Style>) -> (r: Vec<Style>)
    ensures
        style_views(r@) == sheet_of(*opts, style_views(styles@)),
{
    let mut all = opts.focus.render();
    let ghost first = all@;
    let mut more = styles.clone();
    proof {
        assert(style_views(more@) =~= style_views(styles@));
    }
    let ghost second = more@;
    all.append(&mut more);
    proof {
        assert(style_views(all@) =~= focus_styles(opts.focus) + style_views(styles@)) by {
            assert(style_views(first) =~= focus_styles(opts.focus));
            assert(style_views(second) =~= style_views(styles@));
        }
    }
    reduce(&all)
}

/// The children with the stylesheets put first: the static one when asked,
/// then the dynamic one of the styles.
pub fn embed_with(is_static: bool, opts: &OptStruct, styles: &Vec<Style>, children: Vec<NodeType>) -> (r:
    Vec<NodeType>)
    ensures
        node_types_view(r@) == embedded(is_static, *opts, style_views(styles@), node_types_view(children@)),
{
    let sheet = sheet_styles(opts, styles);
    let dynamic = NodeType::Node(to_stylesheet(opts, &sheet));
    let mut res: Vec<NodeType> = Vec::new();
    if is_static {
        res.push(NodeType::Node(static_root(opts)));
    }
    res.push(dynamic);
    let ghost kids = children@;
    let mut children = children;
    res.append(&mut children);
    proof {
        assert(node_types_view(res@) =~= embedded(
            is_static,
            *opts,
            style_views(styles@),
            node_types_view(kids),
        ));
    }
    res
}

pub open spec fn keyed_view(v: Seq<(String, Node)>) -> Seq<(Seq<char>, NodeV)> {
    v.map_values(|p: (String, Node)| (p.0@, node_view(p.1)))
}

/// Keyed children with the stylesheets put first.
pub fn embed_keyed(
    is_static: bool,
    opts: &OptStruct,
    styles: &Vec<Style>,
    children: Vec<(String, Node)>,
) -> (r: Vec<(String, Node)>)
    ensures
        keyed_view(r@) == embedded_keyed(is_static, *opts, style_views(styles@), keyed_view(children@)),
{
    let sheet = sheet_styles(opts, styles);
    let dynamic = to_stylesheet(opts, &sheet);
    let mut res: Vec<(String, Node)> = Vec::new();
    if is_static {
        res.push((String::from_str("static-stylesheet"), static_root(opts)));
    }
    res.push((String::from_str("dynamic-stylesheet"), dynamic));
    let ghost kids = children@;
    let mut children = children;
    res.append(&mut children);
    proof {
        assert(keyed_view(res@) =~= embedded_keyed(
            is_static,
            *opts,
            style_views(styles@),
            keyed_view(kids),
        ));
    }
    res
}

/// Each node as a child node, in order.
#[verifier::rlimit(40)]
fn wrap_nodes(v: Vec<Node>) -> (r: Vec<NodeType>)
    ensures
        node_types_view(r@) == as_nodes(v@.map_values(|n: Node| node_view(n))),
{
    let ghost orig = v@;
    let mut v = v;
    let mut rev: Vec<NodeType> = Vec::new();
    while v.len() > 0
        invariant
            v@ == orig.take(v.len() as int),
            v.len() + rev.len() == orig.len(),
            forall|j: int|
                0 <= j < rev.len() ==> #[trigger] node_type_view(rev@[j]) == NodeTypeV::Node(
                    node_view(orig[orig.len() - 1 - j]),
                ),
        decreases v.len(),
    {
        let n = v.pop().unwrap();
        proof {
            assert(n == orig[v.len() as int]);
        }
        rev.push(NodeType::Node(n));
        proof {
            assert(v@ =~= orig.take(v.len() as int));
        }
    }
    let mut out: Vec<NodeType> = Vec::new();
    let ghost r0 = rev@;
    while rev.len() > 0
        invariant
            rev@ == r0.take(rev.len() as int),
            rev.len() + out.len() == orig.len(),
            r0.len() == orig.len(),
            forall|j: int|
                0 <= j < r0.len() ==> #[trigger] node_type_view(r0[j]) == NodeTypeV::Node(
                    node_view(orig[orig.len() - 1 - j]),
                ),
            forall|j: int|
                0 <= j < out.len() ==> #[trigger] node_type_view(out@[j]) == NodeTypeV::Node(
                    node_view(orig[j]),
                ),
        decreases rev.len(),
    {
        let n = rev.pop().unwrap();
        proof {
            assert(n == r0[rev.len() as int]);
        }
        out.push(n);
        proof {
            assert(rev@ =~= r0.take(rev.len() as int));
        }
    }
    proof {
        assert(node_types_view(out@) =~= as_nodes(orig.map_values(|n: Node| node_view(n))));
    }
    out
}

/// Each keyed node as a keyed child, in order.
#[verifier::rlimit(40)]
fn wrap_keyed(v: Vec<(String, Node)>) -> (r: Vec<NodeType>)
    ensures
        node_types_view(r@) == as_keyed(keyed_view(v@)),
{
    let ghost orig = v@;
    let mut v = v;
    let mut rev: Vec<NodeType> = Vec::new();
    while v.len() > 0
        invariant
            v@ == orig.take(v.len() as int),
            v.len() + rev.len() == orig.len(),
            forall|j: int|
                0 <= j < rev.len() ==> #[trigger] node_type_view(rev@[j]) == NodeTypeV::KeyedNode(
                    orig[orig.len() - 1 - j].0@,
                    node_view(orig[orig.len() - 1 - j].1),
                ),
        decreases v.len(),
    {
        let (k, n) = v.pop().unwrap();
        proof {
            assert((k, n) == orig[v.len() as int]);
        }
        rev.push(NodeType::KeyedNode(k, n));
        proof {
            assert(v@ =~= orig.take(v.len() as int));
        }
    }
    let mut out: Vec<NodeType> = Vec::new();
    let ghost r0 = rev@;
    while rev.len() > 0
        invariant
            rev@ == r0.take(rev.len() as int),
            rev.len() + out.len() == orig.len(),
            r0.len() == orig.len(),
            forall|j: int|
                0 <= j < r0.len() ==> #[trigger] node_type_view(r0[j]) == NodeTypeV::KeyedNode(
                    orig[orig.len() - 1 - j].0@,
                    node_view(orig[orig.len() - 1 - j].1),
                ),
            forall|j: int|
                0 <= j < out.len() ==> #[trigger] node_type_view(out@[j]) == NodeTypeV::KeyedNode(
                    orig[j].0@,
                    node_view(orig[j].1),
                ),
        decreases rev.len(),
    {
        let n = rev.pop().unwrap();
        proof {
            assert(n == r0[rev.len() as int]);
        }
        out.push(n);
        proof {
            assert(rev@ =~= r0.take(rev.len() as int));
        }
    }
    proof {
        assert(node_types_view(out@) =~= as_keyed(keyed_view(orig)));
    }
    out
}

fn create_node(name: String, attrs: Vec<Attribute>, children: Children<Node>, embed: &EmbedStyle) -> (r:
    NodeType)
    ensures
        r@ == created_node(name@, attrs_view(attrs@), kids_view(children), crate::model::embed_view(*embed)),
{
    match children {
        Children::Keyed(keyed) => {
            let keyed = match embed {
                EmbedStyle::NoStyleSheet => keyed,
                EmbedStyle::OnlyDynamic(opts, styles) => embed_keyed(false, opts, styles, keyed),
                EmbedStyle::StaticRootAndynamic(opts, styles) => embed_keyed(true, opts, styles, keyed),
            };
            let kids = wrap_keyed(keyed);
            crate::vdom::keyed_node(name.clone(), name, attrs, kids)
        },
        Children::Unkeyed(unkeyed) => {
            let kids = wrap_nodes(unkeyed);
            let kids = match embed {
                EmbedStyle::NoStyleSheet => kids,
                EmbedStyle::OnlyDynamic(opts, styles) => embed_with(false, opts, styles, kids),
                EmbedStyle::StaticRootAndynamic(opts, styles) => embed_with(true, opts, styles, kids),
            };
            NodeType::Node(node(name, attrs, kids))
        },
    }
}

fn container(tag: &str, c: Classes, html: NodeType) -> (r: Node)
    ensures
        r@ == tag_node(tag@, seq![container_class(c)], seq![node_type_view(html)]),
{
    let mut cls = String::from_str("s ");
    cls.append(Classes::Single.to_string());
    cls.append(" ");
    cls.append(Classes::Container.to_string());
    cls.append(" ");
    cls.append(Classes::ContentCenterY.to_string());
    cls.append(" ");
    cls.append(c.to_string());
    let kids = vec![html];
    proof {
        assert(node_types_view(kids@) =~= seq![node_type_view(html)]);
    }
    node(String::from_str(tag), one_attr(cls), kids)
}

fn plain_wrapper(html: NodeType) -> (r: Node)
    ensures
        r@ == div_v(Seq::empty(), seq![node_type_view(html)]),
{
    let kids = vec![html];
    proof {
        assert(node_types_view(kids@) =~= seq![node_type_view(html)]);
    }
    node(String::from_str("div"), no_attrs(), kids)
}

/// The node of an element, with the stylesheets embedded as asked, wrapped
/// as its parent layout needs.
#[verifier::rlimit(40)]
pub fn finalize_node(
    has: Field,
    node_name: NodeName,
    attributes: Vec<Attribute>,
    children: Children<Node>,
    embed_mode: EmbedStyle,
    parent_ctx: LayoutContext,
) -> (r: Node)
    ensures
        r@ == finalized(
            has,
            node_name@,
            attrs_view(attributes@),
            kids_view(children),
            crate::model::embed_view(embed_mode),
            parent_ctx,
        ),
{
    let html = match node_name {
        NodeName::Generic => create_node(String::from_str("div"), attributes, children, &embed_mode),
        NodeName::NodeName(name) => create_node(name, attributes, children, &embed_mode),
        NodeName::Embedded(name, internal) => {
            let mut cls = String::from_str("s ");
            cls.append(Classes::Single.to_string());
            let inner = create_node(internal, one_attr(cls), children, &embed_mode);
            let kids = vec![inner];
            proof {
                assert(node_types_view(kids@) =~= seq![node_type_view(inner)]);
            }
            NodeType::Node(node(name, attributes, kids))
        },
    };
    match parent_ctx {
        LayoutContext::AsRow => {
            if has.present(&Flag::width_fill()) && !(has.present(&Flag::width_between())) {
                plain_wrapper(html)
            } else if has.present(&Flag::align_right()) {
                container("u", Classes::AlignContainerRight, html)
            } else if has.present(&Flag::center_x()) {
                container("s", Classes::AlignContainerCenterX, html)
            } else {
                plain_wrapper(html)
            }
        },
        LayoutContext::AsColumn => {
            if has.present(&Flag::height_fill()) && !(has.present(&Flag::height_between())) {
                plain_wrapper(html)
            } else if has.present(&Flag::center_y()) {
                container("u", Classes::AlignContainerCenterY, html)
            } else if has.present(&Flag::align_bottom()) {
                container("s", Classes::AlignContainerBottom, html)
            } else {
                plain_wrapper(html)
            }
        },
        _ => plain_wrapper(html),
    }
}

} // verus!
