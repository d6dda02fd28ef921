use vstd::prelude::*;

use crate::finalize::finalized;
use crate::flag::Field;
use crate::gather::{
    final_attrs, final_styles,
    behind_of, context_class, context_classes, embed_or_none, gather_attr_recursive, gather_fold,
    in_front_of, nodes_v, start_state, text_element, text_element_fill,
    text_node, GatherState, Gathered, NearbyChildren, NearbyChildrenBoth,
};
use crate::model::{
    attributes_view, embed_view, ArgsV, Attribute, AttributeV, Children, Element,
    ElementV, EmbedStyle, EmbedV, FinalizeNodeArgs, KidsV, LayoutContext, NodeName, NodeNameV,
    Styled,
};
use crate::reduce::style_views;
use crate::style::{Style, StyleV};
use crate::transform::Transform;
use crate::vdom::{attrs_view, node_view, Attribute as HtmlAttribute, Node, NodeV};

verus! {

/// The items in reverse order, moved.
pub fn reversed<T>(v: Vec<T>) -> (r: Vec<T>)
    ensures
        r.len() == v.len(),
        forall|j: int| 0 <= j < v.len() ==> #[trigger] r@[j] == v@[v.len() - 1 - j],
{
    let ghost orig = v@;
    let mut v = v;
    let mut rev: Vec<T> = Vec::new();
    while v.len() > 0
        invariant
            v@ == orig.take(v.len() as int),
            v.len() + rev.len() == orig.len(),
            forall|j: int| 0 <= j < rev.len() ==> #[trigger] rev@[j] == orig[orig.len() - 1 - j],
        decreases v.len(),
    {
        let a = v.pop().unwrap();
        proof {
            assert(a == orig[v.len() as int]);
        }
        rev.push(a);
        proof {
            assert(v@ =~= orig.take(v.len() as int));
        }
    }
    rev
}

/// The node a child element becomes inside a layout, if any: text fills a
/// single element and takes its content's size elsewhere.
pub open spec fn child_nodes(ctx: LayoutContext, e: ElementV) -> Seq<NodeV> {
    match e {
        ElementV::Unstyled(a) => seq![
            finalized(a.has, a.node, a.attributes, a.children, embed_or_none(a.embed_mode), ctx),
        ],
        ElementV::Styled(_, a) => seq![
            finalized(a.has, a.node, a.attributes, a.children, EmbedV::NoStyleSheet, ctx),
        ],
        ElementV::Text(t) => seq![text_node(t, ctx == LayoutContext::AsEl)],
        ElementV::Empty => Seq::empty(),
    }
}

/// The style rules a child hoists to its parent.
pub open spec fn child_styles(e: ElementV) -> Seq<StyleV> {
    match e {
        ElementV::Styled(ss, _) => ss,
        _ => Seq::empty(),
    }
}

pub open spec fn kids_nodes(ctx: LayoutContext, es: Seq<ElementV>) -> Seq<NodeV>
    decreases es.len(),
{
    if es.len() == 0 {
        Seq::empty()
    } else {
        kids_nodes(ctx, es.drop_last()) + child_nodes(ctx, es.last())
    }
}

pub open spec fn keyed_nodes(ctx: LayoutContext, es: Seq<(Seq<char>, ElementV)>) -> Seq<(Seq<char>, NodeV)>
    decreases es.len(),
{
    if es.len() == 0 {
        Seq::empty()
    } else {
        keyed_nodes(ctx, es.drop_last()) + child_nodes(ctx, es.last().1).map_values(
            |n: NodeV| (es.last().0, n),
        )
    }
}

pub open spec fn kids_styles(es: Seq<ElementV>) -> Seq<StyleV>
    decreases es.len(),
{
    if es.len() == 0 {
        Seq::empty()
    } else {
        kids_styles(es.drop_last()) + child_styles(es.last())
    }
}

pub enum ElementKidsV {
    Unkeyed(Seq<ElementV>),
    Keyed(Seq<(Seq<char>, ElementV)>),
}

pub open spec fn element_kids(c: Children<Element>) -> ElementKidsV {
    match c {
        Children::Unkeyed(v) => ElementKidsV::Unkeyed(v@.map_values(|e: Element| e@)),
        Children::Keyed(v) => ElementKidsV::Keyed(v@.map_values(|p: (String, Element)| (p.0@, p.1@))),
    }
}

pub open spec fn keyed_as(key: Seq<char>, v: Seq<NodeV>) -> Seq<(Seq<char>, NodeV)> {
    v.map_values(|n: NodeV| (key, n))
}

/// The element made of gathered attributes and children: nearby nodes
/// behind go before the children and those in front after; the style rules
/// of the element come before those its children hoist. Without style rules
/// the element is final; with them it carries them up.
pub open spec fn created_element(
    ctx: LayoutContext,
    kids: ElementKidsV,
    node: NodeNameV,
    attrs: Seq<Seq<char>>,
    styles: Seq<StyleV>,
    behind: Seq<NodeV>,
    in_front: Seq<NodeV>,
    has: Field,
) -> ElementV {
    let (children, all_styles) = match kids {
        ElementKidsV::Unkeyed(es) => (
            KidsV::Unkeyed(behind + kids_nodes(ctx, es) + in_front),
            styles + kids_styles(es),
        ),
        ElementKidsV::Keyed(es) => (
            KidsV::Keyed(
                keyed_as("nearby-element-pls"@, behind) + keyed_nodes(ctx, es) + keyed_as(
                    "nearby-element-pls"@,
                    in_front,
                ),
            ),
            styles + kids_styles(es.map_values(|p: (Seq<char>, ElementV)| p.1)),
        ),
    };
    if all_styles.len() == 0 {
        ElementV::Unstyled(
            ArgsV { has, node, attributes: attrs, children, embed_mode: Some(EmbedV::NoStyleSheet) },
        )
    } else {
        ElementV::Styled(all_styles, ArgsV { has, node, attributes: attrs, children, embed_mode: None })
    }
}

fn append_nodes(a: &mut Vec<Node>, b: Vec<Node>)
    ensures
        nodes_v(final(a)@) == nodes_v(old(a)@) + nodes_v(b@),
{
    let ghost bv = b@;
    let mut b = b;
    a.append(&mut b);
    proof {
        assert(nodes_v(a@) =~= nodes_v(old(a)@) + nodes_v(bv));
    }
}

fn take_nearby(nc: NearbyChildren) -> (r: (Vec<Node>, Vec<Node>))
    ensures
        nodes_v(r.0@) == behind_of(nc),
        nodes_v(r.1@) == in_front_of(nc),
{
    let e1: Vec<Node> = Vec::new();
    let e2: Vec<Node> = Vec::new();
    proof {
        assert(nodes_v(e1@) =~= Seq::<NodeV>::empty());
        assert(nodes_v(e2@) =~= Seq::<NodeV>::empty());
    }
    match nc {
        NearbyChildren::NoChildren => (e1, e2),
        NearbyChildren::Behind(b) => (b, e2),
        NearbyChildren::InFront(f) => (e1, f),
        NearbyChildren::Both(NearbyChildrenBoth { behind, in_front }) => (behind, in_front),
    }
}

/// The nodes with the nearby ones put around them: behind first, in front
/// last.
pub fn add_children(existing: Vec<Node>, nc: NearbyChildren) -> (r: Vec<Node>)
    ensures
        nodes_v(r@) == behind_of(nc) + nodes_v(existing@) + in_front_of(nc),
{
    let (behind, in_front) = take_nearby(nc);
    let mut out = behind;
    append_nodes(&mut out, existing);
    append_nodes(&mut out, in_front);
    out
}

pub open spec fn keyed_v(v: Seq<(String, Node)>) -> Seq<(Seq<char>, NodeV)> {
    v.map_values(|p: (String, Node)| (p.0@, node_view(p.1)))
}

fn keyed_with(key: &String, v: Vec<Node>) -> (r: Vec<(String, Node)>)
    ensures
        keyed_v(r@) == keyed_as(key@, nodes_v(v@)),
{
    let ghost orig = v@;
    let rev = reversed(v);
    let mut rev = rev;
    let mut out: Vec<(String, Node)> = Vec::new();
    while rev.len() > 0
        invariant
            rev.len() + out.len() == orig.len(),
            forall|j: int| 0 <= j < rev.len() ==> #[trigger] rev@[j] == orig[orig.len() - 1 - j],
            keyed_v(out@) == keyed_as(key@, nodes_v(orig.take(out.len() as int))),
        decreases rev.len(),
    {
        let ghost i = out.len() as int;
        let n = rev.pop().unwrap();
        proof {
            assert(n == orig[i]);
        }
        let ghost before = out@;
        let k = key.clone();
        out.push((k, n));
        proof {
            let want = keyed_as(key@, nodes_v(orig.take(i + 1)));
            let old_want = keyed_as(key@, nodes_v(orig.take(i)));
            assert(keyed_v(before) == old_want);
            assert forall|j: int| 0 <= j < i + 1 implies keyed_v(out@)[j] == want[j] by {
                if j < i {
                    assert(keyed_v(out@)[j] == keyed_v(before)[j]);
                    assert(old_want[j] == want[j]);
                } else {
                    assert(out@[j] == (k, n));
                }
            }
            assert(keyed_v(out@) =~= want);
        }
    }
    proof {
        assert(orig.take(orig.len() as int) =~= orig);
    }
    out
}

fn append_keyed(a: &mut Vec<(String, Node)>, b: Vec<(String, Node)>)
    ensures
        keyed_v(final(a)@) == keyed_v(old(a)@) + keyed_v(b@),
{
    let ghost bv = b@;
    let mut b = b;
    a.append(&mut b);
    proof {
        assert(keyed_v(a@) =~= keyed_v(old(a)@) + keyed_v(bv));
    }
}

/// Keyed nodes with the nearby ones put around them under `key`.
pub fn add_keyed_children(key: String, existing: Vec<(String, Node)>, nc: NearbyChildren) -> (r: Vec<
    (String, Node),
>)
    ensures
        keyed_v(r@) == keyed_as(key@, behind_of(nc)) + keyed_v(existing@) + keyed_as(
            key@,
            in_front_of(nc),
        ),
{
    let (behind, in_front) = take_nearby(nc);
    let mut out = keyed_with(&key, behind);
    append_keyed(&mut out, existing);
    append_keyed(&mut out, keyed_with(&key, in_front));
    out
}

fn append_styles(a: &mut Vec<Style>, b: Vec<Style>)
    ensures
        style_views(final(a)@) == style_views(old(a)@) + style_views(b@),
{
    let ghost bv = b@;
    let mut b = b;
    a.append(&mut b);
    proof {
        assert(style_views(a@) =~= style_views(old(a)@) + style_views(bv));
    }
}

fn take_embed(e: Option<EmbedStyle>) -> (r: EmbedStyle)
    ensures
        embed_view(r) == embed_or_none(
            match e {
                Some(x) => Some(embed_view(x)),
                None => None,
            },
        ),
{
    match e {
        Some(x) => x,
        None => EmbedStyle::NoStyleSheet,
    }
}

/// The node of one child, if any, and the style rules it hoists.
fn child_parts(ctx: LayoutContext, e: Element) -> (r: (Option<Node>, Vec<Style>))
    ensures
        child_nodes(ctx, e@) == match r.0 {
            Some(n) => seq![node_view(n)],
            None => Seq::empty(),
        },
        style_views(r.1@) == child_styles(e@),
{
    let none: Vec<Style> = Vec::new();
    proof {
        assert(style_views(none@) =~= Seq::<StyleV>::empty());
    }
    match e {
        Element::Unstyled(a) => (
            Some(
                crate::finalize::finalize_node(
                    a.has,
                    a.node,
                    a.attributes,
                    a.children,
                    take_embed(a.embed_mode),
                    ctx,
                ),
            ),
            none,
        ),
        Element::Styled(s) => {
            let Styled { styles, html } = s;
            (
                Some(
                    crate::finalize::finalize_node(
                        html.has,
                        html.node,
                        html.attributes,
                        html.children,
                        EmbedStyle::NoStyleSheet,
                        ctx,
                    ),
                ),
                styles,
            )
        },
        Element::Text(t) => {
            let is_el = match ctx {
                LayoutContext::AsEl => true,
                _ => false,
            };
            if is_el {
                (Some(text_element_fill(&t)), none)
            } else {
                (Some(text_element(&t)), none)
            }
        },
        Element::Empty => (None, none),
    }
}

#[verifier::rlimit(40)]
fn unkeyed_parts(ctx: LayoutContext, c: Vec<Element>) -> (r: (Vec<Node>, Vec<Style>))
    ensures
        nodes_v(r.0@) == kids_nodes(ctx, c@.map_values(|e: Element| e@)),
        style_views(r.1@) == kids_styles(c@.map_values(|e: Element| e@)),
{
    let ghost ev = c@.map_values(|e: Element| e@);
    let n = c.len();
    let mut rev = reversed(c);
    let mut nodes: Vec<Node> = Vec::new();
    let mut styles: Vec<Style> = Vec::new();
    proof {
        assert(nodes_v(nodes@) =~= Seq::<NodeV>::empty());
        assert(style_views(styles@) =~= Seq::<StyleV>::empty());
        assert(ev.take(0) =~= Seq::<ElementV>::empty());
    }
    while rev.len() > 0
        invariant
            rev.len() <= n,
            n == ev.len(),
            forall|j: int| 0 <= j < rev.len() ==> #[trigger] rev@[j]@ == ev[n - 1 - j],
            nodes_v(nodes@) == kids_nodes(ctx, ev.take(n - rev.len())),
            style_views(styles@) == kids_styles(ev.take(n - rev.len())),
        decreases rev.len(),
    {
        let ghost i = n - rev.len();
        let e = rev.pop().unwrap();
        proof {
            assert(e@ == ev[i]);
            assert(ev.take(i + 1).drop_last() =~= ev.take(i));
        }
        let (node, more) = child_parts(ctx, e);
        match node {
            Some(x) => nodes.push(x),
            None => {},
        }
        proof {
            assert(nodes_v(nodes@) =~= kids_nodes(ctx, ev.take(i + 1)));
        }
        append_styles(&mut styles, more);
    }
    proof {
        assert(ev.take(n as int) =~= ev);
    }
    (nodes, styles)
}

#[verifier::rlimit(40)]
fn keyed_parts(ctx: LayoutContext, c: Vec<(String, Element)>) -> (r: (Vec<(String, Node)>, Vec<Style>))
    ensures
        keyed_v(r.0@) == keyed_nodes(ctx, c@.map_values(|p: (String, Element)| (p.0@, p.1@))),
        style_views(r.1@) == kids_styles(
            c@.map_values(|p: (String, Element)| (p.0@, p.1@)).map_values(
                |p: (Seq<char>, ElementV)| p.1,
            ),
        ),
{
    let ghost ev = c@.map_values(|p: (String, Element)| (p.0@, p.1@));
    let ghost es = ev.map_values(|p: (Seq<char>, ElementV)| p.1);
    let n = c.len();
    let mut rev = reversed(c);
    let mut nodes: Vec<(String, Node)> = Vec::new();
    let mut styles: Vec<Style> = Vec::new();
    proof {
        assert(keyed_v(nodes@) =~= Seq::<(Seq<char>, NodeV)>::empty());
        assert(style_views(styles@) =~= Seq::<StyleV>::empty());
        assert(ev.take(0) =~= Seq::<(Seq<char>, ElementV)>::empty());
        assert(es.take(0) =~= Seq::<ElementV>::empty());
    }
    while rev.len() > 0
        invariant
            rev.len() <= n,
            n == ev.len(),
            es.len() == n,
            es == ev.map_values(|p: (Seq<char>, ElementV)| p.1),
            forall|j: int|
                0 <= j < rev.len() ==> (#[trigger] rev@[j]).0@ == ev[n - 1 - j].0 && rev@[j].1@
                    == ev[n - 1 - j].1,
            keyed_v(nodes@) == keyed_nodes(ctx, ev.take(n - rev.len())),
            style_views(styles@) == kids_styles(es.take(n - rev.len())),
        decreases rev.len(),
    {
        let ghost i = n - rev.len();
        let (k, e) = rev.pop().unwrap();
        proof {
            assert(k@ == ev[i].0 && e@ == ev[i].1);
            assert(ev.take(i + 1).drop_last() =~= ev.take(i));
            assert(es.take(i + 1).drop_last() =~= es.take(i));
            assert(es[i] == ev[i].1);
        }
        let (node, more) = child_parts(ctx, e);
        match node {
            Some(x) => nodes.push((k, x)),
            None => {},
        }
        proof {
            assert(keyed_v(nodes@) =~= keyed_nodes(ctx, ev.take(i + 1)));
        }
        append_styles(&mut styles, more);
    }
    proof {
        assert(ev.take(n as int) =~= ev);
        assert(es.take(n as int) =~= es);
    }
    (nodes, styles)
}

/// The element made of gathered attributes and children.
#[verifier::rlimit(40)]
pub fn create_element(context: LayoutContext, children: Children<Element>, rendered: Gathered) -> (r:
    Element)
    ensures
        r@ == created_element(
            context,
            element_kids(children),
            rendered.node@,
            attrs_view(rendered.attrs@),
            style_views(rendered.styles@),
            behind_of(rendered.children),
            in_front_of(rendered.children),
            rendered.has,
        ),
{
    let Gathered { node, attrs, styles, children: nearby, has } = rendered;
    match children {
        Children::Keyed(c) => {
            let (keyed, kid_styles) = keyed_parts(context, c);
            let mut all = styles;
            append_styles(&mut all, kid_styles);
            let ck = Children::Keyed(add_keyed_children(String::from_str("nearby-element-pls"), keyed, nearby));
            if all.len() == 0 {
                Element::Unstyled(
                    FinalizeNodeArgs {
                        has,
                        node,
                        attributes: attrs,
                        children: ck,
                        embed_mode: Some(EmbedStyle::NoStyleSheet),
                    },
                )
            } else {
                Element::Styled(
                    Styled {
                        styles: all,
                        html: FinalizeNodeArgs { has, node, attributes: attrs, children: ck, embed_mode: None },
                    },
                )
            }
        },
        Children::Unkeyed(c) => {
            let (unkeyed, kid_styles) = unkeyed_parts(context, c);
            let mut all = styles;
            append_styles(&mut all, kid_styles);
            let ck = Children::Unkeyed(add_children(unkeyed, nearby));
            if all.len() == 0 {
                Element::Unstyled(
                    FinalizeNodeArgs {
                        has,
                        node,
                        attributes: attrs,
                        children: ck,
                        embed_mode: Some(EmbedStyle::NoStyleSheet),
                    },
                )
            } else {
                Element::Styled(
                    Styled {
                        styles: all,
                        html: FinalizeNodeArgs { has, node, attributes: attrs, children: ck, embed_mode: None },
                    },
                )
            }
        },
    }
}

/// The attributes in reverse order.
pub open spec fn reversed_attrs(v: Seq<AttributeV>) -> Seq<AttributeV> {
    Seq::new(v.len(), |i: int| v[v.len() - 1 - i])
}

/// The state gathering an element starts from: the class list of its
/// layout, and nothing else.
pub open spec fn element_start(context: LayoutContext, node: NodeNameV) -> GatherState {
    GatherState {
        classes: context_class(context),
        node,
        has: Field(0, 0),
        transform: Transform::Untransformed,
        styles: Seq::empty(),
        attrs: Seq::empty(),
        behind: Seq::empty(),
        in_front: Seq::empty(),
    }
}

/// The element a layout makes of a tag name, attributes and children.
pub open spec fn element_spec(
    context: LayoutContext,
    node: NodeNameV,
    attrs: Seq<AttributeV>,
    kids: ElementKidsV,
) -> ElementV {
    let st = gather_fold(element_start(context, node), reversed_attrs(attrs));
    created_element(
        context,
        kids,
        st.node,
        crate::gather::final_attrs(st),
        crate::gather::final_styles(st),
        st.behind,
        st.in_front,
        st.has,
    )
}

/// The element of a layout: its attributes are gathered last to first, so
/// that for each flag the last attribute that sets it wins.
#[verifier::rlimit(40)]
pub fn element(context: LayoutContext, node: NodeName, attrs: Vec<Attribute>, children: Children<Element>) -> (r:
    Element)
    ensures
        r@ == element_spec(context, node@, attributes_view(attrs@), element_kids(children)),
{
    let ghost av = attributes_view(attrs@);
    let ghost nv = node@;
    let rev = reversed(attrs);
    proof {
        assert(attributes_view(rev@) =~= reversed_attrs(av));
    }
    let styles: Vec<Style> = Vec::new();
    let html: Vec<HtmlAttribute> = Vec::new();
    proof {
        assert(style_views(styles@) =~= Seq::<StyleV>::empty());
        assert(attrs_view(html@) =~= Seq::<Seq<char>>::empty());
    }
    let rendered = gather_attr_recursive(
        context_classes(&context),
        node,
        Field::none(),
        crate::transform::untransformed(),
        styles,
        html,
        NearbyChildren::NoChildren,
        rev,
    );
    proof {
        assert(start_state(
            context_class(context),
            nv,
            Field(0, 0),
            Transform::Untransformed,
            Seq::empty(),
            Seq::empty(),
            NearbyChildren::NoChildren,
        ) == element_start(context, nv));
    }
    create_element(context, children, rendered)
}

/// The node of a document root: the element finalised as a single
/// element; when it carries style rules, they become its stylesheet, with
/// the static one unless the options leave it out.
pub open spec fn root_node(opts: Seq<crate::options::Opt>, attrs: Seq<AttributeV>, child: ElementV) -> NodeV {
    let o = crate::options::combined_opts(opts);
    match element_spec(LayoutContext::AsEl, NodeNameV::Generic, attrs, ElementKidsV::Unkeyed(seq![child])) {
        ElementV::Unstyled(a) => finalized(
            a.has,
            a.node,
            a.attributes,
            a.children,
            embed_or_none(a.embed_mode),
            LayoutContext::AsEl,
        ),
        ElementV::Styled(ss, a) => finalized(
            a.has,
            a.node,
            a.attributes,
            a.children,
            if o.mode == crate::options::RenderMode::NoStaicStyleSheet {
                EmbedV::OnlyDynamic(o, ss)
            } else {
                EmbedV::StaticRootAndynamic(o, ss)
            },
            LayoutContext::AsEl,
        ),
        ElementV::Text(t) => text_node(t, false),
        ElementV::Empty => text_node(Seq::empty(), false),
    }
}

/// The node of a document root, with its stylesheets.
#[verifier::rlimit(40)]
pub fn render_root(opts: Vec<crate::options::Opt>, attrs: Vec<Attribute>, child: Element) -> (r: Node)
    ensures
        r@ == root_node(opts@, attributes_view(attrs@), child@),
{
    let opts = crate::options::OptStruct::from_opts(opts);
    let ghost cv = child@;
    let kids = vec![child];
    proof {
        assert(element_kids(Children::Unkeyed(kids)) == ElementKidsV::Unkeyed(seq![cv])) by {
            assert(kids@.map_values(|e: Element| e@) =~= seq![cv]);
        }
    }
    let el = element(LayoutContext::AsEl, NodeName::Generic, attrs, Children::Unkeyed(kids));
    match el {
        Element::Unstyled(a) => crate::finalize::finalize_node(
            a.has,
            a.node,
            a.attributes,
            a.children,
            take_embed(a.embed_mode),
            LayoutContext::AsEl,
        ),
        Element::Styled(s) => {
            let Styled { styles, html } = s;
            let embed = match opts.mode {
                crate::options::RenderMode::NoStaicStyleSheet => EmbedStyle::OnlyDynamic(opts, styles),
                _ => EmbedStyle::StaticRootAndynamic(opts, styles),
            };
            crate::finalize::finalize_node(
                html.has,
                html.node,
                html.attributes,
                html.children,
                embed,
                LayoutContext::AsEl,
            )
        },
        Element::Text(txt) => text_element(&txt),
        Element::Empty => text_element(&String::new()),
    }
}

} // verus!
