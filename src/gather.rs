use vstd::prelude::*;

use crate::classes::{layout_class, Classes};
use crate::finalize::{div_v, finalize_node, finalized};
use crate::flag::{Field, Flag};
use crate::length::{length_rendering, Length};
use crate::model::{
    embed_view, Attribute, AttributeV, DescriptionV, ElementV, Element, EmbedStyle,
    EmbedV, HAlign, LayoutContext, Location, NodeName, NodeNameV, VAlign,
    Description,
};
use crate::num::nat_str;
use crate::style::{is_skippable, style_name, skippable, Style, StyleV};
use crate::transform::{compose_spec, transform_class, Transform};
use crate::vdom::{attrs_view, node, node_types_view, node_view, Attribute as HtmlAttribute, Node, NodeType, NodeTypeV, NodeV};

verus! {

pub open spec fn halign_name(x: HAlign) -> Seq<char> {
    Classes::AlignedHorizontally.name() + " "@ + match x {
        HAlign::Left => Classes::AlignLeft.name(),
        HAlign::Right => Classes::AlignRight.name(),
        HAlign::CenterX => Classes::AlignCenterX.name(),
    }
}

pub open spec fn valign_name(y: VAlign) -> Seq<char> {
    Classes::AlignedVertically.name() + " "@ + match y {
        VAlign::Top => Classes::AlignTop.name(),
        VAlign::Bottom => Classes::AlignBottom.name(),
        VAlign::CenterY => Classes::AlignCenterY.name(),
    }
}

fn two_classes(a: Classes, b: Classes) -> (r: String)
    ensures
        r@ == a.name() + " "@ + b.name(),
{
    let mut s = String::from_str(a.to_string());
    s.append(" ");
    s.append(b.to_string());
    s
}

impl HAlign {
    pub fn name(&self) -> (r: String)
        ensures
            r@ == halign_name(*self),
    {
        match self {
            HAlign::Left => two_classes(Classes::AlignedHorizontally, Classes::AlignLeft),
            HAlign::Right => two_classes(Classes::AlignedHorizontally, Classes::AlignRight),
            HAlign::CenterX => two_classes(Classes::AlignedHorizontally, Classes::AlignCenterX),
        }
    }
}

impl VAlign {
    pub fn name(&self) -> (r: String)
        ensures
            r@ == valign_name(*self),
    {
        match self {
            VAlign::Top => two_classes(Classes::AlignedVertically, Classes::AlignTop),
            VAlign::Bottom => two_classes(Classes::AlignedVertically, Classes::AlignBottom),
            VAlign::CenterY => two_classes(Classes::AlignedVertically, Classes::AlignCenterY),
        }
    }
}

/// A tag name with one more tag: a plain element takes it, a named one
/// wraps it, an embedded one stays as it is.
pub open spec fn name_added(n: NodeNameV, tag: Seq<char>) -> NodeNameV {
    match n {
        NodeNameV::Generic => NodeNameV::NodeName(tag),
        NodeNameV::NodeName(a) => NodeNameV::Embedded(a, tag),
        NodeNameV::Embedded(_, _) => n,
    }
}

impl NodeName {
    pub fn div() -> (r: NodeName)
        ensures
            r@ == NodeNameV::Generic,
    {
        NodeName::Generic
    }

    pub fn add(self, new_node: String) -> (r: NodeName)
        ensures
            r@ == name_added(self@, new_node@),
    {
        match self {
            NodeName::Generic => NodeName::NodeName(new_node),
            NodeName::NodeName(name) => NodeName::Embedded(name, new_node),
            NodeName::Embedded(_, _) => self,
        }
    }
}

pub fn div() -> (r: NodeName)
    ensures
        r@ == NodeNameV::Generic,
{
    NodeName::div()
}

/// The class list of a layout context.
pub open spec fn context_class(c: LayoutContext) -> Seq<char> {
    match c {
        LayoutContext::AsRow => layout_class(Classes::Row),
        LayoutContext::AsColumn => layout_class(Classes::Column),
        LayoutContext::AsEl => layout_class(Classes::Single),
        LayoutContext::AsGrid => layout_class(Classes::Grid),
        LayoutContext::AsParagraph => layout_class(Classes::Paragraph),
        LayoutContext::AsTextColumn => layout_class(Classes::Page),
    }
}

pub fn context_classes(context: &LayoutContext) -> (r: String)
    ensures
        r@ == context_class(*context),
{
    match context {
        LayoutContext::AsRow => crate::classes::row_class(),
        LayoutContext::AsColumn => crate::classes::column_class(),
        LayoutContext::AsEl => crate::classes::single_class(),
        LayoutContext::AsGrid => crate::classes::grid_class(),
        LayoutContext::AsParagraph => crate::classes::paragraph_class(),
        LayoutContext::AsTextColumn => crate::classes::page_class(),
    }
}

pub open spec fn text_classes(fill: bool) -> Seq<char> {
    Classes::Any.name() + " "@ + Classes::Text.name() + " "@ + if fill {
        Classes::WidthFill.name() + " "@ + Classes::HeightFill.name()
    } else {
        Classes::WidthContent.name() + " "@ + Classes::HeightContent.name()
    }
}

/// A text in a `div` that takes its content's size, or fills the space.
pub open spec fn text_node(t: Seq<char>, fill: bool) -> NodeV {
    div_v(seq![text_classes(fill)], seq![NodeTypeV::Text(t)])
}

fn text_classes_text(fill: bool) -> (r: String)
    ensures
        r@ == text_classes(fill),
{
    let mut s = String::from_str(Classes::Any.to_string());
    s.append(" ");
    s.append(Classes::Text.to_string());
    s.append(" ");
    if fill {
        s.append(Classes::WidthFill.to_string());
        s.append(" ");
        s.append(Classes::HeightFill.to_string());
    } else {
        s.append(Classes::WidthContent.to_string());
        s.append(" ");
        s.append(Classes::HeightContent.to_string());
    }
    s
}

pub fn text_element_classes() -> (r: String)
    ensures
        r@ == text_classes(false),
{
    text_classes_text(false)
}

pub fn text_element_fill_classes() -> (r: String)
    ensures
        r@ == text_classes(true),
{
    text_classes_text(true)
}

fn text_in_div(txt: &String, fill: bool) -> (r: Node)
    ensures
        r@ == text_node(txt@, fill),
{
    let attrs = vec![HtmlAttribute(text_classes_text(fill))];
    proof {
        assert(attrs_view(attrs@) =~= seq![text_classes(fill)]);
    }
    let kids = vec![NodeType::Text(txt.clone())];
    proof {
        assert(node_types_view(kids@) =~= seq![NodeTypeV::Text(txt@)]);
    }
    node(String::from_str("div"), attrs, kids)
}

pub fn text_element(txt: &String) -> (r: Node)
    ensures
        r@ == text_node(txt@, false),
{
    text_in_div(txt, false)
}

pub fn text_element_fill(txt: &String) -> (r: Node)
    ensures
        r@ == text_node(txt@, true),
{
    text_in_div(txt, true)
}

pub open spec fn location_class(loc: Location) -> Classes {
    match loc {
        Location::Above => Classes::Above,
        Location::Below => Classes::Below,
        Location::OnRight => Classes::OnRight,
        Location::OnLeft => Classes::OnLeft,
        Location::InFront => Classes::InFront,
        Location::Behind => Classes::Behind,
    }
}

/// The embedding an element asks for; none when it does not say.
pub open spec fn embed_or_none(e: Option<EmbedV>) -> EmbedV {
    match e {
        Some(x) => x,
        None => EmbedV::NoStyleSheet,
    }
}

/// The node of a nearby element: the element finalised as a single
/// element, in a `div` placed by its location.
pub open spec fn nearby_node(loc: Location, el: ElementV) -> NodeV {
    let item = match el {
        ElementV::Empty => text_node(Seq::empty(), false),
        ElementV::Text(s) => text_node(s, false),
        ElementV::Unstyled(a) => finalized(
            a.has,
            a.node,
            a.attributes,
            a.children,
            embed_or_none(a.embed_mode),
            LayoutContext::AsEl,
        ),
        ElementV::Styled(_, a) => finalized(
            a.has,
            a.node,
            a.attributes,
            a.children,
            EmbedV::NoStyleSheet,
            LayoutContext::AsEl,
        ),
    };
    div_v(
        seq![Classes::Nearby.name() + " "@ + Classes::Single.name() + " "@ + location_class(loc).name()],
        seq![NodeTypeV::Node(item)],
    )
}

fn location_str(loc: &Location) -> (r: &'static str)
    ensures
        r@ == location_class(*loc).name(),
{
    match loc {
        Location::Above => Classes::Above.to_string(),
        Location::Below => Classes::Below.to_string(),
        Location::OnRight => Classes::OnRight.to_string(),
        Location::OnLeft => Classes::OnLeft.to_string(),
        Location::InFront => Classes::InFront.to_string(),
        Location::Behind => Classes::Behind.to_string(),
    }
}

fn take_embed(e: Option<EmbedStyle>) -> (r: EmbedStyle)
    ensures
        embed_view(r) == embed_or_none(
            match e {
                Some(x) => Some(embed_view(x)),
                None => None,
            },
        ),
{
    match e {
        Some(x) => x,
        None => EmbedStyle::NoStyleSheet,
    }
}

/// The node of a nearby element.
pub fn nearby_el(loc: &Location, el: Element) -> (r: Node)
    ensures
        r@ == nearby_node(*loc, el@),
{
    let mut cls = String::from_str(Classes::Nearby.to_string());
    cls.append(" ");
    cls.append(Classes::Single.to_string());
    cls.append(" ");
    cls.append(location_str(loc));
    let attrs = vec![HtmlAttribute(cls)];
    proof {
        assert(attrs_view(attrs@) =~= seq![
            Classes::Nearby.name() + " "@ + Classes::Single.name() + " "@ + location_class(*loc).name(),
        ]);
    }
    let item = match el {
        Element::Empty => text_element(&String::new()),
        Element::Text(s) => text_element(&s),
        Element::Unstyled(a) => finalize_node(
            a.has,
            a.node,
            a.attributes,
            a.children,
            take_embed(a.embed_mode),
            LayoutContext::AsEl,
        ),
        Element::Styled(s) => finalize_node(
            s.html.has,
            s.html.node,
            s.html.attributes,
            s.html.children,
            EmbedStyle::NoStyleSheet,
            LayoutContext::AsEl,
        ),
    };
    let kids = vec![NodeType::Node(item)];
    proof {
        assert(node_types_view(kids@) =~= seq![NodeTypeV::Node(item@)]);
    }
    node(String::from_str("div"), attrs, kids)
}

/// Nearby elements gathered for an element, by the side of the content
/// they go on.
pub enum NearbyChildren {
    NoChildren,
    Behind(Vec<Node>),
    InFront(Vec<Node>),
    Both(NearbyChildrenBoth),
}

pub struct NearbyChildrenBoth {
    pub behind: Vec<Node>,
    pub in_front: Vec<Node>,
}

pub open spec fn nodes_v(v: Seq<Node>) -> Seq<NodeV> {
    v.map_values(|n: Node| node_view(n))
}

/// The nodes behind the content.
pub open spec fn behind_of(c: NearbyChildren) -> Seq<NodeV> {
    match c {
        NearbyChildren::Behind(b) => nodes_v(b@),
        NearbyChildren::Both(both) => nodes_v(both.behind@),
        _ => Seq::empty(),
    }
}

/// The nodes in front of the content.
pub open spec fn in_front_of(c: NearbyChildren) -> Seq<NodeV> {
    match c {
        NearbyChildren::InFront(f) => nodes_v(f@),
        NearbyChildren::Both(both) => nodes_v(both.in_front@),
        _ => Seq::empty(),
    }
}

fn prepend_node(n: Node, v: Vec<Node>) -> (r: Vec<Node>)
    ensures
        nodes_v(r@) == seq![node_view(n)] + nodes_v(v@),
{
    let ghost old_v = v@;
    let mut r = vec![n];
    let mut v = v;
    r.append(&mut v);
    proof {
        assert(nodes_v(r@) =~= seq![node_view(n)] + nodes_v(old_v));
    }
    r
}

fn empty_nodes() -> (r: Vec<Node>)
    ensures
        nodes_v(r@) == Seq::<NodeV>::empty(),
{
    let r: Vec<Node> = Vec::new();
    proof {
        assert(nodes_v(r@) =~= Seq::<NodeV>::empty());
    }
    r
}

impl NearbyChildren {
    /// One more nearby element: behind the content when so placed, in front
    /// otherwise; the newest goes first on its side.
    pub fn add_nearby_el(self, loc: &Location, el: Element) -> (r: Self)
        ensures
            *loc == Location::Behind ==> behind_of(r) == seq![nearby_node(*loc, el@)] + behind_of(self)
                && in_front_of(r) == in_front_of(self),
            *loc != Location::Behind ==> in_front_of(r) == seq![nearby_node(*loc, el@)]
                + in_front_of(self) && behind_of(r) == behind_of(self),
    {
        let nearby = nearby_el(loc, el);
        let is_behind = match loc {
            Location::Behind => true,
            _ => false,
        };
        let (behind, in_front) = match self {
            NearbyChildren::NoChildren => (empty_nodes(), empty_nodes()),
            NearbyChildren::Behind(b) => (b, empty_nodes()),
            NearbyChildren::InFront(f) => (empty_nodes(), f),
            NearbyChildren::Both(both) => (both.behind, both.in_front),
        };
        if is_behind {
            let b = prepend_node(nearby, behind);
            if in_front.len() == 0 {
                proof {
                    assert(nodes_v(in_front@) =~= Seq::<NodeV>::empty());
                }
                NearbyChildren::Behind(b)
            } else {
                NearbyChildren::Both(NearbyChildrenBoth { behind: b, in_front })
            }
        } else {
            let f = prepend_node(nearby, in_front);
            if behind.len() == 0 {
                proof {
                    assert(nodes_v(behind@) =~= Seq::<NodeV>::empty());
                }
                NearbyChildren::InFront(f)
            } else {
                NearbyChildren::Both(NearbyChildrenBoth { behind, in_front: f })
            }
        }
    }
}

/// What gathering an element's attributes yields.
pub struct Gathered {
    pub node: NodeName,
    pub attrs: Vec<HtmlAttribute>,
    pub styles: Vec<Style>,
    pub children: NearbyChildren,
    pub has: Field,
}

/// The state of gathering: class names so far, tag name, flags set,
/// transform, style rules, raw attributes, and nearby nodes on each side.
pub struct GatherState {
    pub classes: Seq<char>,
    pub node: NodeNameV,
    pub has: Field,
    pub transform: Transform,
    pub styles: Seq<StyleV>,
    pub attrs: Seq<Seq<char>>,
    pub behind: Seq<NodeV>,
    pub in_front: Seq<NodeV>,
}

/// The state with one more raw attribute first.
pub open spec fn with_attr(st: GatherState, a: Seq<char>) -> GatherState {
    GatherState { attrs: seq![a] + st.attrs, ..st }
}

/// The tag a heading level asks for, held to `h1` to `h6`.
pub open spec fn heading_tag(i: u64) -> Seq<char> {
    if i <= 1 {
        "h1"@
    } else if i < 7 {
        "h"@ + nat_str(i as nat)
    } else {
        "h6"@
    }
}

/// One attribute applied to the state. A flagged attribute whose flag is
/// already set changes nothing; transform components always compose.
pub open spec fn gather_step(st: GatherState, a: AttributeV) -> GatherState {
    match a {
        AttributeV::NoAttribute => st,
        AttributeV::Class(flag, c) => if st.has.has(flag) {
            st
        } else {
            GatherState { classes: c + " "@ + st.classes, has: st.has.with(flag), ..st }
        },
        AttributeV::Attr(x) => with_attr(st, x),
        AttributeV::Style(flag, s) => if st.has.has(flag) {
            st
        } else if is_skippable(flag, s) {
            GatherState { classes: style_name(s) + " "@ + st.classes, has: st.has.with(flag), ..st }
        } else {
            GatherState {
                classes: style_name(s) + " "@ + st.classes,
                has: st.has.with(flag),
                styles: seq![s] + st.styles,
                ..st
            }
        },
        AttributeV::TransformComponent(flag, c) => GatherState {
            transform: compose_spec(st.transform, c),
            has: st.has.with(flag),
            ..st
        },
        AttributeV::Width(l) => if st.has.has(Flag::spec_from(6)) {
            st
        } else {
            let (f, cls, ss) = length_rendering(l, true);
            let h = st.has.with(Flag::spec_from(6));
            GatherState {
                classes: cls + " "@ + st.classes,
                has: Field(h.0 | f.0, h.1 | f.1),
                styles: ss + st.styles,
                ..st
            }
        },
        AttributeV::Height(l) => if st.has.has(Flag::spec_from(7)) {
            st
        } else {
            let (f, cls, ss) = length_rendering(l, false);
            let h = st.has.with(Flag::spec_from(7));
            GatherState {
                classes: cls + " "@ + st.classes,
                has: Field(h.0 | f.0, h.1 | f.1),
                styles: ss + st.styles,
                ..st
            }
        },
        AttributeV::Describe(d) => match d {
            DescriptionV::Main => GatherState { node: name_added(st.node, "main"@), ..st },
            DescriptionV::Navigation => GatherState { node: name_added(st.node, "nav"@), ..st },
            DescriptionV::ContentInfo => GatherState { node: name_added(st.node, "footer"@), ..st },
            DescriptionV::Complementary => GatherState { node: name_added(st.node, "aside"@), ..st },
            DescriptionV::Heading(i) => GatherState { node: name_added(st.node, heading_tag(i)), ..st },
            DescriptionV::Paragraph => st,
            DescriptionV::Button => with_attr(st, "role=button"@),
            DescriptionV::Label(l) => with_attr(st, "aria-label="@ + l),
            DescriptionV::LivePolite => with_attr(st, "aria-live=polite"@),
            DescriptionV::LiveAssertive => with_attr(st, "aria-live=assertive"@),
        },
        AttributeV::Nearby(loc, el) => {
            let styles = match el {
                ElementV::Styled(ss, _) => st.styles + ss,
                _ => st.styles,
            };
            if loc == Location::Behind {
                GatherState { styles, behind: seq![nearby_node(loc, el)] + st.behind, ..st }
            } else {
                GatherState { styles, in_front: seq![nearby_node(loc, el)] + st.in_front, ..st }
            }
        },
        AttributeV::AlignX(x) => if st.has.has(Flag::spec_from(30)) {
            st
        } else {
            let h = st.has.with(Flag::spec_from(30));
            let h2 = match x {
                HAlign::CenterX => h.with(Flag::spec_from(42)),
                HAlign::Right => h.with(Flag::spec_from(40)),
                HAlign::Left => h,
            };
            GatherState { classes: halign_name(x) + " "@ + st.classes, has: h2, ..st }
        },
        AttributeV::AlignY(y) => if st.has.has(Flag::spec_from(29)) {
            st
        } else {
            let h = st.has.with(Flag::spec_from(29));
            let h2 = match y {
                VAlign::CenterY => h.with(Flag::spec_from(43)),
                VAlign::Bottom => h.with(Flag::spec_from(41)),
                VAlign::Top => h,
            };
            GatherState { classes: valign_name(y) + " "@ + st.classes, has: h2, ..st }
        },
    }
}

/// The attributes applied in order.
pub open spec fn gather_fold(st: GatherState, attrs: Seq<AttributeV>) -> GatherState
    decreases attrs.len(),
{
    if attrs.len() == 0 {
        st
    } else {
        gather_step(gather_fold(st, attrs.drop_last()), attrs.last())
    }
}

/// The class attribute with the transform's class, when there is a
/// transform.
pub open spec fn final_attrs(st: GatherState) -> Seq<Seq<char>> {
    match transform_class(st.transform) {
        None => seq![st.classes] + st.attrs,
        Some(c) => seq![st.classes + " "@ + c] + st.attrs,
    }
}

/// The style rules with the transform's rule first, when there is a
/// transform.
pub open spec fn final_styles(st: GatherState) -> Seq<StyleV> {
    match transform_class(st.transform) {
        None => st.styles,
        Some(_) => seq![StyleV::Transform(st.transform)] + st.styles,
    }
}

pub open spec fn gathered_matches(g: Gathered, st: GatherState) -> bool {
    &&& g.node@ == st.node
    &&& attrs_view(g.attrs@) == final_attrs(st)
    &&& crate::reduce::style_views(g.styles@) == final_styles(st)
    &&& behind_of(g.children) == st.behind
    &&& in_front_of(g.children) == st.in_front
    &&& g.has == st.has
}

/// The accumulator threaded through gathering.
struct Acc {
    classes: String,
    node: NodeName,
    has: Field,
    transform: Transform,
    styles: Vec<Style>,
    attrs: Vec<HtmlAttribute>,
    children: NearbyChildren,
}

spec fn acc_state(a: Acc) -> GatherState {
    GatherState {
        classes: a.classes@,
        node: a.node@,
        has: a.has,
        transform: a.transform,
        styles: crate::reduce::style_views(a.styles@),
        attrs: attrs_view(a.attrs@),
        behind: behind_of(a.children),
        in_front: in_front_of(a.children),
    }
}

fn prefix_class(name: &String, classes: String) -> (r: String)
    ensures
        r@ == name@ + " "@ + classes@,
{
    let mut s = name.clone();
    s.append(" ");
    s.append(classes.as_str());
    s
}

fn prepend_attr(a: HtmlAttribute, attrs: Vec<HtmlAttribute>) -> (r: Vec<HtmlAttribute>)
    ensures
        attrs_view(r@) == seq![a@] + attrs_view(attrs@),
{
    let ghost old_v = attrs@;
    let mut r = vec![a];
    let mut attrs = attrs;
    r.append(&mut attrs);
    proof {
        assert(attrs_view(r@) =~= seq![a@] + attrs_view(old_v));
    }
    r
}

fn prepend_styles(first: Vec<Style>, rest: Vec<Style>) -> (r: Vec<Style>)
    ensures
        crate::reduce::style_views(r@) == crate::reduce::style_views(first@)
            + crate::reduce::style_views(rest@),
{
    let ghost a = first@;
    let ghost b = rest@;
    let mut r = first;
    let mut rest = rest;
    r.append(&mut rest);
    proof {
        assert(crate::reduce::style_views(r@) =~= crate::reduce::style_views(a)
            + crate::reduce::style_views(b));
    }
    r
}

#[verifier::rlimit(40)]
fn describe(acc: Acc, d: Description) -> (r: Acc)
    ensures
        acc_state(r) == gather_step(acc_state(acc), AttributeV::Describe(d@)),
{
    let Acc { classes, node, has, transform, styles, attrs, children } = acc;
    match d {
        Description::Main => Acc { node: node.add(String::from_str("main")), classes, has, transform, styles, attrs, children },
        Description::Navigation => Acc { node: node.add(String::from_str("nav")), classes, has, transform, styles, attrs, children },
        Description::ContentInfo => Acc { node: node.add(String::from_str("footer")), classes, has, transform, styles, attrs, children },
        Description::Complementary => Acc { node: node.add(String::from_str("aside")), classes, has, transform, styles, attrs, children },
        Description::Heading(i) => {
            let tag = if i <= 1 {
                String::from_str("h1")
            } else if i < 7 {
                let mut t = String::from_str("h");
                let n = crate::num::u64_str(i);
                t.append(n.as_str());
                t
            } else {
                String::from_str("h6")
            };
            Acc { node: node.add(tag), classes, has, transform, styles, attrs, children }
        },
        Description::Paragraph => Acc { classes, node, has, transform, styles, attrs, children },
        Description::Button => Acc {
            attrs: prepend_attr(HtmlAttribute(String::from_str("role=button")), attrs),
            classes,
            node,
            has,
            transform,
            styles,
            children,
        },
        Description::Label(label) => {
            let mut a = String::from_str("aria-label=");
            a.append(label.as_str());
            Acc { attrs: prepend_attr(HtmlAttribute(a), attrs), classes, node, has, transform, styles, children }
        },
        Description::LivePolite => Acc {
            attrs: prepend_attr(HtmlAttribute(String::from_str("aria-live=polite")), attrs),
            classes,
            node,
            has,
            transform,
            styles,
            children,
        },
        Description::LiveAssertive => Acc {
            attrs: prepend_attr(HtmlAttribute(String::from_str("aria-live=assertive")), attrs),
            classes,
            node,
            has,
            transform,
            styles,
            children,
        },
    }
}

#[verifier::rlimit(40)]
fn sized(acc: Acc, l: Length, horizontal: bool) -> (r: Acc)
    ensures
        acc_state(r) == gather_step(
            acc_state(acc),
            if horizontal {
                AttributeV::Width(l)
            } else {
                AttributeV::Height(l)
            },
        ),
{
    let flag = if horizontal {
        Flag::width()
    } else {
        Flag::height()
    };
    if acc.has.present(&flag) {
        return acc;
    }
    let Acc { classes, node, has, transform, styles, attrs, children } = acc;
    let (add_to_flags, new_class, new_styles) = l.render(horizontal);
    let mut has = has;
    has.add(&flag);
    has.merge(add_to_flags);
    Acc {
        classes: prefix_class(&new_class, classes),
        styles: prepend_styles(new_styles, styles),
        has,
        node,
        transform,
        attrs,
        children,
    }
}

fn clone_styles(v: &Vec<Style>) -> (r: Vec<Style>)
    ensures
        crate::reduce::style_views(r@) == crate::reduce::style_views(v@),
{
    let r = v.clone();
    proof {
        assert(crate::reduce::style_views(r@) =~= crate::reduce::style_views(v@));
    }
    r
}

#[verifier::rlimit(40)]
fn style_attr(acc: Acc, flag: Flag, style: Style) -> (r: Acc)
    ensures
        acc_state(r) == gather_step(acc_state(acc), AttributeV::Style(flag, style@)),
{
    if acc.has.present(&flag) {
        return acc;
    }
    let Acc { classes, node, has, transform, styles, attrs, children } = acc;
    let mut has = has;
    let name = style.name();
    has.add(&flag);
    if skippable(&flag, &style) {
        Acc { classes: prefix_class(&name, classes), has, node, transform, styles, attrs, children }
    } else {
        let ghost sv = style@;
        let first = vec![style];
        proof {
            assert(crate::reduce::style_views(first@) =~= seq![sv]);
        }
        let styles = prepend_styles(first, styles);
        Acc { classes: prefix_class(&name, classes), has, styles, node, transform, attrs, children }
    }
}

#[verifier::rlimit(40)]
fn nearby_attr(acc: Acc, loc: Location, el: Element) -> (r: Acc)
    ensures
        acc_state(r) == gather_step(acc_state(acc), AttributeV::Nearby(loc, el@)),
{
    let Acc { classes, node, has, transform, styles, attrs, children } = acc;
    let styles = match &el {
        Element::Styled(styled) => prepend_styles(styles, clone_styles(&styled.styles)),
        _ => styles,
    };
    let children = children.add_nearby_el(&loc, el);
    Acc { styles, children, classes, node, has, transform, attrs }
}

fn align_x_attr(acc: Acc, x: HAlign) -> (r: Acc)
    ensures
        acc_state(r) == gather_step(acc_state(acc), AttributeV::AlignX(x)),
{
    if acc.has.present(&Flag::align_x()) {
        return acc;
    }
    let Acc { classes, node, has, transform, styles, attrs, children } = acc;
    let mut has = has;
    has.add(&Flag::align_x());
    match x {
        HAlign::CenterX => has.add(&Flag::center_x()),
        HAlign::Right => has.add(&Flag::align_right()),
        HAlign::Left => {},
    }
    Acc { classes: prefix_class(&x.name(), classes), has, node, transform, styles, attrs, children }
}

fn align_y_attr(acc: Acc, y: VAlign) -> (r: Acc)
    ensures
        acc_state(r) == gather_step(acc_state(acc), AttributeV::AlignY(y)),
{
    if acc.has.present(&Flag::align_y()) {
        return acc;
    }
    let Acc { classes, node, has, transform, styles, attrs, children } = acc;
    let mut has = has;
    has.add(&Flag::align_y());
    match y {
        VAlign::CenterY => has.add(&Flag::center_y()),
        VAlign::Bottom => has.add(&Flag::align_bottom()),
        VAlign::Top => {},
    }
    Acc { classes: prefix_class(&y.name(), classes), has, node, transform, styles, attrs, children }
}

#[verifier::rlimit(40)]
fn apply(acc: Acc, attribute: Attribute) -> (r: Acc)
    ensures
        acc_state(r) == gather_step(acc_state(acc), attribute@),
{
    match attribute {
        Attribute::NoAttribute => acc,
        Attribute::Class(flag, exact_class_name) => {
            if acc.has.present(&flag) {
                acc
            } else {
                let Acc { classes, node, has, transform, styles, attrs, children } = acc;
                let mut has = has;
                has.add(&flag);
                Acc { classes: prefix_class(&exact_class_name, classes), has, node, transform, styles, attrs, children }
            }
        },
        Attribute::Attr(a) => {
            let Acc { classes, node, has, transform, styles, attrs, children } = acc;
            Acc { attrs: prepend_attr(a, attrs), classes, node, has, transform, styles, children }
        },
        Attribute::Style(flag, style) => style_attr(acc, flag, style),
        Attribute::TransformComponent(flag, component) => {
            let Acc { classes, node, has, transform, styles, attrs, children } = acc;
            let mut has = has;
            has.add(&flag);
            Acc { transform: transform.compose(&component), has, classes, node, styles, attrs, children }
        },
        Attribute::Width(width) => sized(acc, width, true),
        Attribute::Height(height) => sized(acc, height, false),
        Attribute::Describe(description) => describe(acc, description),
        Attribute::Nearby(loc, el) => nearby_attr(acc, loc, el),
        Attribute::AlignX(x) => align_x_attr(acc, x),
        Attribute::AlignY(y) => align_y_attr(acc, y),
    }
}

/// The attributes in reverse order, moved.
fn reversed_attrs(v: Vec<Attribute>) -> (r: Vec<Attribute>)
    ensures
        r.len() == v.len(),
        forall|j: int| 0 <= j < v.len() ==> #[trigger] r@[j] == v@[v.len() - 1 - j],
{
    let ghost orig = v@;
    let mut v = v;
    let mut rev: Vec<Attribute> = Vec::new();
    while v.len() > 0
        invariant
            v@ == orig.take(v.len() as int),
            v.len() + rev.len() == orig.len(),
            forall|j: int| 0 <= j < rev.len() ==> #[trigger] rev@[j] == orig[orig.len() - 1 - j],
        decreases v.len(),
    {
        let a = v.pop().unwrap();
        proof {
            assert(a == orig[v.len() as int]);
        }
        rev.push(a);
        proof {
            assert(v@ =~= orig.take(v.len() as int));
        }
    }
    rev
}

/// The state gathering starts from.
pub open spec fn start_state(
    classes: Seq<char>,
    node: NodeNameV,
    has: Field,
    transform: Transform,
    styles: Seq<StyleV>,
    attrs: Seq<Seq<char>>,
    children: NearbyChildren,
) -> GatherState {
    GatherState {
        classes,
        node,
        has,
        transform,
        styles,
        attrs,
        behind: behind_of(children),
        in_front: in_front_of(children),
    }
}

/// Gather the attributes, first to last: each flagged attribute whose flag
/// is already set is left out; then the transform is folded into the class
/// list and the style rules.
#[verifier::rlimit(40)]
pub fn gather_attr_recursive(
    classes: String,
    node: NodeName,
    has: Field,
    transform: Transform,
    styles: Vec<Style>,
    attrs: Vec<HtmlAttribute>,
    children: NearbyChildren,
    element_attrs: Vec<Attribute>,
) -> (r: Gathered)
    ensures
        gathered_matches(
            r,
            gather_fold(
                start_state(
                    classes@,
                    node@,
                    has,
                    transform,
                    crate::reduce::style_views(styles@),
                    attrs_view(attrs@),
                    children,
                ),
                crate::model::attributes_view(element_attrs@),
            ),
        ),
{
    let ghost st0 = start_state(
        classes@,
        node@,
        has,
        transform,
        crate::reduce::style_views(styles@),
        attrs_view(attrs@),
        children,
    );
    let ghost av = crate::model::attributes_view(element_attrs@);
    let ghost n = element_attrs.len();
    let mut rev = reversed_attrs(element_attrs);
    let mut acc = Acc { classes, node, has, transform, styles, attrs, children };
    proof {
        assert(av.take(0) =~= Seq::<AttributeV>::empty());
    }
    while rev.len() > 0
        invariant
            rev.len() <= n,
            n == av.len(),
            forall|j: int| 0 <= j < rev.len() ==> #[trigger] rev@[j]@ == av[n - 1 - j],
            acc_state(acc) == gather_fold(st0, av.take(n - rev.len())),
        decreases rev.len(),
    {
        let ghost i = n - rev.len();
        let a = rev.pop().unwrap();
        proof {
            assert(a@ == av[i]);
            assert(av.take(i + 1).drop_last() =~= av.take(i));
        }
        acc = apply(acc, a);
    }
    proof {
        assert(av.take(n as int) =~= av);
    }
    let Acc { classes, node, has, transform, styles, attrs, children } = acc;
    match transform.class() {
        None => {
            let attrs = prepend_attr(HtmlAttribute(classes), attrs);
            Gathered { attrs, styles, node, children, has }
        },
        Some(cls) => {
            let mut c = classes;
            c.append(" ");
            c.append(cls.as_str());
            let attrs = prepend_attr(HtmlAttribute(c), attrs);
            let first = vec![Style::Transform(transform)];
            proof {
                assert(crate::reduce::style_views(first@) =~= seq![StyleV::Transform(transform)]);
            }
            let styles = prepend_styles(first, styles);
            Gathered { attrs, styles, node, children, has }
        },
    }
}

} // verus!
