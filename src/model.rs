use vstd::prelude::*;

use crate::flag::{Field, Flag};
use crate::length::Length;
use crate::options::OptStruct;
use crate::style::{Style, StyleV};
use crate::transform::TransformComponent;
use crate::vdom::{attrs_view, node_view, Attribute as HtmlAttribute, Node, NodeV};

verus! {

/// The layout an element takes part in, as its parent lays it out.
#[derive(Debug, PartialEq, Eq, Structural, Clone, Copy)]
pub enum LayoutContext {
    AsRow,
    AsColumn,
    AsEl,
    AsGrid,
    AsParagraph,
    AsTextColumn,
}

#[derive(Debug, PartialEq, Eq, Structural, Clone, Copy)]
pub enum HAlign {
    Left,
    CenterX,
    Right,
}

#[derive(Debug, PartialEq, Eq, Structural, Clone, Copy)]
pub enum VAlign {
    Top,
    CenterY,
    Bottom,
}

#[derive(Debug, PartialEq, Eq, Clone, Copy)]
pub enum Aligned {
    Unaligned,
    Aligned(Option<HAlign>, Option<VAlign>),
}

#[derive(Debug, PartialEq, Eq, Structural, Clone, Copy)]
pub enum Axis {
    X,
    Y,
    All,
}

/// Where a nearby element is placed.
#[derive(Debug, PartialEq, Eq, Structural, Clone, Copy)]
pub enum Location {
    Above,
    Below,
    OnRight,
    OnLeft,
    InFront,
    Behind,
}

/// A semantic description of an element.
pub enum Description {
    Main,
    Navigation,
    ContentInfo,
    Complementary,
    Heading(u64),
    Label(String),
    LivePolite,
    LiveAssertive,
    Button,
    Paragraph,
}

pub enum DescriptionV {
    Main,
    Navigation,
    ContentInfo,
    Complementary,
    Heading(u64),
    Label(Seq<char>),
    LivePolite,
    LiveAssertive,
    Button,
    Paragraph,
}

impl View for Description {
    type V = DescriptionV;

    open spec fn view(&self) -> DescriptionV {
        match self {
            Description::Main => DescriptionV::Main,
            Description::Navigation => DescriptionV::Navigation,
            Description::ContentInfo => DescriptionV::ContentInfo,
            Description::Complementary => DescriptionV::Complementary,
            Description::Heading(i) => DescriptionV::Heading(*i),
            Description::Label(l) => DescriptionV::Label(l@),
            Description::LivePolite => DescriptionV::LivePolite,
            Description::LiveAssertive => DescriptionV::LiveAssertive,
            Description::Button => DescriptionV::Button,
            Description::Paragraph => DescriptionV::Paragraph,
        }
    }
}

/// The tag an element renders as: a plain `div`, a named tag, or a named
/// tag wrapping an inner named tag.
pub enum NodeName {
    Generic,
    NodeName(String),
    Embedded(String, String),
}

pub enum NodeNameV {
    Generic,
    NodeName(Seq<char>),
    Embedded(Seq<char>, Seq<char>),
}

impl View for NodeName {
    type V = NodeNameV;

    open spec fn view(&self) -> NodeNameV {
        match self {
            NodeName::Generic => NodeNameV::Generic,
            NodeName::NodeName(n) => NodeNameV::NodeName(n@),
            NodeName::Embedded(a, b) => NodeNameV::Embedded(a@, b@),
        }
    }
}

/// Children of an element: in order, or in order with a key each.
pub enum Children<C> {
    Unkeyed(Vec<C>),
    Keyed(Vec<(String, C)>),
}

pub enum KidsV {
    Unkeyed(Seq<NodeV>),
    Keyed(Seq<(Seq<char>, NodeV)>),
}

pub open spec fn kids_view(c: Children<Node>) -> KidsV {
    match c {
        Children::Unkeyed(v) => KidsV::Unkeyed(v@.map_values(|n: Node| node_view(n))),
        Children::Keyed(v) => KidsV::Keyed(v@.map_values(|p: (String, Node)| (p.0@, node_view(p.1)))),
    }
}

/// Whether, and how, an element embeds the stylesheets.
pub enum EmbedStyle {
    NoStyleSheet,
    StaticRootAndynamic(OptStruct, Vec<Style>),
    OnlyDynamic(OptStruct, Vec<Style>),
}

pub enum EmbedV {
    NoStyleSheet,
    StaticRootAndynamic(OptStruct, Seq<StyleV>),
    OnlyDynamic(OptStruct, Seq<StyleV>),
}

pub open spec fn embed_view(e: EmbedStyle) -> EmbedV {
    match e {
        EmbedStyle::NoStyleSheet => EmbedV::NoStyleSheet,
        EmbedStyle::StaticRootAndynamic(o, s) => EmbedV::StaticRootAndynamic(o, crate::reduce::style_views(s@)),
        EmbedStyle::OnlyDynamic(o, s) => EmbedV::OnlyDynamic(o, crate::reduce::style_views(s@)),
    }
}

/// What finalising an element into a node needs.
pub struct FinalizeNodeArgs {
    pub has: Field,
    pub node: NodeName,
    pub attributes: Vec<HtmlAttribute>,
    pub children: Children<Node>,
    pub embed_mode: Option<EmbedStyle>,
}

pub struct ArgsV {
    pub has: Field,
    pub node: NodeNameV,
    pub attributes: Seq<Seq<char>>,
    pub children: KidsV,
    pub embed_mode: Option<EmbedV>,
}

pub open spec fn args_view(a: FinalizeNodeArgs) -> ArgsV {
    ArgsV {
        has: a.has,
        node: a.node@,
        attributes: attrs_view(a.attributes@),
        children: kids_view(a.children),
        embed_mode: match a.embed_mode {
            Some(e) => Some(embed_view(e)),
            None => None,
        },
    }
}

/// An element whose style rules have not yet been hoisted to a stylesheet.
pub struct Styled {
    pub styles: Vec<Style>,
    pub html: FinalizeNodeArgs,
}

/// An element of the layout tree.
pub enum Element {
    Unstyled(FinalizeNodeArgs),
    Styled(Styled),
    Text(String),
    Empty,
}

pub enum ElementV {
    Unstyled(ArgsV),
    Styled(Seq<StyleV>, ArgsV),
    Text(Seq<char>),
    Empty,
}

impl View for Element {
    type V = ElementV;

    open spec fn view(&self) -> ElementV {
        match self {
            Element::Unstyled(a) => ElementV::Unstyled(args_view(*a)),
            Element::Styled(s) => ElementV::Styled(crate::reduce::style_views(s.styles@), args_view(s.html)),
            Element::Text(t) => ElementV::Text(t@),
            Element::Empty => ElementV::Empty,
        }
    }
}

/// One attribute of an element.
pub enum Attribute {
    NoAttribute,
    Attr(HtmlAttribute),
    Describe(Description),
    Class(Flag, String),
    Style(Flag, Style),
    AlignY(VAlign),
    AlignX(HAlign),
    Width(Length),
    Height(Length),
    Nearby(Location, Element),
    TransformComponent(Flag, TransformComponent),
}

pub enum AttributeV {
    NoAttribute,
    Attr(Seq<char>),
    Describe(DescriptionV),
    Class(Flag, Seq<char>),
    Style(Flag, StyleV),
    AlignY(VAlign),
    AlignX(HAlign),
    Width(Length),
    Height(Length),
    Nearby(Location, ElementV),
    TransformComponent(Flag, TransformComponent),
}

impl View for Attribute {
    type V = AttributeV;

    open spec fn view(&self) -> AttributeV {
        match self {
            Attribute::NoAttribute => AttributeV::NoAttribute,
            Attribute::Attr(a) => AttributeV::Attr(a@),
            Attribute::Describe(d) => AttributeV::Describe(d@),
            Attribute::Class(f, c) => AttributeV::Class(*f, c@),
            Attribute::Style(f, s) => AttributeV::Style(*f, s@),
            Attribute::AlignY(y) => AttributeV::AlignY(*y),
            Attribute::AlignX(x) => AttributeV::AlignX(*x),
            Attribute::Width(l) => AttributeV::Width(*l),
            Attribute::Height(l) => AttributeV::Height(*l),
            Attribute::Nearby(loc, e) => AttributeV::Nearby(*loc, e@),
            Attribute::TransformComponent(f, c) => AttributeV::TransformComponent(*f, *c),
        }
    }
}

pub open spec fn attributes_view(v: Seq<Attribute>) -> Seq<AttributeV> {
    v.map_values(|a: Attribute| a@)
}

impl Attribute {
    /// A raw class attribute.
    pub fn html_class(cls: String) -> (r: Self)
        ensures
            r@ == AttributeV::Attr(cls@),
    {
        Attribute::Attr(HtmlAttribute(cls))
    }

    /// The style rule of a style attribute.
    pub fn only_styles(&self) -> (r: Option<Style>)
        ensures
            r is Some <==> self@ is Style,
            r is Some ==> (r->0)@ == self@->Style_1,
    {
        match self {
            Attribute::Style(_, style) => Some(style.clone()),
            _ => None,
        }
    }
}

} // verus!
