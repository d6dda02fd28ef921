use vstd::prelude::*;

use crate::classes::Classes;
use crate::flag::Flag;
use crate::layout::{element, element_kids, element_spec, render_root, root_node, ElementKidsV};
use crate::length::Length;
use crate::model::{
    attributes_view, Attribute, AttributeV, Children, Description, DescriptionV, Element, ElementV,
    HAlign, LayoutContext, Location, NodeName, NodeNameV, VAlign,
};
use crate::num::{channel_of, fixed_str, nat_str, Fixed};
use crate::options::{FocusStyle, HoverSetting, Opt, RenderMode};
use crate::style::{PseudoClass, color_class_text, font_class_part, Color, Font, FontV, Style, StyleV};
use crate::transform::{compose_spec, z_axis, Coordinate, Transform, TransformComponent};

verus! {

pub fn px(n: u64) -> (r: Length)
    ensures
        r == Length::Px(n),
{
    Length::Px(n)
}

/// Shrink an element to fit its contents.
pub fn shrink() -> (r: Length)
    ensures
        r == Length::Content,
{
    Length::Content
}

/// Fill the available space, shared evenly with the other filling
/// elements.
pub fn fill() -> (r: Length)
    ensures
        r == Length::Fill(1),
{
    Length::Fill(1)
}

/// A length with a minimum of `i` pixels.
pub fn min(i: u64, l: Length) -> (r: Length)
    ensures
        r == Length::Min(i, Box::new(l)),
{
    Length::Min(i, Box::new(l))
}

/// A length with a maximum of `i` pixels.
pub fn max(i: u64, l: Length) -> (r: Length)
    ensures
        r == Length::Max(i, Box::new(l)),
{
    Length::Max(i, Box::new(l))
}

/// Fill the available space with weight `i` against the other filling
/// elements.
pub fn fill_portion(i: u64) -> (r: Length)
    ensures
        r == Length::Fill(i),
{
    Length::Fill(i)
}

pub fn no_static_style_sheet() -> (r: Opt)
    ensures
        r == Opt::Render(RenderMode::NoStaicStyleSheet),
{
    Opt::Render(RenderMode::NoStaicStyleSheet)
}

pub fn focus_style(fs: FocusStyle) -> (r: Opt)
    ensures
        r == Opt::Focus(fs),
{
    Opt::Focus(fs)
}

/// Leave out every hover style.
pub fn no_hover() -> (r: Opt)
    ensures
        r == Opt::Hover(HoverSetting::No),
{
    Opt::Hover(HoverSetting::No)
}

/// Apply every hover style at all times.
pub fn force_hover() -> (r: Opt)
    ensures
        r == Opt::Hover(HoverSetting::Force),
{
    Opt::Hover(HoverSetting::Force)
}

/// Nothing at all.
pub fn none() -> (r: Element)
    ensures
        r@ == ElementV::Empty,
{
    Element::Empty
}

/// Plain text.
pub fn text(content: String) -> (r: Element)
    ensures
        r@ == ElementV::Text(content@),
{
    Element::Text(content)
}

pub fn width(w: Length) -> (r: Attribute)
    ensures
        r@ == AttributeV::Width(w),
{
    Attribute::Width(w)
}

pub fn height(w: Length) -> (r: Attribute)
    ensures
        r@ == AttributeV::Height(w),
{
    Attribute::Height(w)
}

fn prepend_attrs(first: Vec<Attribute>, rest: Vec<Attribute>) -> (r: Vec<Attribute>)
    ensures
        attributes_view(r@) == attributes_view(first@) + attributes_view(rest@),
{
    let ghost a = first@;
    let ghost b = rest@;
    let mut r = first;
    let mut rest = rest;
    r.append(&mut rest);
    proof {
        assert(attributes_view(r@) =~= attributes_view(a) + attributes_view(b));
    }
    r
}

pub open spec fn class_pair(a: Classes, b: Classes) -> Seq<char> {
    a.name() + " "@ + b.name()
}

fn class_pair_text(a: Classes, b: Classes) -> (r: String)
    ensures
        r@ == class_pair(a, b),
{
    let mut s = String::from_str(a.to_string());
    s.append(" ");
    s.append(b.to_string());
    s
}

pub open spec fn unkeyed(children: Seq<Element>) -> ElementKidsV {
    ElementKidsV::Unkeyed(children.map_values(|e: Element| e@))
}

/// The attributes every laid-out element starts with: a content alignment
/// class, and a size that shrinks to the content.
pub open spec fn layout_defaults(align: Seq<char>) -> Seq<AttributeV> {
    seq![AttributeV::Attr(align), AttributeV::Width(Length::Content), AttributeV::Height(Length::Content)]
}

fn defaults(align: String) -> (r: Vec<Attribute>)
    ensures
        attributes_view(r@) == layout_defaults(align@),
{
    let r = vec![Attribute::html_class(align), Attribute::Width(shrink()), Attribute::Height(shrink())];
    proof {
        assert(attributes_view(r@) =~= layout_defaults(align@));
    }
    r
}

/// A single element around one child.
pub fn el(attrs: Vec<Attribute>, child: Element) -> (r: Element)
    ensures
        r@ == element_spec(
            LayoutContext::AsEl,
            NodeNameV::Generic,
            seq![AttributeV::Width(Length::Content), AttributeV::Height(Length::Content)]
                + attributes_view(attrs@),
            ElementKidsV::Unkeyed(seq![child@]),
        ),
{
    let first = vec![Attribute::Width(shrink()), Attribute::Height(shrink())];
    proof {
        assert(attributes_view(first@) =~= seq![
            AttributeV::Width(Length::Content),
            AttributeV::Height(Length::Content),
        ]);
    }
    let ghost cv = child@;
    let kids = vec![child];
    proof {
        assert(element_kids(Children::Unkeyed(kids)) == ElementKidsV::Unkeyed(seq![cv])) by {
            assert(kids@.map_values(|e: Element| e@) =~= seq![cv]);
        }
    }
    element(LayoutContext::AsEl, NodeName::Generic, prepend_attrs(first, attrs), Children::Unkeyed(kids))
}

/// Children laid out side by side.
pub fn row(attrs: Vec<Attribute>, children: Vec<Element>) -> (r: Element)
    ensures
        r@ == element_spec(
            LayoutContext::AsRow,
            NodeNameV::Generic,
            layout_defaults(class_pair(Classes::ContentLeft, Classes::ContentCenterY)) + attributes_view(
                attrs@,
            ),
            unkeyed(children@),
        ),
{
    let first = defaults(class_pair_text(Classes::ContentLeft, Classes::ContentCenterY));
    element(LayoutContext::AsRow, NodeName::Generic, prepend_attrs(first, attrs), Children::Unkeyed(children))
}

/// Children laid out one above the other.
pub fn column(attrs: Vec<Attribute>, children: Vec<Element>) -> (r: Element)
    ensures
        r@ == element_spec(
            LayoutContext::AsColumn,
            NodeNameV::Generic,
            layout_defaults(class_pair(Classes::ContentTop, Classes::ContentLeft)) + attributes_view(
                attrs@,
            ),
            unkeyed(children@),
        ),
{
    let first = defaults(class_pair_text(Classes::ContentTop, Classes::ContentLeft));
    element(
        LayoutContext::AsColumn,
        NodeName::Generic,
        prepend_attrs(first, attrs),
        Children::Unkeyed(children),
    )
}

pub fn explain() -> (r: Attribute)
    ensures
        r@ == AttributeV::Attr("explain"@),
{
    Attribute::html_class(String::from_str("explain"))
}

/// Text laid out as a paragraph: the children flow inline and wrap.
pub fn paragraph(attrs: Vec<Attribute>, children: Vec<Element>) -> (r: Element)
    ensures
        r@ == element_spec(
            LayoutContext::AsParagraph,
            NodeNameV::Generic,
            seq![
                AttributeV::Describe(DescriptionV::Paragraph),
                AttributeV::Width(Length::Fill(1)),
                spacing_view(5, 5),
            ] + attributes_view(attrs@),
            unkeyed(children@),
        ),
{
    let first = vec![Attribute::Describe(Description::Paragraph), Attribute::Width(fill()), spacing(5)];
    proof {
        assert(attributes_view(first@) =~= seq![
            AttributeV::Describe(DescriptionV::Paragraph),
            AttributeV::Width(Length::Fill(1)),
            spacing_view(5, 5),
        ]);
    }
    element(
        LayoutContext::AsParagraph,
        NodeName::Generic,
        prepend_attrs(first, attrs),
        Children::Unkeyed(children),
    )
}

/// Paragraphs laid out one above the other, text flowing around floated
/// children; between 500 and 750 pixels wide.
pub fn text_column(attrs: Vec<Attribute>, children: Vec<Element>) -> (r: Element)
    ensures
        r@ == element_spec(
            LayoutContext::AsTextColumn,
            NodeNameV::Generic,
            attributes_view(attrs@).push(
                AttributeV::Width(
                    Length::Min(500, Box::new(Length::Max(750, Box::new(Length::Fill(1))))),
                ),
            ),
            unkeyed(children@),
        ),
{
    let mut attrs = attrs;
    let ghost before = attrs@;
    attrs.push(width(min(500, max(750, fill()))));
    proof {
        assert(attributes_view(attrs@) =~= attributes_view(before).push(
            AttributeV::Width(Length::Min(500, Box::new(Length::Max(750, Box::new(Length::Fill(1)))))),
        ));
    }
    element(LayoutContext::AsTextColumn, NodeName::Generic, attrs, Children::Unkeyed(children))
}

/// A nearby element at a location; nothing for an empty element.
pub fn create_nearby(loc: Location, element: Element) -> (r: Attribute)
    ensures
        element@ is Empty ==> r@ == AttributeV::NoAttribute,
        !(element@ is Empty) ==> r@ == AttributeV::Nearby(loc, element@),
{
    match element {
        Element::Empty => Attribute::NoAttribute,
        _ => Attribute::Nearby(loc, element),
    }
}

pub fn below(element: Element) -> (r: Attribute)
    ensures
        element@ is Empty ==> r@ == AttributeV::NoAttribute,
        !(element@ is Empty) ==> r@ == AttributeV::Nearby(Location::Below, element@),
{
    create_nearby(Location::Below, element)
}

pub fn above(element: Element) -> (r: Attribute)
    ensures
        element@ is Empty ==> r@ == AttributeV::NoAttribute,
        !(element@ is Empty) ==> r@ == AttributeV::Nearby(Location::Above, element@),
{
    create_nearby(Location::Above, element)
}

pub fn on_right(element: Element) -> (r: Attribute)
    ensures
        element@ is Empty ==> r@ == AttributeV::NoAttribute,
        !(element@ is Empty) ==> r@ == AttributeV::Nearby(Location::OnRight, element@),
{
    create_nearby(Location::OnRight, element)
}

pub fn on_left(element: Element) -> (r: Attribute)
    ensures
        element@ is Empty ==> r@ == AttributeV::NoAttribute,
        !(element@ is Empty) ==> r@ == AttributeV::Nearby(Location::OnLeft, element@),
{
    create_nearby(Location::OnLeft, element)
}

/// An element in front of this one.
pub fn in_front(element: Element) -> (r: Attribute)
    ensures
        element@ is Empty ==> r@ == AttributeV::NoAttribute,
        !(element@ is Empty) ==> r@ == AttributeV::Nearby(Location::InFront, element@),
{
    create_nearby(Location::InFront, element)
}

/// An element between this one's background and content.
pub fn behind_content(element: Element) -> (r: Attribute)
    ensures
        element@ is Empty ==> r@ == AttributeV::NoAttribute,
        !(element@ is Empty) ==> r@ == AttributeV::Nearby(Location::Behind, element@),
{
    create_nearby(Location::Behind, element)
}

/// Scale by `n` across, and by 1 in depth.
pub fn scale(n: Fixed) -> (r: Attribute)
    ensures
        r@ == AttributeV::TransformComponent(
            Flag::spec_from(23),
            TransformComponent::Scale(Coordinate { x: n, y: n, z: Fixed { units: 10000 } }),
        ),
{
    Attribute::TransformComponent(
        Flag::scale(),
        TransformComponent::Scale(Coordinate { x: n, y: n, z: Fixed::from_int(1) }),
    )
}

/// Rotate by `angle` radians around the axis out of the screen.
pub fn rotate(angle: Fixed) -> (r: Attribute)
    ensures
        r@ == AttributeV::TransformComponent(
            Flag::spec_from(24),
            TransformComponent::Rotate(z_axis(), angle),
        ),
{
    Attribute::TransformComponent(
        Flag::rotate(),
        TransformComponent::Rotate(
            Coordinate { x: Fixed::from_int(0), y: Fixed::from_int(0), z: Fixed::from_int(1) },
            angle,
        ),
    )
}

pub fn move_up(y: Fixed) -> (r: Attribute)
    requires
        y.units > i64::MIN,
    ensures
        r@ == AttributeV::TransformComponent(
            Flag::spec_from(26),
            TransformComponent::MoveY(Fixed { units: (-y.units) as i64 }),
        ),
{
    Attribute::TransformComponent(Flag::move_y(), TransformComponent::MoveY(Fixed::from_units(-y.units)))
}

pub fn move_down(y: Fixed) -> (r: Attribute)
    ensures
        r@ == AttributeV::TransformComponent(Flag::spec_from(26), TransformComponent::MoveY(y)),
{
    Attribute::TransformComponent(Flag::move_y(), TransformComponent::MoveY(y))
}

pub fn move_left(x: Fixed) -> (r: Attribute)
    requires
        x.units > i64::MIN,
    ensures
        r@ == AttributeV::TransformComponent(
            Flag::spec_from(25),
            TransformComponent::MoveX(Fixed { units: (-x.units) as i64 }),
        ),
{
    Attribute::TransformComponent(Flag::move_x(), TransformComponent::MoveX(Fixed::from_units(-x.units)))
}

pub fn move_right(x: Fixed) -> (r: Attribute)
    ensures
        r@ == AttributeV::TransformComponent(Flag::spec_from(25), TransformComponent::MoveX(x)),
{
    Attribute::TransformComponent(Flag::move_x(), TransformComponent::MoveX(x))
}

pub open spec fn whole(n: u32) -> Fixed {
    Fixed { units: (n * 10000) as i64 }
}

pub open spec fn padding_view(name: Seq<char>, t: u32, r: u32, b: u32, l: u32) -> AttributeV {
    AttributeV::Style(Flag::spec_from(2), StyleV::Padding(name, whole(t), whole(r), whole(b), whole(l)))
}

fn whole_px(n: u32) -> (r: Fixed)
    ensures
        r == whole(n),
{
    Fixed::from_units(n as i64 * 10000)
}

fn uniform_padding(x: u32) -> (r: Attribute)
    ensures
        r@ == padding_view("p-"@ + nat_str(x as nat), x, x, x, x),
{
    let mut name = String::from_str("p-");
    let n = crate::num::u64_str(x as u64);
    name.append(n.as_str());
    let f = whole_px(x);
    Attribute::Style(Flag::padding(), Style::Padding(name, f, f, f, f))
}

/// The same padding on every side.
pub fn padding(x: u32) -> (r: Attribute)
    ensures
        r@ == padding_view("p-"@ + nat_str(x as nat), x, x, x, x),
{
    uniform_padding(x)
}

/// Padding `x` left and right, `y` top and bottom.
pub fn padding_xy(x: u32, y: u32) -> (r: Attribute)
    ensures
        x == y ==> r@ == padding_view("p-"@ + nat_str(x as nat), x, x, x, x),
        x != y ==> r@ == padding_view(
            "p-"@ + nat_str(x as nat) + "-"@ + nat_str(y as nat),
            y,
            x,
            y,
            x,
        ),
{
    if x == y {
        uniform_padding(x)
    } else {
        let mut name = String::from_str("p-");
        let n = crate::num::u64_str(x as u64);
        name.append(n.as_str());
        name.append("-");
        let m = crate::num::u64_str(y as u64);
        name.append(m.as_str());
        Attribute::Style(
            Flag::padding(),
            Style::Padding(name, whole_px(y), whole_px(x), whole_px(y), whole_px(x)),
        )
    }
}

/// Padding on each side.
pub fn padding_each(top: u32, right: u32, bottom: u32, left: u32) -> (r: Attribute)
    ensures
        top == right && top == bottom && top == left ==> r@ == padding_view(
            "p-"@ + nat_str(top as nat),
            top,
            top,
            top,
            top,
        ),
        !(top == right && top == bottom && top == left) ==> r@ == padding_view(
            padding_name(top as nat, right as nat, bottom as nat, left as nat),
            top,
            right,
            bottom,
            left,
        ),
{
    if top == right && top == bottom && top == left {
        uniform_padding(top)
    } else {
        Attribute::Style(
            Flag::padding(),
            Style::Padding(
                padding_class_name(top, right, bottom, left),
                whole_px(top),
                whole_px(right),
                whole_px(bottom),
                whole_px(left),
            ),
        )
    }
}

pub open spec fn padding_name(t: nat, r: nat, b: nat, l: nat) -> Seq<char> {
    "pad-"@ + nat_str(t) + "-"@ + nat_str(r) + "-"@ + nat_str(b) + "-"@ + nat_str(l)
}

pub fn padding_class_name(top: u32, right: u32, bottom: u32, left: u32) -> (r: String)
    ensures
        r@ == padding_name(top as nat, right as nat, bottom as nat, left as nat),
{
    let mut s = String::from_str("pad-");
    let t = crate::num::u64_str(top as u64);
    s.append(t.as_str());
    s.append("-");
    let t = crate::num::u64_str(right as u64);
    s.append(t.as_str());
    s.append("-");
    let t = crate::num::u64_str(bottom as u64);
    s.append(t.as_str());
    s.append("-");
    let t = crate::num::u64_str(left as u64);
    s.append(t.as_str());
    s
}

/// The padding class name of fractional sides: each as a rounded number
/// from 0 to 255 times the value.
pub fn padding_class_name_float(top: Fixed, right: Fixed, bottom: Fixed, left: Fixed) -> (r: String)
    ensures
        r@ == padding_name(
            channel_of(top.units as int),
            channel_of(right.units as int),
            channel_of(bottom.units as int),
            channel_of(left.units as int),
        ),
{
    padding_class_name(top.float_class(), right.float_class(), bottom.float_class(), left.float_class())
}

pub open spec fn spacing_name(x: nat, y: nat) -> Seq<char> {
    "spacing-"@ + nat_str(x) + "-"@ + nat_str(y)
}

pub fn spacing_class_name(x: u32, y: u32) -> (r: String)
    ensures
        r@ == spacing_name(x as nat, y as nat),
{
    let mut s = String::from_str("spacing-");
    let t = crate::num::u64_str(x as u64);
    s.append(t.as_str());
    s.append("-");
    let t = crate::num::u64_str(y as u64);
    s.append(t.as_str());
    s
}

pub open spec fn spacing_view(x: u32, y: u32) -> AttributeV {
    AttributeV::Style(Flag::spec_from(3), StyleV::Spacing(spacing_name(x as nat, y as nat), x, y))
}

/// The same space between children both ways.
pub fn spacing(x: u32) -> (r: Attribute)
    ensures
        r@ == spacing_view(x, x),
{
    Attribute::Style(Flag::spacing(), Style::Spacing(spacing_class_name(x, x), x, x))
}

/// Space `x` between children across and `y` down.
pub fn spacing_xy(x: u32, y: u32) -> (r: Attribute)
    ensures
        r@ == spacing_view(x, y),
{
    Attribute::Style(Flag::spacing(), Style::Spacing(spacing_class_name(x, y), x, y))
}

pub fn center_x() -> (r: Attribute)
    ensures
        r@ == AttributeV::AlignX(HAlign::CenterX),
{
    Attribute::AlignX(HAlign::CenterX)
}

pub fn center_y() -> (r: Attribute)
    ensures
        r@ == AttributeV::AlignY(VAlign::CenterY),
{
    Attribute::AlignY(VAlign::CenterY)
}

pub fn align_top() -> (r: Attribute)
    ensures
        r@ == AttributeV::AlignY(VAlign::Top),
{
    Attribute::AlignY(VAlign::Top)
}

pub fn align_bottom() -> (r: Attribute)
    ensures
        r@ == AttributeV::AlignY(VAlign::Bottom),
{
    Attribute::AlignY(VAlign::Bottom)
}

pub fn align_left() -> (r: Attribute)
    ensures
        r@ == AttributeV::AlignX(HAlign::Left),
{
    Attribute::AlignX(HAlign::Left)
}

pub fn align_right() -> (r: Attribute)
    ensures
        r@ == AttributeV::AlignX(HAlign::Right),
{
    Attribute::AlignX(HAlign::Right)
}

fn flag_class(flag: Flag, c: Classes) -> (r: Attribute)
    ensures
        r@ == AttributeV::Class(flag, c.name()),
{
    Attribute::Class(flag, String::from_str(c.to_string()))
}

/// Spread the children evenly.
pub fn space_evenly() -> (r: Attribute)
    ensures
        r@ == AttributeV::Class(Flag::spec_from(3), Classes::SpaceEvenly.name()),
{
    flag_class(Flag::spacing(), Classes::SpaceEvenly)
}

pub fn scrollbars() -> (r: Attribute)
    ensures
        r@ == AttributeV::Class(Flag::spec_from(20), Classes::Scrollbars.name()),
{
    flag_class(Flag::overflow(), Classes::Scrollbars)
}

pub fn scrollbar_x() -> (r: Attribute)
    ensures
        r@ == AttributeV::Class(Flag::spec_from(20), Classes::ScrollbarsX.name()),
{
    flag_class(Flag::overflow(), Classes::ScrollbarsX)
}

pub fn scrollbar_y() -> (r: Attribute)
    ensures
        r@ == AttributeV::Class(Flag::spec_from(20), Classes::ScrollbarsY.name()),
{
    flag_class(Flag::overflow(), Classes::ScrollbarsY)
}

pub fn clip() -> (r: Attribute)
    ensures
        r@ == AttributeV::Class(Flag::spec_from(20), Classes::Clip.name()),
{
    flag_class(Flag::overflow(), Classes::Clip)
}

pub fn clip_x() -> (r: Attribute)
    ensures
        r@ == AttributeV::Class(Flag::spec_from(20), Classes::ClipX.name()),
{
    flag_class(Flag::overflow(), Classes::ClipX)
}

pub fn clip_y() -> (r: Attribute)
    ensures
        r@ == AttributeV::Class(Flag::spec_from(20), Classes::ClipY.name()),
{
    flag_class(Flag::overflow(), Classes::ClipY)
}

/// A pointing-hand cursor over the element.
pub fn pointer() -> (r: Attribute)
    ensures
        r@ == AttributeV::Class(Flag::spec_from(21), Classes::CursorPointer.name()),
{
    flag_class(Flag::cursor(), Classes::CursorPointer)
}

/// Fully transparent, or fully visible.
pub fn transparent(on: bool) -> (r: Attribute)
    ensures
        on ==> r@ == AttributeV::Style(
            Flag::spec_from(1),
            StyleV::Transparency("transparent"@, Fixed { units: 10000 }),
        ),
        !on ==> r@ == AttributeV::Style(
            Flag::spec_from(1),
            StyleV::Transparency("visible"@, Fixed { units: 0 }),
        ),
{
    if on {
        Attribute::Style(
            Flag::transparency(),
            Style::Transparency(String::from_str("transparent"), Fixed::from_int(1)),
        )
    } else {
        Attribute::Style(
            Flag::transparency(),
            Style::Transparency(String::from_str("visible"), Fixed::from_int(0)),
        )
    }
}

/// The transparency of an opacity: one less the opacity held to 0..1.
pub open spec fn transparency_of(o: Fixed) -> Fixed {
    Fixed {
        units: (10000 - if o.units < 0 {
            0
        } else if o.units > 10000 {
            10000
        } else {
            o.units as int
        }) as i64,
    }
}

/// Opacity from 0 (transparent) to 1 (opaque), held to that range.
pub fn alpha(o: Fixed) -> (r: Attribute)
    ensures
        r@ == AttributeV::Style(
            Flag::spec_from(1),
            StyleV::Transparency(
                "transparency-"@ + nat_str(channel_of(transparency_of(o).units as int)),
                transparency_of(o),
            ),
        ),
{
    let c: i64 = if o.units < 0 {
        0
    } else if o.units > 10000 {
        10000
    } else {
        o.units
    };
    let t = Fixed::from_units(10000 - c);
    let mut name = String::from_str("transparency-");
    let n = crate::num::u64_str(t.float_class() as u64);
    name.append(n.as_str());
    Attribute::Style(Flag::transparency(), Style::Transparency(name, t))
}

pub open spec fn raw(k: Seq<char>, v: Seq<char>) -> AttributeV {
    AttributeV::Attr(k + "="@ + v)
}

fn raw_attr(k: &str, v: String) -> (r: Attribute)
    ensures
        r@ == raw(k@, v@),
{
    Attribute::Attr(crate::html::style(String::from_str(k), v))
}

pub open spec fn link_class() -> Seq<char> {
    Classes::ContentCenterX.name() + " "@ + Classes::ContentCenterY.name() + " "@ + Classes::Link.name()
}

fn link_class_text() -> (r: String)
    ensures
        r@ == link_class(),
{
    let mut s = String::from_str(Classes::ContentCenterX.to_string());
    s.append(" ");
    s.append(Classes::ContentCenterY.to_string());
    s.append(" ");
    s.append(Classes::Link.to_string());
    s
}

fn anchor(first: Vec<Attribute>, attrs: Vec<Attribute>, label: Element) -> (r: Element)
    ensures
        r@ == element_spec(
            LayoutContext::AsEl,
            NodeNameV::NodeName("a"@),
            attributes_view(first@) + attributes_view(attrs@),
            ElementKidsV::Unkeyed(seq![label@]),
        ),
{
    let ghost lv = label@;
    let kids = vec![label];
    proof {
        assert(element_kids(Children::Unkeyed(kids)) == ElementKidsV::Unkeyed(seq![lv])) by {
            assert(kids@.map_values(|e: Element| e@) =~= seq![lv]);
        }
    }
    element(
        LayoutContext::AsEl,
        NodeName::NodeName(String::from_str("a")),
        prepend_attrs(first, attrs),
        Children::Unkeyed(kids),
    )
}

/// A link to `url` around a label.
pub fn link(attrs: Vec<Attribute>, url: String, label: Element) -> (r: Element)
    ensures
        r@ == element_spec(
            LayoutContext::AsEl,
            NodeNameV::NodeName("a"@),
            seq![
                raw("href"@, url@),
                raw("rel"@, "noopener noreferrer"@),
                AttributeV::Width(Length::Content),
                AttributeV::Height(Length::Content),
                AttributeV::Attr(link_class()),
            ] + attributes_view(attrs@),
            ElementKidsV::Unkeyed(seq![label@]),
        ),
{
    let first = vec![
        raw_attr("href", url),
        raw_attr("rel", String::from_str("noopener noreferrer")),
        width(shrink()),
        height(shrink()),
        Attribute::html_class(link_class_text()),
    ];
    proof {
        assert(attributes_view(first@) =~= seq![
            raw("href"@, url@),
            raw("rel"@, "noopener noreferrer"@),
            AttributeV::Width(Length::Content),
            AttributeV::Height(Length::Content),
            AttributeV::Attr(link_class()),
        ]);
    }
    anchor(first, attrs, label)
}

/// A link to `url` that opens in a new tab.
pub fn new_tablink(attrs: Vec<Attribute>, url: String, label: Element) -> (r: Element)
    ensures
        r@ == element_spec(
            LayoutContext::AsEl,
            NodeNameV::NodeName("a"@),
            seq![
                raw("href"@, url@),
                raw("rel"@, "noopener noreferrer"@),
                raw("target"@, "_blank"@),
                AttributeV::Width(Length::Content),
                AttributeV::Height(Length::Content),
                AttributeV::Attr(link_class()),
            ] + attributes_view(attrs@),
            ElementKidsV::Unkeyed(seq![label@]),
        ),
{
    let first = vec![
        raw_attr("href", url),
        raw_attr("rel", String::from_str("noopener noreferrer")),
        raw_attr("target", String::from_str("_blank")),
        width(shrink()),
        height(shrink()),
        Attribute::html_class(link_class_text()),
    ];
    proof {
        assert(attributes_view(first@) =~= seq![
            raw("href"@, url@),
            raw("rel"@, "noopener noreferrer"@),
            raw("target"@, "_blank"@),
            AttributeV::Width(Length::Content),
            AttributeV::Height(Length::Content),
            AttributeV::Attr(link_class()),
        ]);
    }
    anchor(first, attrs, label)
}

/// A link that downloads `url` as the file `file_name`; an empty name keeps
/// the server's.
pub fn download_as(attrs: Vec<Attribute>, url: String, file_name: String, label: Element) -> (r: Element)
    ensures
        r@ == element_spec(
            LayoutContext::AsEl,
            NodeNameV::NodeName("a"@),
            seq![
                raw("href"@, url@),
                raw("download"@, file_name@),
                AttributeV::Width(Length::Content),
                AttributeV::Height(Length::Content),
                AttributeV::Attr(Classes::ContentCenterX.name()),
                AttributeV::Attr(Classes::ContentCenterY.name()),
            ] + attributes_view(attrs@),
            ElementKidsV::Unkeyed(seq![label@]),
        ),
{
    let first = vec![
        raw_attr("href", url),
        raw_attr("download", file_name),
        width(shrink()),
        height(shrink()),
        Attribute::html_class(String::from_str(Classes::ContentCenterX.to_string())),
        Attribute::html_class(String::from_str(Classes::ContentCenterY.to_string())),
    ];
    proof {
        assert(attributes_view(first@) =~= seq![
            raw("href"@, url@),
            raw("download"@, file_name@),
            AttributeV::Width(Length::Content),
            AttributeV::Height(Length::Content),
            AttributeV::Attr(Classes::ContentCenterX.name()),
            AttributeV::Attr(Classes::ContentCenterY.name()),
        ]);
    }
    anchor(first, attrs, label)
}

/// A link that downloads `url`.
pub fn download(attrs: Vec<Attribute>, url: String, label: Element) -> (r: Element)
    ensures
        r@ == element_spec(
            LayoutContext::AsEl,
            NodeNameV::NodeName("a"@),
            seq![
                raw("href"@, url@),
                raw("download"@, Seq::empty()),
                AttributeV::Width(Length::Content),
                AttributeV::Height(Length::Content),
                AttributeV::Attr(Classes::ContentCenterX.name()),
                AttributeV::Attr(Classes::ContentCenterY.name()),
            ] + attributes_view(attrs@),
            ElementKidsV::Unkeyed(seq![label@]),
        ),
{
    download_as(attrs, url, String::new(), label)
}

/// The widths and heights among the attributes, in order.
pub open spec fn sizes_only(attrs: Seq<AttributeV>) -> Seq<AttributeV>
    decreases attrs.len(),
{
    if attrs.len() == 0 {
        Seq::empty()
    } else {
        sizes_only(attrs.drop_last()) + match attrs.last() {
            AttributeV::Width(l) => seq![AttributeV::Width(l)],
            AttributeV::Height(l) => seq![AttributeV::Height(l)],
            _ => Seq::empty(),
        }
    }
}

fn size_attrs(attrs: &Vec<Attribute>) -> (r: Vec<Attribute>)
    ensures
        attributes_view(r@) == sizes_only(attributes_view(attrs@)),
{
    let ghost av = attributes_view(attrs@);
    let mut out: Vec<Attribute> = Vec::new();
    let mut i: usize = 0;
    proof {
        assert(attributes_view(out@) =~= sizes_only(av.take(0)));
    }
    while i < attrs.len()
        invariant
            i <= attrs.len(),
            av == attributes_view(attrs@),
            attributes_view(out@) == sizes_only(av.take(i as int)),
        decreases attrs.len() - i,
    {
        proof {
            assert(av.take(i as int + 1).drop_last() =~= av.take(i as int));
        }
        match &attrs[i] {
            Attribute::Width(l) => out.push(Attribute::Width(l.clone())),
            Attribute::Height(l) => out.push(Attribute::Height(l.clone())),
            _ => {},
        }
        proof {
            assert(attributes_view(out@) =~= sizes_only(av.take(i as int + 1)));
        }
        i = i + 1;
    }
    proof {
        assert(av.take(attrs.len() as int) =~= av);
    }
    out
}

/// An image from `src` with its description for screen readers; the
/// image takes the widths and heights given to its container.
#[verifier::rlimit(40)]
pub fn image(attrs: Vec<Attribute>, src: String, description: String) -> (r: Element)
    ensures
        r@ == element_spec(
            LayoutContext::AsEl,
            NodeNameV::Generic,
            seq![AttributeV::Attr(Classes::ImageContainer.name())] + attributes_view(attrs@),
            ElementKidsV::Unkeyed(
                seq![
                    element_spec(
                        LayoutContext::AsEl,
                        NodeNameV::NodeName("img"@),
                        seq![raw("src"@, src@), raw("alt"@, description@)] + sizes_only(
                            attributes_view(attrs@),
                        ),
                        ElementKidsV::Unkeyed(Seq::empty()),
                    ),
                ],
            ),
        ),
{
    let sizes = size_attrs(&attrs);
    let first = vec![raw_attr("src", src), raw_attr("alt", description)];
    proof {
        assert(attributes_view(first@) =~= seq![raw("src"@, src@), raw("alt"@, description@)]);
    }
    let no_kids: Vec<Element> = Vec::new();
    proof {
        assert(element_kids(Children::Unkeyed(no_kids)) == ElementKidsV::Unkeyed(Seq::empty())) by {
            assert(no_kids@.map_values(|e: Element| e@) =~= Seq::<ElementV>::empty());
        }
    }
    let img = element(
        LayoutContext::AsEl,
        NodeName::NodeName(String::from_str("img")),
        prepend_attrs(first, sizes),
        Children::Unkeyed(no_kids),
    );
    let outer = vec![Attribute::html_class(String::from_str(Classes::ImageContainer.to_string()))];
    proof {
        assert(attributes_view(outer@) =~= seq![AttributeV::Attr(Classes::ImageContainer.name())]);
    }
    let ghost iv = img@;
    let kids = vec![img];
    proof {
        assert(element_kids(Children::Unkeyed(kids)) == ElementKidsV::Unkeyed(seq![iv])) by {
            assert(kids@.map_values(|e: Element| e@) =~= seq![iv]);
        }
    }
    element(LayoutContext::AsEl, NodeName::Generic, prepend_attrs(outer, attrs), Children::Unkeyed(kids))
}

pub open spec fn fixed(u: int) -> Fixed {
    Fixed { units: u as i64 }
}

pub open spec fn root_families() -> Seq<FontV> {
    seq![FontV::Typeface("Open Sans"@), FontV::Typeface("Helvetica"@), FontV::Typeface("Verdana"@), FontV::SansSerif]
}

/// The styles every document root starts with: a transparent white
/// background, black text of 20 pixels, and a sans-serif font family.
pub open spec fn root_style_view() -> Seq<AttributeV> {
    let clear = Color { r: fixed(10000), g: fixed(10000), b: fixed(10000), a: fixed(0) };
    let black = Color { r: fixed(0), g: fixed(0), b: fixed(0), a: fixed(10000) };
    let f = root_families();
    seq![
        AttributeV::Style(
            Flag::spec_from(8),
            StyleV::Colored("bg-"@ + color_class_text(clear), "background-color"@, clear),
        ),
        AttributeV::Style(Flag::spec_from(14), StyleV::Colored("fc-"@ + color_class_text(black), "color"@, black)),
        AttributeV::Style(Flag::spec_from(4), StyleV::FontSize(20)),
        AttributeV::Style(
            Flag::spec_from(5),
            StyleV::FontFamily(
                "font-"@ + font_class_part(f[0]) + font_class_part(f[1]) + font_class_part(f[2])
                    + font_class_part(f[3]),
                f,
            ),
        ),
    ]
}

fn colored(flag: Flag, prefix: &str, prop: &str, c: Color) -> (r: Attribute)
    ensures
        r@ == AttributeV::Style(flag, StyleV::Colored(prefix@ + color_class_text(c), prop@, c)),
{
    let mut name = String::from_str(prefix);
    let t = c.format_color_class();
    name.append(t.as_str());
    Attribute::Style(flag, Style::Colored(name, String::from_str(prop), c))
}

#[verifier::rlimit(40)]
pub fn root_style() -> (r: Vec<Attribute>)
    ensures
        attributes_view(r@) == root_style_view(),
{
    let families = vec![
        Font::Typeface(String::from_str("Open Sans")),
        Font::Typeface(String::from_str("Helvetica")),
        Font::Typeface(String::from_str("Verdana")),
        Font::SansSerif,
    ];
    proof {
        assert(families@.map_values(|f: Font| f@) =~= root_families());
    }
    let mut name = String::from_str("font-");
    let mut i: usize = 0;
    while i < families.len()
        invariant
            i <= families.len(),
            families@.map_values(|f: Font| f@) == root_families(),
            name@ == "font-"@ + crate::text::concat(
                root_families().take(i as int).map_values(|f: FontV| font_class_part(f)),
            ),
        decreases families.len() - i,
    {
        proof {
            let parts = root_families().map_values(|f: FontV| font_class_part(f));
            assert(root_families().take(i as int + 1).map_values(|f: FontV| font_class_part(f))
                =~= parts.take(i as int + 1));
            assert(root_families().take(i as int).map_values(|f: FontV| font_class_part(f))
                =~= parts.take(i as int));
            assert(parts.take(i as int + 1).drop_last() =~= parts.take(i as int));
            assert(families@[i as int]@ == root_families()[i as int]);
        }
        name = families[i].render_class_name(name);
        i = i + 1;
    }
    proof {
        let parts = root_families().map_values(|f: FontV| font_class_part(f));
        assert(root_families().take(4).map_values(|f: FontV| font_class_part(f)) =~= parts);
        assert(parts.take(0) =~= Seq::<Seq<char>>::empty());
        assert(parts.take(1).drop_last() =~= parts.take(0));
        assert(parts.take(2).drop_last() =~= parts.take(1));
        assert(parts.take(3).drop_last() =~= parts.take(2));
        assert(parts.take(4).drop_last() =~= parts.take(3));
        assert(parts.take(4) =~= parts);
        let f = root_families();
        assert(crate::text::concat(parts.take(0)) == Seq::<char>::empty());
        assert(crate::text::concat(parts.take(1)) == crate::text::concat(parts.take(0)) + parts[0]);
        assert(crate::text::concat(parts.take(2)) == crate::text::concat(parts.take(1)) + parts[1]);
        assert(crate::text::concat(parts.take(3)) == crate::text::concat(parts.take(2)) + parts[2]);
        assert(crate::text::concat(parts.take(4)) == crate::text::concat(parts.take(3)) + parts[3]);
        assert(name@ =~= "font-"@ + font_class_part(f[0]) + font_class_part(f[1]) + font_class_part(f[2])
            + font_class_part(f[3]));
    }
    let clear = Color {
        r: Fixed::from_int(1),
        g: Fixed::from_int(1),
        b: Fixed::from_int(1),
        a: Fixed::from_int(0),
    };
    let black = Color {
        r: Fixed::from_int(0),
        g: Fixed::from_int(0),
        b: Fixed::from_int(0),
        a: Fixed::from_int(1),
    };
    let r = vec![
        colored(Flag::bg_color(), "bg-", "background-color", clear),
        colored(Flag::font_color(), "fc-", "color", black),
        Attribute::Style(Flag::font_size(), Style::FontSize(20)),
        Attribute::Style(Flag::font_family(), Style::FontFamily(name, families)),
    ];
    proof {
        assert(attributes_view(r@) =~= root_style_view());
    }
    r
}

pub open spec fn root_class() -> Seq<char> {
    Classes::Root.name() + " "@ + Classes::Any.name() + " "@ + Classes::Single.name()
}

/// The document root of an element, with the given options.
pub fn layout_with(opts: Vec<Opt>, attrs: Vec<Attribute>, child: Element) -> (r: crate::vdom::Node)
    ensures
        r@ == root_node(
            opts@,
            seq![AttributeV::Attr(root_class())] + root_style_view() + attributes_view(attrs@),
            child@,
        ),
{
    let mut cls = String::from_str(Classes::Root.to_string());
    cls.append(" ");
    cls.append(Classes::Any.to_string());
    cls.append(" ");
    cls.append(Classes::Single.to_string());
    let first = vec![Attribute::html_class(cls)];
    proof {
        assert(attributes_view(first@) =~= seq![AttributeV::Attr(root_class())]);
    }
    let all = prepend_attrs(prepend_attrs(first, root_style()), attrs);
    render_root(opts, all, child)
}

/// The document root of an element.
pub fn layout(attrs: Vec<Attribute>, child: Element) -> (r: crate::vdom::Node)
    ensures
        r@ == root_node(
            Seq::empty(),
            seq![AttributeV::Attr(root_class())] + root_style_view() + attributes_view(attrs@),
            child@,
        ),
{
    let opts: Vec<Opt> = Vec::new();
    proof {
        assert(opts@ =~= Seq::<Opt>::empty());
    }
    layout_with(opts, attrs, child)
}

#[derive(Debug, PartialEq, Eq, Structural, Clone, Copy)]
pub enum DeviceClass {
    Phone,
    Tablet,
    Desktop,
    BigDesktop,
}

#[derive(Debug, PartialEq, Eq, Structural, Clone, Copy)]
pub enum Orientation {
    Portrait,
    Landscape,
}

/// The kind of screen a window is on.
#[derive(Debug, PartialEq, Eq, Structural, Clone, Copy)]
pub struct Device {
    pub class: DeviceClass,
    pub orientation: Orientation,
}

/// The device of a window `w` by `h`: a phone below 600 on the short side,
/// a tablet up to 1200 on the long side, a desktop up to 1920, a big desktop
/// beyond; portrait when taller than wide.
pub open spec fn device_of(w: u32, h: u32) -> Device {
    let long_side = if w > h {
        w
    } else {
        h
    };
    let short_side = if w < h {
        w
    } else {
        h
    };
    Device {
        class: if short_side < 600 {
            DeviceClass::Phone
        } else if long_side <= 1200 {
            DeviceClass::Tablet
        } else if long_side <= 1920 {
            DeviceClass::Desktop
        } else {
            DeviceClass::BigDesktop
        },
        orientation: if w < h {
            Orientation::Portrait
        } else {
            Orientation::Landscape
        },
    }
}

pub fn classify_device(w: u32, h: u32) -> (r: Device)
    ensures
        r == device_of(w, h),
{
    let long_side = if w > h {
        w
    } else {
        h
    };
    let short_side = if w < h {
        w
    } else {
        h
    };
    let class = if short_side < 600 {
        DeviceClass::Phone
    } else if long_side <= 1200 {
        DeviceClass::Tablet
    } else if long_side > 1200 && long_side <= 1920 {
        DeviceClass::Desktop
    } else {
        DeviceClass::BigDesktop
    };
    let orientation = if w < h {
        Orientation::Portrait
    } else {
        Orientation::Landscape
    };
    Device { orientation, class }
}

/// A colour from red, green and blue channels from 0 to 1, opaque.
pub fn rgb(r: Fixed, g: Fixed, b: Fixed) -> (c: Color)
    ensures
        c == (Color { r, g, b, a: Fixed { units: 10000 } }),
{
    Color { r, g, b, a: Fixed::from_int(1) }
}

pub fn rgba(r: Fixed, g: Fixed, b: Fixed, a: Fixed) -> (c: Color)
    ensures
        c == (Color { r, g, b, a }),
{
    Color { r, g, b, a }
}

/// A channel from 0 to 255 as a fraction of 255.
pub open spec fn of_255(c: u8) -> Fixed {
    Fixed { units: (c * 10000 / 255) as i64 }
}

fn fraction_of_255(c: u8) -> (r: Fixed)
    ensures
        r == of_255(c),
{
    Fixed::from_units(c as i64 * 10000 / 255)
}

/// A colour from red, green and blue channels from 0 to 255, opaque.
pub fn rgb255(r: u8, g: u8, b: u8) -> (c: Color)
    ensures
        c == (Color { r: of_255(r), g: of_255(g), b: of_255(b), a: Fixed { units: 10000 } }),
{
    Color { r: fraction_of_255(r), g: fraction_of_255(g), b: fraction_of_255(b), a: Fixed::from_int(1) }
}

/// A colour from red, green and blue channels from 0 to 255 and an alpha
/// from 0 to 1.
pub fn rgba255(r: u8, g: u8, b: u8, a: Fixed) -> (c: Color)
    ensures
        c == (Color { r: of_255(r), g: of_255(g), b: of_255(b), a }),
{
    Color { r: fraction_of_255(r), g: fraction_of_255(g), b: fraction_of_255(b), a }
}

/// The style rules and the composed transform of decoration attributes:
/// the rules newest first.
pub open spec fn decorations(attrs: Seq<AttributeV>) -> (Seq<StyleV>, Transform)
    decreases attrs.len(),
{
    if attrs.len() == 0 {
        (Seq::empty(), Transform::Untransformed)
    } else {
        let (s, t) = decorations(attrs.drop_last());
        match attrs.last() {
            AttributeV::Style(_, st) => (seq![st] + s, t),
            AttributeV::TransformComponent(_, c) => (s, compose_spec(t, c)),
            _ => (s, t),
        }
    }
}

/// The style rules of decoration attributes, their transform first.
pub fn unwrap_decorations(attrs: Vec<Attribute>) -> (r: Vec<Style>)
    ensures
        crate::reduce::style_views(r@) == seq![StyleV::Transform(decorations(attributes_view(attrs@)).1)]
            + decorations(attributes_view(attrs@)).0,
{
    let ghost av = attributes_view(attrs@);
    let n = attrs.len();
    let mut rev = crate::layout::reversed(attrs);
    let mut styles: Vec<Style> = Vec::new();
    let mut transform = Transform::Untransformed;
    proof {
        assert(av.take(0) =~= Seq::<AttributeV>::empty());
        assert(crate::reduce::style_views(styles@) =~= Seq::<StyleV>::empty());
    }
    while rev.len() > 0
        invariant
            rev.len() <= n,
            n == av.len(),
            forall|j: int| 0 <= j < rev.len() ==> #[trigger] rev@[j]@ == av[n - 1 - j],
            (crate::reduce::style_views(styles@), transform) == decorations(av.take(n - rev.len())),
        decreases rev.len(),
    {
        let ghost i = n - rev.len();
        let a = rev.pop().unwrap();
        proof {
            assert(a@ == av[i]);
            assert(av.take(i + 1).drop_last() =~= av.take(i));
        }
        match a {
            Attribute::Style(_, st) => {
                let ghost before = styles@;
                styles.insert(0, st);
                proof {
                    assert(crate::reduce::style_views(styles@) =~= seq![st@] + crate::reduce::style_views(
                        before,
                    ));
                }
            },
            Attribute::TransformComponent(_, c) => {
                transform = transform.compose(&c);
            },
            _ => {},
        }
    }
    proof {
        assert(av.take(n as int) =~= av);
    }
    let ghost before = styles@;
    styles.insert(0, Style::Transform(transform));
    proof {
        assert(crate::reduce::style_views(styles@) =~= seq![StyleV::Transform(transform)]
            + crate::reduce::style_views(before));
    }
    styles
}

/// Decorations that apply while the pointer is over the element.
pub fn mouse_over(attrs: Vec<Attribute>) -> (r: Attribute)
    ensures
        r@ == AttributeV::Style(
            Flag::spec_from(33),
            StyleV::PseudoSelector(
                PseudoClass::Hover,
                seq![StyleV::Transform(decorations(attributes_view(attrs@)).1)] + decorations(
                    attributes_view(attrs@),
                ).0,
            ),
        ),
{
    let styles = unwrap_decorations(attrs);
    let r = Attribute::Style(Flag::hover(), Style::PseudoSelector(PseudoClass::Hover, styles));
    proof {
        assert(r@->Style_1->PseudoSelector_1 =~= crate::reduce::style_views(styles@));
    }
    r
}

/// Decorations that apply while the element is pressed.
pub fn mouse_down(attrs: Vec<Attribute>) -> (r: Attribute)
    ensures
        r@ == AttributeV::Style(
            Flag::spec_from(32),
            StyleV::PseudoSelector(
                PseudoClass::Active,
                seq![StyleV::Transform(decorations(attributes_view(attrs@)).1)] + decorations(
                    attributes_view(attrs@),
                ).0,
            ),
        ),
{
    let styles = unwrap_decorations(attrs);
    let r = Attribute::Style(Flag::active(), Style::PseudoSelector(PseudoClass::Active, styles));
    proof {
        assert(r@->Style_1->PseudoSelector_1 =~= crate::reduce::style_views(styles@));
    }
    r
}

/// Decorations that apply while the element has focus.
pub fn focused(attrs: Vec<Attribute>) -> (r: Attribute)
    ensures
        r@ == AttributeV::Style(
            Flag::spec_from(31),
            StyleV::PseudoSelector(
                PseudoClass::Focus,
                seq![StyleV::Transform(decorations(attributes_view(attrs@)).1)] + decorations(
                    attributes_view(attrs@),
                ).0,
            ),
        ),
{
    let styles = unwrap_decorations(attrs);
    let r = Attribute::Style(Flag::focus(), Style::PseudoSelector(PseudoClass::Focus, styles));
    proof {
        assert(r@->Style_1->PseudoSelector_1 =~= crate::reduce::style_views(styles@));
    }
    r
}

/// `x` put first when `if_this` holds.
pub fn add_when<T>(if_this: bool, x: T, to: Vec<T>) -> (r: Vec<T>)
    ensures
        if_this ==> r@ == seq![x] + to@,
        !if_this ==> r@ == to@,
{
    if if_this {
        let ghost t = to@;
        let mut r = vec![x];
        let mut to = to;
        r.append(&mut to);
        proof {
            assert(r@ =~= seq![x] + t);
        }
        r
    } else {
        to
    }
}

/// The last padding style among the attributes.
pub open spec fn last_padding(attrs: Seq<AttributeV>) -> Option<StyleV>
    decreases attrs.len(),
{
    if attrs.len() == 0 {
        None
    } else {
        match attrs.last() {
            AttributeV::Style(_, StyleV::Padding(n, t, r, b, l)) => Some(StyleV::Padding(n, t, r, b, l)),
            _ => last_padding(attrs.drop_last()),
        }
    }
}

/// The last spacing style among the attributes.
pub open spec fn last_spacing(attrs: Seq<AttributeV>) -> Option<StyleV>
    decreases attrs.len(),
{
    if attrs.len() == 0 {
        None
    } else {
        match attrs.last() {
            AttributeV::Style(_, StyleV::Spacing(n, x, y)) => Some(StyleV::Spacing(n, x, y)),
            _ => last_spacing(attrs.drop_last()),
        }
    }
}

/// The last width among the attributes.
pub open spec fn last_width(attrs: Seq<AttributeV>) -> Option<Length>
    decreases attrs.len(),
{
    if attrs.len() == 0 {
        None
    } else {
        match attrs.last() {
            AttributeV::Width(l) => Some(l),
            _ => last_width(attrs.drop_last()),
        }
    }
}

/// The last height among the attributes.
pub open spec fn last_height(attrs: Seq<AttributeV>) -> Option<Length>
    decreases attrs.len(),
{
    if attrs.len() == 0 {
        None
    } else {
        match attrs.last() {
            AttributeV::Height(l) => Some(l),
            _ => last_height(attrs.drop_last()),
        }
    }
}

/// The padding and the spacing that apply: the last of each.
#[verifier::rlimit(40)]
pub fn extract_spacing_and_padding(attrs: &Vec<Attribute>) -> (r: (Option<Style>, Option<Style>))
    ensures
        match (r.0, last_padding(attributes_view(attrs@))) {
            (Some(p), Some(q)) => p@ == q,
            (None, None) => true,
            _ => false,
        },
        match (r.1, last_spacing(attributes_view(attrs@))) {
            (Some(p), Some(q)) => p@ == q,
            (None, None) => true,
            _ => false,
        },
{
    let ghost av = attributes_view(attrs@);
    let mut padding: Option<Style> = None;
    let mut spacing: Option<Style> = None;
    let mut i: usize = attrs.len();
    proof {
        assert(av.take(attrs.len() as int) =~= av);
    }
    while i > 0
        invariant
            i <= attrs.len(),
            av == attributes_view(attrs@),
            match (padding, last_padding(av)) {
                (Some(p), Some(q)) => p@ == q,
                (None, _) => last_padding(av) == last_padding(av.take(i as int)),
                _ => false,
            },
            match (spacing, last_spacing(av)) {
                (Some(p), Some(q)) => p@ == q,
                (None, _) => last_spacing(av) == last_spacing(av.take(i as int)),
                _ => false,
            },
        decreases i,
    {
        i = i - 1;
        proof {
            assert(av.take(i as int + 1).drop_last() =~= av.take(i as int));
            assert(av.take(i as int + 1).last() == av[i as int]);
        }
        if padding.is_none() {
            match &attrs[i] {
                Attribute::Style(_, Style::Padding(n, t, r, b, l)) => {
                    padding = Some(Style::Padding(n.clone(), *t, *r, *b, *l));
                },
                _ => {},
            }
        }
        if spacing.is_none() {
            match &attrs[i] {
                Attribute::Style(_, Style::Spacing(n, x, y)) => {
                    spacing = Some(Style::Spacing(n.clone(), *x, *y));
                },
                _ => {},
            }
        }
    }
    proof {
        assert(av.take(0) =~= Seq::<AttributeV>::empty());
    }
    (padding, spacing)
}

/// The spacing that applies, or `default` without one.
pub fn get_spacing(attrs: &Vec<Attribute>, default: (u32, u32)) -> (r: (u32, u32))
    ensures
        match last_spacing(attributes_view(attrs@)) {
            Some(StyleV::Spacing(_, x, y)) => r == (x, y),
            _ => r == default,
        },
{
    let (_, spacing) = extract_spacing_and_padding(attrs);
    match spacing {
        Some(Style::Spacing(_, x, y)) => (x, y),
        _ => default,
    }
}

/// The width that applies: the last one given.
pub fn get_width(attrs: &Vec<Attribute>) -> (r: Option<Length>)
    ensures
        r == last_width(attributes_view(attrs@)),
{
    let ghost av = attributes_view(attrs@);
    let mut i: usize = attrs.len();
    proof {
        assert(av.take(attrs.len() as int) =~= av);
    }
    while i > 0
        invariant
            i <= attrs.len(),
            av == attributes_view(attrs@),
            last_width(av) == last_width(av.take(i as int)),
        decreases i,
    {
        i = i - 1;
        proof {
            assert(av.take(i as int + 1).drop_last() =~= av.take(i as int));
            assert(av.take(i as int + 1).last() == av[i as int]);
        }
        match &attrs[i] {
            Attribute::Width(l) => {
                return Some(l.clone());
            },
            _ => {},
        }
    }
    proof {
        assert(av.take(0) =~= Seq::<AttributeV>::empty());
    }
    None
}

/// The height that applies: the last one given.
pub fn get_height(attrs: &Vec<Attribute>) -> (r: Option<Length>)
    ensures
        r == last_height(attributes_view(attrs@)),
{
    let ghost av = attributes_view(attrs@);
    let mut i: usize = attrs.len();
    proof {
        assert(av.take(attrs.len() as int) =~= av);
    }
    while i > 0
        invariant
            i <= attrs.len(),
            av == attributes_view(attrs@),
            last_height(av) == last_height(av.take(i as int)),
        decreases i,
    {
        i = i - 1;
        proof {
            assert(av.take(i as int + 1).drop_last() =~= av.take(i as int));
            assert(av.take(i as int + 1).last() == av[i as int]);
        }
        match &attrs[i] {
            Attribute::Height(l) => {
                return Some(l.clone());
            },
            _ => {},
        }
    }
    proof {
        assert(av.take(0) =~= Seq::<AttributeV>::empty());
    }
    None
}

/// The slot under which `filter` keeps only the last attribute, numbered
/// from one in this order: width, height, description, horizontal
/// alignment, vertical alignment, transform. Zero for attributes that it
/// keeps every time.
pub open spec fn slot_of(a: AttributeV) -> nat {
    match a {
        AttributeV::Width(_) => 1,
        AttributeV::Height(_) => 2,
        AttributeV::Describe(_) => 3,
        AttributeV::AlignX(_) => 4,
        AttributeV::AlignY(_) => 5,
        AttributeV::TransformComponent(_, _) => 6,
        _ => 0,
    }
}

/// Whether an attribute of the given slot comes among the attributes.
pub open spec fn slot_in(attrs: Seq<AttributeV>, k: nat) -> bool {
    exists|j: int| 0 <= j < attrs.len() && slot_of(#[trigger] attrs[j]) == k
}

/// The attributes without the empty ones, and with only the last of each
/// width, height, description, alignment and transform.
pub open spec fn filtered(attrs: Seq<AttributeV>) -> Seq<AttributeV>
    decreases attrs.len(),
{
    if attrs.len() == 0 {
        Seq::empty()
    } else {
        let rest = filtered(attrs.drop_first());
        let a = attrs[0];
        if a is NoAttribute {
            rest
        } else if slot_of(a) != 0 && slot_in(attrs.drop_first(), slot_of(a)) {
            rest
        } else {
            seq![a] + rest
        }
    }
}

/// The attributes without the empty ones, and with only the last of each
/// width, height, description, alignment and transform.
#[verifier::rlimit(40)]
pub fn filter(attrs: Vec<Attribute>) -> (r: Vec<Attribute>)
    ensures
        attributes_view(r@) == filtered(attributes_view(attrs@)),
{
    let ghost av = attributes_view(attrs@);
    let n = attrs.len();
    let mut attrs = attrs;
    let mut seen: Vec<bool> = vec![false, false, false, false, false, false, false];
    let mut out: Vec<Attribute> = Vec::new();
    proof {
        assert(av.subrange(n as int, n as int) =~= Seq::<AttributeV>::empty());
        assert(attributes_view(out@) =~= Seq::<AttributeV>::empty());
    }
    while attrs.len() > 0
        invariant
            attrs.len() <= n,
            n == av.len(),
            seen.len() == 7,
            forall|j: int| 0 <= j < attrs.len() ==> #[trigger] attrs@[j]@ == av[j],
            attributes_view(out@) == filtered(av.subrange(attrs.len() as int, n as int)),
            forall|k: int|
                1 <= k < 7 ==> #[trigger] seen@[k] == slot_in(
                    av.subrange(attrs.len() as int, n as int),
                    k as nat,
                ),
        decreases attrs.len(),
    {
        let i = attrs.len() - 1;
        let a = attrs.pop().unwrap();
        let ghost tail = av.subrange(i as int + 1, n as int);
        let ghost whole = av.subrange(i as int, n as int);
        proof {
            assert(a@ == av[i as int]);
            assert(whole.drop_first() =~= tail);
            assert(whole[0] == av[i as int]);
            assert forall|k: nat| #[trigger] slot_in(whole, k) == (slot_in(tail, k) || slot_of(av[i as int]) == k) by {
                if slot_in(whole, k) {
                    let j = choose|j: int| 0 <= j < whole.len() && slot_of(#[trigger] whole[j]) == k;
                    if j > 0 {
                        assert(tail[j - 1] == whole[j]);
                    }
                }
                if slot_in(tail, k) {
                    let j = choose|j: int| 0 <= j < tail.len() && slot_of(#[trigger] tail[j]) == k;
                    assert(whole[j + 1] == tail[j]);
                }
                if slot_of(av[i as int]) == k {
                    assert(slot_of(whole[0]) == k);
                }
            }
        }
        let k: usize = match &a {
            Attribute::Width(_) => 1,
            Attribute::Height(_) => 2,
            Attribute::Describe(_) => 3,
            Attribute::AlignX(_) => 4,
            Attribute::AlignY(_) => 5,
            Attribute::TransformComponent(_, _) => 6,
            _ => 0,
        };
        let empty = match &a {
            Attribute::NoAttribute => true,
            _ => false,
        };
        let ghost before = out@;
        if empty {
        } else if k != 0 && seen[k] {
        } else {
            if k != 0 {
                seen.set(k, true);
            }
            out.insert(0, a);
            proof {
                assert(attributes_view(out@) =~= seq![a@] + attributes_view(before));
            }
        }
    }
    proof {
        assert(av.subrange(0, n as int) =~= av);
    }
    out
}

pub open spec fn wrapped_class() -> Seq<char> {
    Classes::ContentLeft.name() + " "@ + Classes::ContentCenterY.name() + " "@ + Classes::Wrapped.name()
}

/// A side of padding less half a spacing, held to the range of `i64`.
pub open spec fn less_half(v: Fixed, y: u32) -> Fixed {
    let d = v.units - y * 5000;
    Fixed {
        units: if d < i64::MIN {
            i64::MIN
        } else {
            d as i64
        },
    }
}

/// The padding a wrapped row takes in place of the given one, so that the
/// margins its spacing puts around each child stay inside: only when the
/// padding is large enough for them.
pub open spec fn compensated_padding(padding: Option<StyleV>, x: u32, y: u32) -> Option<AttributeV> {
    match padding {
        Some(StyleV::Padding(_, t, r, b, l)) => if r.units >= (x / 2) * 10000 && b.units * 2 >= y
            * 10000 {
            Some(
                AttributeV::Style(
                    Flag::spec_from(2),
                    StyleV::Padding(
                        padding_name(
                            channel_of(t.units as int),
                            channel_of(r.units as int),
                            channel_of(b.units as int),
                            channel_of(l.units as int),
                        ),
                        less_half(t, y),
                        less_half(r, y),
                        less_half(b, y),
                        less_half(l, y),
                    ),
                ),
            )
        } else {
            None
        },
        _ => None,
    }
}

/// The attributes of the inner row of a wrapped row without room in its
/// padding: negative margins and a size grown by the spacing.
pub open spec fn inner_wrap_attrs(name: Seq<char>, x: u32, y: u32) -> Seq<AttributeV> {
    seq![
        AttributeV::Attr(wrapped_class()),
        raw("margin"@, fixed_str(-(y * 5000)) + "px "@ + fixed_str(-(x * 5000)) + "px"@),
        raw("width"@, "calc(100% + "@ + nat_str(x as nat) + "px)"@),
        raw("height"@, "calc(100% + "@ + nat_str(y as nat) + "px)"@),
        AttributeV::Style(Flag::spec_from(3), StyleV::Spacing(name, x, y)),
    ]
}

/// A row whose children wrap onto more lines when too wide.
pub open spec fn wrapped_row_spec(attrs: Seq<AttributeV>, kids: ElementKidsV) -> ElementV {
    let defaults = layout_defaults(wrapped_class());
    match last_spacing(attrs) {
        Some(StyleV::Spacing(name, x, y)) => match compensated_padding(last_padding(attrs), x, y) {
            Some(pad) => element_spec(
                LayoutContext::AsRow,
                NodeNameV::Generic,
                (defaults + attrs).push(pad),
                kids,
            ),
            None => element_spec(
                LayoutContext::AsEl,
                NodeNameV::Generic,
                attrs,
                ElementKidsV::Unkeyed(
                    seq![
                        element_spec(
                            LayoutContext::AsRow,
                            NodeNameV::Generic,
                            inner_wrap_attrs(name, x, y),
                            kids,
                        ),
                    ],
                ),
            ),
        },
        _ => element_spec(LayoutContext::AsRow, NodeNameV::Generic, defaults + attrs, kids),
    }
}

fn wrapped_class_text() -> (r: String)
    ensures
        r@ == wrapped_class(),
{
    let mut s = String::from_str(Classes::ContentLeft.to_string());
    s.append(" ");
    s.append(Classes::ContentCenterY.to_string());
    s.append(" ");
    s.append(Classes::Wrapped.to_string());
    s
}

fn less_half_of(v: Fixed, y: u32) -> (r: Fixed)
    ensures
        r == less_half(v, y),
{
    let d: i128 = v.units as i128 - y as i128 * 5000;
    if d < i64::MIN as i128 {
        Fixed::from_units(i64::MIN)
    } else {
        Fixed::from_units(d as i64)
    }
}

fn compensate(padded: Option<Style>, x: u32, y: u32) -> (r: Option<Attribute>)
    ensures
        match (r, compensated_padding(
            match padded {
                Some(p) => Some(p@),
                None => None,
            },
            x,
            y,
        )) {
            (Some(a), Some(b)) => a@ == b,
            (None, None) => true,
            _ => false,
        },
{
    match padded {
        Some(Style::Padding(_, t, r, b, l)) => {
            if r.units >= (x / 2) as i64 * 10000 && b.units as i128 * 2 >= y as i128 * 10000 {
                Some(
                    Attribute::Style(
                        Flag::padding(),
                        Style::Padding(
                            padding_class_name_float(t, r, b, l),
                            less_half_of(t, y),
                            less_half_of(r, y),
                            less_half_of(b, y),
                            less_half_of(l, y),
                        ),
                    ),
                )
            } else {
                None
            }
        },
        _ => None,
    }
}

fn inner_wrap(name: String, x: u32, y: u32, children: Vec<Element>) -> (r: Element)
    ensures
        r@ == element_spec(
            LayoutContext::AsRow,
            NodeNameV::Generic,
            inner_wrap_attrs(name@, x, y),
            unkeyed(children@),
        ),
{
    let mut margin = Fixed::from_units(-(y as i64 * 5000)).to_text();
    margin.append("px ");
    let mx = Fixed::from_units(-(x as i64 * 5000)).to_text();
    margin.append(mx.as_str());
    margin.append("px");
    let mut w = String::from_str("calc(100% + ");
    let xs = crate::num::u64_str(x as u64);
    w.append(xs.as_str());
    w.append("px)");
    let mut h = String::from_str("calc(100% + ");
    let ys = crate::num::u64_str(y as u64);
    h.append(ys.as_str());
    h.append("px)");
    let inner_attrs = vec![
        Attribute::html_class(wrapped_class_text()),
        raw_attr("margin", margin),
        raw_attr("width", w),
        raw_attr("height", h),
        Attribute::Style(Flag::spacing(), Style::Spacing(name, x, y)),
    ];
    proof {
        assert(attributes_view(inner_attrs@) =~= inner_wrap_attrs(name@, x, y));
    }
    element(LayoutContext::AsRow, NodeName::Generic, inner_attrs, Children::Unkeyed(children))
}

/// Same as a row, but the children wrap when they take too much space
/// across.
#[verifier::rlimit(40)]
pub fn wrapped_row(attrs: Vec<Attribute>, children: Vec<Element>) -> (r: Element)
    ensures
        r@ == wrapped_row_spec(attributes_view(attrs@), unkeyed(children@)),
{
    let (padded, spaced) = extract_spacing_and_padding(&attrs);
    match spaced {
        Some(Style::Spacing(name, x, y)) => match compensate(padded, x, y) {
            Some(pad) => {
                let mut all = prepend_attrs(defaults(wrapped_class_text()), attrs);
                let ghost before = all@;
                all.push(pad);
                proof {
                    assert(attributes_view(all@) =~= attributes_view(before).push(pad@));
                }
                element(LayoutContext::AsRow, NodeName::Generic, all, Children::Unkeyed(children))
            },
            None => {
                let inner = inner_wrap(name, x, y, children);
                let ghost iv = inner@;
                let kids = vec![inner];
                proof {
                    assert(element_kids(Children::Unkeyed(kids)) == ElementKidsV::Unkeyed(seq![iv])) by {
                        assert(kids@.map_values(|e: Element| e@) =~= seq![iv]);
                    }
                }
                element(LayoutContext::AsEl, NodeName::Generic, attrs, Children::Unkeyed(kids))
            },
        },
        _ => {
            let all = prepend_attrs(defaults(wrapped_class_text()), attrs);
            element(LayoutContext::AsRow, NodeName::Generic, all, Children::Unkeyed(children))
        },
    }
}

} // verus!
