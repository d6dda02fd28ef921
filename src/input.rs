use vstd::prelude::*;

use crate::element::{of_255, rgb, rgb255};
use crate::model::{Attribute, AttributeV, Description, DescriptionV, Element};
use crate::num::Fixed;
use crate::style::Color;

verus! {

/// Text shown in an empty input, with its attributes.
pub struct Placeholder(pub Vec<Attribute>, pub Element);

pub fn white() -> (r: Color)
    ensures
        r == (Color {
            r: Fixed { units: 10000 },
            g: Fixed { units: 10000 },
            b: Fixed { units: 10000 },
            a: Fixed { units: 10000 },
        }),
{
    rgb(Fixed::from_int(1), Fixed::from_int(1), Fixed::from_int(1))
}

pub fn dark_grey() -> (r: Color)
    ensures
        r == (Color { r: of_255(186), g: of_255(189), b: of_255(182), a: Fixed { units: 10000 } }),
{
    rgb255(186, 189, 182)
}

pub fn charcoal() -> (r: Color)
    ensures
        r == (Color { r: of_255(136), g: of_255(138), b: of_255(133), a: Fixed { units: 10000 } }),
{
    rgb255(136, 138, 133)
}

pub fn placeholder(attrs: Vec<Attribute>, el: Element) -> (r: Placeholder)
    ensures
        r.0@ == attrs@,
        r.1@ == el@,
{
    Placeholder(attrs, el)
}

/// Where a label goes beside its input.
#[derive(Debug, PartialEq, Eq, Structural, Clone, Copy)]
pub enum LabelLocation {
    OnRight,
    OnLeft,
    Above,
    Below,
}

/// The label of an input: shown at a location, or read by screen readers
/// only.
pub enum Label {
    Label(LabelLocation, Vec<Attribute>, Element),
    HiddenLabel(String),
}

/// Whether a label sits above or below its input; a hidden one counts as
/// stacked.
pub open spec fn stacked(label: Label) -> bool {
    match label {
        Label::Label(loc, _, _) => loc == LabelLocation::Above || loc == LabelLocation::Below,
        Label::HiddenLabel(_) => true,
    }
}

impl Label {
    pub fn is_stacked(label: Label) -> (r: bool)
        ensures
            r == stacked(label),
    {
        match label {
            Label::Label(loc, _, _) => match loc {
                LabelLocation::OnRight => false,
                LabelLocation::OnLeft => false,
                LabelLocation::Above => true,
                LabelLocation::Below => true,
            },
            Label::HiddenLabel(_) => true,
        }
    }
}

pub fn label_right(attrs: Vec<Attribute>, el: Element) -> (r: Label)
    ensures
        r == Label::Label(LabelLocation::OnRight, attrs, el),
{
    Label::Label(LabelLocation::OnRight, attrs, el)
}

pub fn label_left(attrs: Vec<Attribute>, el: Element) -> (r: Label)
    ensures
        r == Label::Label(LabelLocation::OnLeft, attrs, el),
{
    Label::Label(LabelLocation::OnLeft, attrs, el)
}

pub fn label_above(attrs: Vec<Attribute>, el: Element) -> (r: Label)
    ensures
        r == Label::Label(LabelLocation::Above, attrs, el),
{
    Label::Label(LabelLocation::Above, attrs, el)
}

pub fn label_below(attrs: Vec<Attribute>, el: Element) -> (r: Label)
    ensures
        r == Label::Label(LabelLocation::Below, attrs, el),
{
    Label::Label(LabelLocation::Below, attrs, el)
}

/// A label read by screen readers only.
pub fn label_hidden(label: String) -> (r: Label)
    ensures
        r == Label::HiddenLabel(label),
{
    Label::HiddenLabel(label)
}

/// The attribute that gives an input its hidden label; nothing for a
/// shown one.
pub fn hidden_label_attr(label: Label) -> (r: Attribute)
    ensures
        match label {
            Label::HiddenLabel(t) => r@ == AttributeV::Describe(DescriptionV::Label(t@)),
            Label::Label(_, _, _) => r@ == AttributeV::NoAttribute,
        },
{
    match label {
        Label::HiddenLabel(text_label) => Attribute::Describe(Description::Label(text_label)),
        Label::Label(_, _, _) => Attribute::NoAttribute,
    }
}

} // verus!
