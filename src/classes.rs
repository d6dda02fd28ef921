use vstd::prelude::*;

verus! {

/// The short CSS class names that the base stylesheet defines.
#[derive(Debug, PartialEq, Eq, Structural, Clone, Copy)]
pub enum Classes {
    Root,
    Any,
    Single,
    Row,
    Column,
    Page,
    Paragraph,
    Text,
    Grid,
    ImageContainer,
    Wrapped,
    WidthFill,
    WidthContent,
    WidthExact,
    WidthFillPortion,
    HeightFill,
    HeightContent,
    HeightExact,
    HeightFillPortion,
    SEButton,
    Nearby,
    Above,
    Below,
    OnRight,
    OnLeft,
    InFront,
    Behind,
    HasBehind,
    AlignTop,
    AlignBottom,
    AlignRight,
    AlignLeft,
    AlignCenterX,
    AlignCenterY,
    AlignedHorizontally,
    AlignedVertically,
    SpaceEvenly,
    Container,
    AlignContainerRight,
    AlignContainerBottom,
    AlignContainerCenterX,
    AlignContainerCenterY,
    ContentTop,
    ContentBottom,
    ContentRight,
    ContentLeft,
    ContentCenterX,
    ContentCenterY,
    NoTextSelection,
    CursorPointer,
    CursorText,
    PassPointerEvents,
    CapturePointerEvents,
    Transparent,
    Opaque,
    OverflowHidden,
    Hover,
    Focus,
    FocusedWithin,
    Active,
    Scrollbars,
    ScrollbarsX,
    ScrollbarsY,
    Clip,
    ClipX,
    ClipY,
    BorderNone,
    BorderDashed,
    BorderDotted,
    BorderSolid,
    SizeByCapital,
    FullSize,
    TextThin,
    TextExtraLight,
    TextLight,
    TextNormalWeight,
    TextMedium,
    TextSemiBold,
    Bold,
    TextExtraBold,
    TextHeavy,
    Italic,
    Strike,
    Underline,
    TextUnitalicized,
    TextJustify,
    TextJustifyAll,
    TextCenter,
    TextRight,
    TextLeft,
    Transition,
    InputText,
    InputMultiline,
    InputMultilineParent,
    InputMultilineFiller,
    InputMultilineWrapper,
    InputLabel,
    Link,
}

impl Classes {
    /// The class name of each variant.
    pub open spec fn name(self) -> Seq<char> {
        match self {
            Classes::Root => "ui"@,
            Classes::Any => "s"@,
            Classes::Single => "e"@,
            Classes::Row => "r"@,
            Classes::Column => "c"@,
            Classes::Page => "pg"@,
            Classes::Paragraph => "p"@,
            Classes::Text => "t"@,
            Classes::Grid => "g"@,
            Classes::ImageContainer => "ic"@,
            Classes::Wrapped => "wrp"@,
            Classes::WidthFill => "wf"@,
            Classes::WidthContent => "wc"@,
            Classes::WidthExact => "we"@,
            Classes::WidthFillPortion => "wfp"@,
            Classes::HeightFill => "hf"@,
            Classes::HeightContent => "hc"@,
            Classes::HeightExact => "he"@,
            Classes::HeightFillPortion => "hfp"@,
            Classes::SEButton => "sbt"@,
            Classes::Nearby => "nb"@,
            Classes::Above => "a"@,
            Classes::Below => "b"@,
            Classes::OnRight => "or"@,
            Classes::OnLeft => "ol"@,
            Classes::InFront => "fr"@,
            Classes::Behind => "bh"@,
            Classes::HasBehind => "hbh"@,
            Classes::AlignTop => "at"@,
            Classes::AlignBottom => "ab"@,
            Classes::AlignRight => "ar"@,
            Classes::AlignLeft => "al"@,
            Classes::AlignCenterX => "cx"@,
            Classes::AlignCenterY => "cy"@,
            Classes::AlignedHorizontally => "ah"@,
            Classes::AlignedVertically => "av"@,
            Classes::SpaceEvenly => "sev"@,
            Classes::Container => "ctr"@,
            Classes::AlignContainerRight => "acr"@,
            Classes::AlignContainerBottom => "acb"@,
            Classes::AlignContainerCenterX => "accx"@,
            Classes::AlignContainerCenterY => "accy"@,
            Classes::ContentTop => "ct"@,
            Classes::ContentBottom => "cb"@,
            Classes::ContentRight => "cr"@,
            Classes::ContentLeft => "cl"@,
            Classes::ContentCenterX => "ccx"@,
            Classes::ContentCenterY => "ccy"@,
            Classes::NoTextSelection => "notxt"@,
            Classes::CursorPointer => "cptr"@,
            Classes::CursorText => "ctxt"@,
            Classes::PassPointerEvents => "ppe"@,
            Classes::CapturePointerEvents => "cpe"@,
            Classes::Transparent => "clr"@,
            Classes::Opaque => "oq"@,
            Classes::OverflowHidden => "oh"@,
            Classes::Hover => "hv"@,
            Classes::Focus => "fcs"@,
            Classes::FocusedWithin => "focus-within"@,
            Classes::Active => "atv"@,
            Classes::Scrollbars => "sb"@,
            Classes::ScrollbarsX => "sbx"@,
            Classes::ScrollbarsY => "sby"@,
            Classes::Clip => "cp"@,
            Classes::ClipX => "cpx"@,
            Classes::ClipY => "cpy"@,
            Classes::BorderNone => "bn"@,
            Classes::BorderDashed => "bd"@,
            Classes::BorderDotted => "bdt"@,
            Classes::BorderSolid => "bs"@,
            Classes::SizeByCapital => "cap"@,
            Classes::FullSize => "fs"@,
            Classes::TextThin => "w1"@,
            Classes::TextExtraLight => "w2"@,
            Classes::TextLight => "w3"@,
            Classes::TextNormalWeight => "w4"@,
            Classes::TextMedium => "w5"@,
            Classes::TextSemiBold => "w6"@,
            Classes::Bold => "w7"@,
            Classes::TextExtraBold => "w8"@,
            Classes::TextHeavy => "w9"@,
            Classes::Italic => "i"@,
            Classes::Strike => "sk"@,
            Classes::Underline => "u"@,
            Classes::TextUnitalicized => "tun"@,
            Classes::TextJustify => "tj"@,
            Classes::TextJustifyAll => "tja"@,
            Classes::TextCenter => "tc"@,
            Classes::TextRight => "tr"@,
            Classes::TextLeft => "tl"@,
            Classes::Transition => "ts"@,
            Classes::InputText => "it"@,
            Classes::InputMultiline => "iml"@,
            Classes::InputMultilineParent => "imlp"@,
            Classes::InputMultilineFiller => "imlf"@,
            Classes::InputMultilineWrapper => "implw"@,
            Classes::InputLabel => "lbl"@,
            Classes::Link => "lnk"@,
        }
    }

    pub fn to_string(&self) -> (r: &'static str)
        ensures
            r@ == self.name(),
    {
        match self {
            Classes::Root => "ui",
            Classes::Any => "s",
            Classes::Single => "e",
            Classes::Row => "r",
            Classes::Column => "c",
            Classes::Page => "pg",
            Classes::Paragraph => "p",
            Classes::Text => "t",
            Classes::Grid => "g",
            Classes::ImageContainer => "ic",
            Classes::Wrapped => "wrp",
            Classes::WidthFill => "wf",
            Classes::WidthContent => "wc",
            Classes::WidthExact => "we",
            Classes::WidthFillPortion => "wfp",
            Classes::HeightFill => "hf",
            Classes::HeightContent => "hc",
            Classes::HeightExact => "he",
            Classes::HeightFillPortion => "hfp",
            Classes::SEButton => "sbt",
            Classes::Nearby => "nb",
            Classes::Above => "a",
            Classes::Below => "b",
            Classes::OnRight => "or",
            Classes::OnLeft => "ol",
            Classes::InFront => "fr",
            Classes::Behind => "bh",
            Classes::HasBehind => "hbh",
            Classes::AlignTop => "at",
            Classes::AlignBottom => "ab",
            Classes::AlignRight => "ar",
            Classes::AlignLeft => "al",
            Classes::AlignCenterX => "cx",
            Classes::AlignCenterY => "cy",
            Classes::AlignedHorizontally => "ah",
            Classes::AlignedVertically => "av",
            Classes::SpaceEvenly => "sev",
            Classes::Container => "ctr",
            Classes::AlignContainerRight => "acr",
            Classes::AlignContainerBottom => "acb",
            Classes::AlignContainerCenterX => "accx",
            Classes::AlignContainerCenterY => "accy",
            Classes::ContentTop => "ct",
            Classes::ContentBottom => "cb",
            Classes::ContentRight => "cr",
            Classes::ContentLeft => "cl",
            Classes::ContentCenterX => "ccx",
            Classes::ContentCenterY => "ccy",
            Classes::NoTextSelection => "notxt",
            Classes::CursorPointer => "cptr",
            Classes::CursorText => "ctxt",
            Classes::PassPointerEvents => "ppe",
            Classes::CapturePointerEvents => "cpe",
            Classes::Transparent => "clr",
            Classes::Opaque => "oq",
            Classes::OverflowHidden => "oh",
            Classes::Hover => "hv",
            Classes::Focus => "fcs",
            Classes::FocusedWithin => "focus-within",
            Classes::Active => "atv",
            Classes::Scrollbars => "sb",
            Classes::ScrollbarsX => "sbx",
            Classes::ScrollbarsY => "sby",
            Classes::Clip => "cp",
            Classes::ClipX => "cpx",
            Classes::ClipY => "cpy",
            Classes::BorderNone => "bn",
            Classes::BorderDashed => "bd",
            Classes::BorderDotted => "bdt",
            Classes::BorderSolid => "bs",
            Classes::SizeByCapital => "cap",
            Classes::FullSize => "fs",
            Classes::TextThin => "w1",
            Classes::TextExtraLight => "w2",
            Classes::TextLight => "w3",
            Classes::TextNormalWeight => "w4",
            Classes::TextMedium => "w5",
            Classes::TextSemiBold => "w6",
            Classes::Bold => "w7",
            Classes::TextExtraBold => "w8",
            Classes::TextHeavy => "w9",
            Classes::Italic => "i",
            Classes::Strike => "sk",
            Classes::Underline => "u",
            Classes::TextUnitalicized => "tun",
            Classes::TextJustify => "tj",
            Classes::TextJustifyAll => "tja",
            Classes::TextCenter => "tc",
            Classes::TextRight => "tr",
            Classes::TextLeft => "tl",
            Classes::Transition => "ts",
            Classes::InputText => "it",
            Classes::InputMultiline => "iml",
            Classes::InputMultilineParent => "imlp",
            Classes::InputMultilineFiller => "imlf",
            Classes::InputMultilineWrapper => "implw",
            Classes::InputLabel => "lbl",
            Classes::Link => "lnk",
        }
    }
}

/// `s` and the class of one layout.
pub open spec fn layout_class(c: Classes) -> Seq<char> {
    Classes::Any.name() + " "@ + c.name()
}

fn layout_class_text(c: Classes) -> (r: String)
    ensures
        r@ == layout_class(c),
{
    let mut s = String::from_str(Classes::Any.to_string());
    s.append(" ");
    s.append(c.to_string());
    s
}

pub fn row_class() -> (r: String)
    ensures
        r@ == layout_class(Classes::Row),
{
    layout_class_text(Classes::Row)
}

pub fn column_class() -> (r: String)
    ensures
        r@ == layout_class(Classes::Column),
{
    layout_class_text(Classes::Column)
}

pub fn single_class() -> (r: String)
    ensures
        r@ == layout_class(Classes::Single),
{
    layout_class_text(Classes::Single)
}

pub fn grid_class() -> (r: String)
    ensures
        r@ == layout_class(Classes::Grid),
{
    layout_class_text(Classes::Grid)
}

pub fn paragraph_class() -> (r: String)
    ensures
        r@ == layout_class(Classes::Paragraph),
{
    layout_class_text(Classes::Paragraph)
}

pub fn page_class() -> (r: String)
    ensures
        r@ == layout_class(Classes::Page),
{
    layout_class_text(Classes::Page)
}

} // verus!
