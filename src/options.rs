use vstd::prelude::*;

use crate::classes::Classes;
use crate::num::Fixed;
use crate::style::{box_shadow_text, color_text, Color, Property, Shadow, Style, StyleV};

verus! {

/// What hover styles do.
#[derive(Debug, PartialEq, Eq, Structural, Clone, Copy)]
pub enum HoverSetting {
    No,
    Allow,
    Force,
}

/// How a focused element is marked.
#[derive(Debug, PartialEq, Eq, Clone, Copy)]
pub struct FocusStyle {
    pub border_color: Option<Color>,
    pub shadow: Option<Shadow>,
    pub bg_color: Option<Color>,
}

/// How the stylesheets are emitted.
#[derive(Debug, PartialEq, Eq, Structural, Clone, Copy)]
pub enum RenderMode {
    Layout,
    NoStaicStyleSheet,
    WithVirtualCSS,
}

/// One root-level option.
#[derive(Debug, PartialEq, Eq, Clone, Copy)]
pub enum Opt {
    Hover(HoverSetting),
    Focus(FocusStyle),
    Render(RenderMode),
}

/// The root-level options, combined.
#[derive(Debug, PartialEq, Eq, Clone, Copy)]
pub struct OptStruct {
    pub hover: HoverSetting,
    pub focus: FocusStyle,
    pub mode: RenderMode,
}

/// The default focus ring: a three-pixel light-blue shadow.
pub open spec fn default_focus() -> FocusStyle {
    FocusStyle {
        bg_color: None,
        border_color: None,
        shadow: Some(
            Shadow {
                color: Color {
                    r: Fixed { units: 6078 },
                    g: Fixed { units: 7961 },
                    b: Fixed { units: 10000 },
                    a: Fixed { units: 10000 },
                },
                offset: (0, 0),
                blur: 0,
                size: 3,
            },
        ),
    }
}

pub open spec fn default_opts() -> OptStruct {
    OptStruct { hover: HoverSetting::Allow, focus: default_focus(), mode: RenderMode::Layout }
}

/// The first hover setting among the options, if any.
pub open spec fn first_hover(opts: Seq<Opt>) -> Option<HoverSetting>
    decreases opts.len(),
{
    if opts.len() == 0 {
        None
    } else {
        match opts[0] {
            Opt::Hover(h) => Some(h),
            _ => first_hover(opts.drop_first()),
        }
    }
}

pub open spec fn first_focus(opts: Seq<Opt>) -> Option<FocusStyle>
    decreases opts.len(),
{
    if opts.len() == 0 {
        None
    } else {
        match opts[0] {
            Opt::Focus(f) => Some(f),
            _ => first_focus(opts.drop_first()),
        }
    }
}

pub open spec fn first_mode(opts: Seq<Opt>) -> Option<RenderMode>
    decreases opts.len(),
{
    if opts.len() == 0 {
        None
    } else {
        match opts[0] {
            Opt::Render(m) => Some(m),
            _ => first_mode(opts.drop_first()),
        }
    }
}

/// Options combined: for each kind the first one given wins, and a kind not
/// given takes its default.
pub open spec fn combined_opts(opts: Seq<Opt>) -> OptStruct {
    OptStruct {
        hover: match first_hover(opts) {
            Some(h) => h,
            None => HoverSetting::Allow,
        },
        focus: match first_focus(opts) {
            Some(f) => f,
            None => default_focus(),
        },
        mode: match first_mode(opts) {
            Some(m) => m,
            None => RenderMode::Layout,
        },
    }
}

/// The properties that mark a focused element.
pub open spec fn focus_props(f: FocusStyle) -> Seq<(Seq<char>, Seq<char>)> {
    (match f.border_color {
        Some(c) => seq![("border-color"@, color_text(c))],
        None => Seq::empty(),
    }) + (match f.bg_color {
        Some(c) => seq![("background-color"@, color_text(c))],
        None => Seq::empty(),
    }) + (match f.shadow {
        Some(s) => seq![("box-shadow"@, box_shadow_text(s, false))],
        None => Seq::empty(),
    }) + seq![("outline"@, "none"@)]
}

pub open spec fn focus_styles(f: FocusStyle) -> Seq<StyleV> {
    seq![
        StyleV::Style("."@ + Classes::FocusedWithin.name() + ":focus-within"@, focus_props(f)),
        StyleV::Style(
            ".s:focus .focusable, .s.focusable:focus, .ui-slide-bar:focus + .s.focusable-thumb"@,
            focus_props(f),
        ),
    ]
}

impl FocusStyle {
    pub fn default() -> (r: Self)
        ensures
            r == default_focus(),
    {
        FocusStyle {
            bg_color: None,
            border_color: None,
            shadow: Some(
                Shadow {
                    color: Color {
                        r: Fixed::from_units(6078),
                        g: Fixed::from_units(7961),
                        b: Fixed::from_int(1),
                        a: Fixed::from_int(1),
                    },
                    offset: (0, 0),
                    blur: 0,
                    size: 3,
                },
            ),
        }
    }

    fn props(&self) -> (r: Vec<Property>)
        ensures
            r@.map_values(|p: Property| p@) == focus_props(*self),
    {
        let mut v: Vec<Property> = Vec::new();
        if let Some(c) = self.border_color {
            v.push(Property(String::from_str("border-color"), c.format_color()));
        }
        if let Some(c) = self.bg_color {
            v.push(Property(String::from_str("background-color"), c.format_color()));
        }
        if let Some(s) = self.shadow {
            v.push(Property(String::from_str("box-shadow"), s.format_box_shadow(false)));
        }
        v.push(Property(String::from_str("outline"), String::from_str("none")));
        proof {
            assert(v@.map_values(|p: Property| p@) =~= focus_props(*self));
        }
        v
    }

    /// The two rules that draw the focus marking.
    pub fn render(&self) -> (r: Vec<Style>)
        ensures
            r@.map_values(|s: Style| s@) == focus_styles(*self),
    {
        let mut sel = String::from_str(".");
        sel.append(Classes::FocusedWithin.to_string());
        sel.append(":focus-within");
        let r = vec![
            Style::Style(sel, self.props()),
            Style::Style(
                String::from_str(
                    ".s:focus .focusable, .s.focusable:focus, .ui-slide-bar:focus + .s.focusable-thumb",
                ),
                self.props(),
            ),
        ];
        proof {
            assert(r@.map_values(|s: Style| s@) =~= focus_styles(*self));
        }
        r
    }
}

impl OptStruct {
    pub fn default() -> (r: Self)
        ensures
            r == default_opts(),
    {
        OptStruct { hover: HoverSetting::Allow, focus: FocusStyle::default(), mode: RenderMode::Layout }
    }

    /// Combine options: for each kind the first one given wins.
    pub fn from_opts(opts: Vec<Opt>) -> (r: Self)
        ensures
            r == combined_opts(opts@),
    {
        let mut hover: Option<HoverSetting> = None;
        let mut focus: Option<FocusStyle> = None;
        let mut mode: Option<RenderMode> = None;
        let mut i: usize = opts.len();
        while i > 0
            invariant
                i <= opts.len(),
                hover == first_hover(opts@.subrange(i as int, opts.len() as int)),
                focus == first_focus(opts@.subrange(i as int, opts.len() as int)),
                mode == first_mode(opts@.subrange(i as int, opts.len() as int)),
            decreases i,
        {
            i = i - 1;
            proof {
                let s = opts@.subrange(i as int, opts.len() as int);
                assert(s.drop_first() =~= opts@.subrange(i as int + 1, opts.len() as int));
                assert(s[0] == opts@[i as int]);
            }
            match opts[i] {
                Opt::Hover(h) => hover = Some(h),
                Opt::Focus(f) => focus = Some(f),
                Opt::Render(m) => mode = Some(m),
            }
        }
        proof {
            assert(opts@.subrange(0, opts.len() as int) =~= opts@);
        }
        OptStruct {
            hover: match hover {
                Some(h) => h,
                None => HoverSetting::Allow,
            },
            focus: match focus {
                Some(f) => f,
                None => FocusStyle::default(),
            },
            mode: match mode {
                Some(m) => m,
                None => RenderMode::Layout,
            },
        }
    }
}

} // verus!
