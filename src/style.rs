use vstd::prelude::*;

use crate::flag::Flag;
use crate::length::{length_class, Length};
use crate::num::{channel_of, nat_str, u64_str, Fixed};
use crate::text::{dashed, join, join_strings, lower_of, lowercase, spaces_to_dashes, views};
use crate::transform::{transform_class, Transform};

verus! {

/// A CSS property and its value.
pub struct Property(pub String, pub String);

impl View for Property {
    type V = (Seq<char>, Seq<char>);

    open spec fn view(&self) -> (Seq<char>, Seq<char>) {
        (self.0@, self.1@)
    }
}

/// A colour: red, green, blue and alpha, each from 0 to 1.
#[derive(Debug, PartialEq, Eq, Structural, Clone, Copy)]
pub struct Color {
    pub r: Fixed,
    pub g: Fixed,
    pub b: Fixed,
    pub a: Fixed,
}

#[derive(Debug, PartialEq, Eq, Structural, Clone, Copy)]
pub enum PseudoClass {
    Focus,
    Hover,
    Active,
}

/// Vertical metrics of a typeface, as fractions of its size.
#[derive(Debug, PartialEq, Eq, Structural, Clone, Copy)]
pub struct Adjustment {
    pub capital: Fixed,
    pub lowercase: Fixed,
    pub baseline: Fixed,
    pub descender: Fixed,
}

/// A font feature setting.
pub enum Variant {
    Active(String),
    Off(String),
    Indexed(String, u64),
}

pub enum VariantV {
    Active(Seq<char>),
    Off(Seq<char>),
    Indexed(Seq<char>, u64),
}

impl View for Variant {
    type V = VariantV;

    open spec fn view(&self) -> VariantV {
        match self {
            Variant::Active(n) => VariantV::Active(n@),
            Variant::Off(n) => VariantV::Off(n@),
            Variant::Indexed(n, i) => VariantV::Indexed(n@, *i),
        }
    }
}

/// A typeface with its metrics and feature settings.
pub struct FontWith {
    pub name: String,
    pub adjustment: Option<Adjustment>,
    pub variants: Vec<Variant>,
}

pub enum Font {
    Serif,
    SansSerif,
    Monospace,
    Typeface(String),
    ImportFont(String, String),
    FontWith(FontWith),
}

pub enum FontV {
    Serif,
    SansSerif,
    Monospace,
    Typeface(Seq<char>),
    ImportFont(Seq<char>, Seq<char>),
    FontWith(Seq<char>, Option<Adjustment>, Seq<VariantV>),
}

impl View for Font {
    type V = FontV;

    open spec fn view(&self) -> FontV {
        match self {
            Font::Serif => FontV::Serif,
            Font::SansSerif => FontV::SansSerif,
            Font::Monospace => FontV::Monospace,
            Font::Typeface(n) => FontV::Typeface(n@),
            Font::ImportFont(n, u) => FontV::ImportFont(n@, u@),
            Font::FontWith(w) => FontV::FontWith(
                w.name@,
                w.adjustment,
                w.variants@.map_values(|v: Variant| v@),
            ),
        }
    }
}

/// A shadow: colour, offset, blur and size in pixels.
#[derive(Debug, PartialEq, Eq, Clone, Copy)]
pub struct Shadow {
    pub color: Color,
    pub offset: (u8, u8),
    pub blur: u8,
    pub size: u8,
}

/// Rows, columns and spacing of a grid.
pub struct GridTemplate {
    pub spacing: (Length, Length),
    pub columns: Vec<Length>,
    pub rows: Vec<Length>,
}

/// The cell a grid child takes.
#[derive(Debug, PartialEq, Eq, Structural, Clone, Copy)]
pub struct GridPosition {
    pub row: u64,
    pub col: u64,
    pub width: u64,
    pub height: u64,
}

/// One renderable style rule.
pub enum Style {
    Style(String, Vec<Property>),
    FontFamily(String, Vec<Font>),
    FontSize(u8),
    Single(String, String, String),
    Colored(String, String, Color),
    Spacing(String, u32, u32),
    BorderWidth(String, u8, u8, u8, u8),
    Padding(String, Fixed, Fixed, Fixed, Fixed),
    GridTemplate(GridTemplate),
    GridPosition(GridPosition),
    Transform(Transform),
    PseudoSelector(PseudoClass, Vec<Style>),
    Transparency(String, Fixed),
    Shadows(String, String),
}

/// The value a style stands for, with its texts as character sequences.
pub enum StyleV {
    Style(Seq<char>, Seq<(Seq<char>, Seq<char>)>),
    FontFamily(Seq<char>, Seq<FontV>),
    FontSize(u8),
    Single(Seq<char>, Seq<char>, Seq<char>),
    Colored(Seq<char>, Seq<char>, Color),
    Spacing(Seq<char>, u32, u32),
    BorderWidth(Seq<char>, u8, u8, u8, u8),
    Padding(Seq<char>, Fixed, Fixed, Fixed, Fixed),
    GridTemplate((Length, Length), Seq<Length>, Seq<Length>),
    GridPosition(GridPosition),
    Transform(Transform),
    PseudoSelector(PseudoClass, Seq<StyleV>),
    Transparency(Seq<char>, Fixed),
    Shadows(Seq<char>, Seq<char>),
}

pub open spec fn style_view(s: Style) -> StyleV
    decreases s,
{
    match s {
        Style::Style(c, props) => StyleV::Style(c@, props@.map_values(|p: Property| p@)),
        Style::FontFamily(n, fonts) => StyleV::FontFamily(n@, fonts@.map_values(|f: Font| f@)),
        Style::FontSize(i) => StyleV::FontSize(i),
        Style::Single(c, p, v) => StyleV::Single(c@, p@, v@),
        Style::Colored(c, p, col) => StyleV::Colored(c@, p@, col),
        Style::Spacing(c, x, y) => StyleV::Spacing(c@, x, y),
        Style::BorderWidth(c, t, r, b, l) => StyleV::BorderWidth(c@, t, r, b, l),
        Style::Padding(c, t, r, b, l) => StyleV::Padding(c@, t, r, b, l),
        Style::GridTemplate(g) => StyleV::GridTemplate(g.spacing, g.columns@, g.rows@),
        Style::GridPosition(p) => StyleV::GridPosition(p),
        Style::Transform(t) => StyleV::Transform(t),
        Style::PseudoSelector(p, styles) => StyleV::PseudoSelector(
            p,
            Seq::new(
                styles.len() as nat,
                |i: int|
                    if 0 <= i < styles.len() {
                        style_view(styles[i])
                    } else {
                        StyleV::FontSize(0)
                    },
            ),
        ),
        Style::Transparency(c, t) => StyleV::Transparency(c@, t),
        Style::Shadows(c, v) => StyleV::Shadows(c@, v@),
    }
}

impl View for Style {
    type V = StyleV;

    open spec fn view(&self) -> StyleV {
        style_view(*self)
    }
}

pub open spec fn styles_view(v: Seq<Style>) -> Seq<StyleV> {
    v.map_values(|s: Style| s@)
}

/// The short tag of a pseudo-class in class names.
pub open spec fn pseudo_tag(p: PseudoClass) -> Seq<char> {
    match p {
        PseudoClass::Focus => "fs"@,
        PseudoClass::Hover => "hv"@,
        PseudoClass::Active => "act"@,
    }
}

/// A nested style's name under a pseudo-class: empty stays empty.
pub open spec fn pseudo_part(p: PseudoClass, name: Seq<char>) -> Seq<char> {
    if name.len() == 0 {
        Seq::empty()
    } else {
        pseudo_tag(p) + "-"@ + name
    }
}

pub open spec fn lengths_class(ls: Seq<Length>) -> Seq<char> {
    join(ls.map_values(|l: Length| length_class(l)), "-"@)
}

/// The names of nested styles under a pseudo-class, joined with spaces.
pub open spec fn pseudo_join(p: PseudoClass, styles: Seq<StyleV>) -> Seq<char>
    decreases styles,
{
    if styles.len() == 0 {
        Seq::empty()
    } else {
        let last = pseudo_part(p, style_name(styles[styles.len() - 1]));
        if styles.len() == 1 {
            last
        } else {
            pseudo_join(p, styles.subrange(0, styles.len() - 1)) + " "@ + last
        }
    }
}

/// The canonical name of a style: the class it is referred to by, and the
/// key under which a stylesheet holds it once.
pub open spec fn style_name(s: StyleV) -> Seq<char>
    decreases s,
{
    match s {
        StyleV::Shadows(n, _) => n,
        StyleV::Transparency(n, _) => n,
        StyleV::Style(c, _) => c,
        StyleV::FontFamily(n, _) => n,
        StyleV::FontSize(i) => "font-size-"@ + nat_str(i as nat),
        StyleV::Single(c, _, _) => c,
        StyleV::Colored(c, _, _) => c,
        StyleV::Spacing(c, _, _) => c,
        StyleV::Padding(c, _, _, _, _) => c,
        StyleV::BorderWidth(c, _, _, _, _) => c,
        StyleV::GridTemplate(spacing, columns, rows) => "grid-rows-"@ + lengths_class(rows)
            + "-cols-"@ + lengths_class(columns) + "-space-x-"@ + length_class(spacing.0)
            + "-space-y-"@ + length_class(spacing.1),
        StyleV::GridPosition(p) => "gp grid-pos-"@ + nat_str(p.row as nat) + "-"@ + nat_str(
            p.col as nat,
        ) + "-"@ + nat_str(p.width as nat) + "-"@ + nat_str(p.height as nat),
        StyleV::PseudoSelector(p, styles) => pseudo_join(p, styles),
        StyleV::Transform(t) => match transform_class(t) {
            Some(c) => c,
            None => Seq::empty(),
        },
    }
}

impl Clone for Property {
    fn clone(&self) -> (r: Self)
        ensures
            r@ == self@,
    {
        Property(self.0.clone(), self.1.clone())
    }
}

impl Clone for Variant {
    fn clone(&self) -> (r: Self)
        ensures
            r@ == self@,
    {
        match self {
            Variant::Active(n) => Variant::Active(n.clone()),
            Variant::Off(n) => Variant::Off(n.clone()),
            Variant::Indexed(n, i) => Variant::Indexed(n.clone(), *i),
        }
    }
}

impl Clone for Font {
    fn clone(&self) -> (r: Self)
        ensures
            r@ == self@,
    {
        match self {
            Font::Serif => Font::Serif,
            Font::SansSerif => Font::SansSerif,
            Font::Monospace => Font::Monospace,
            Font::Typeface(n) => Font::Typeface(n.clone()),
            Font::ImportFont(n, u) => Font::ImportFont(n.clone(), u.clone()),
            Font::FontWith(w) => {
                let variants = w.variants.clone();
                proof {
                    assert(variants@.map_values(|v: Variant| v@) =~= w.variants@.map_values(
                        |v: Variant| v@,
                    ));
                }
                Font::FontWith(
                    FontWith { name: w.name.clone(), adjustment: w.adjustment, variants },
                )
            },
        }
    }
}

impl Clone for Style {
    #[verifier::rlimit(40)]
    fn clone(&self) -> (r: Self)
        ensures
            r@ == self@,
        decreases self,
    {
        match self {
            Style::Style(c, props) => {
                let p = props.clone();
                proof {
                    assert(p@.map_values(|q: Property| q@) =~= props@.map_values(|q: Property| q@));
                }
                Style::Style(c.clone(), p)
            },
            Style::FontFamily(n, fonts) => {
                let f = fonts.clone();
                proof {
                    assert(f@.map_values(|q: Font| q@) =~= fonts@.map_values(|q: Font| q@));
                }
                Style::FontFamily(n.clone(), f)
            },
            Style::FontSize(i) => Style::FontSize(*i),
            Style::Single(c, p, v) => Style::Single(c.clone(), p.clone(), v.clone()),
            Style::Colored(c, p, col) => Style::Colored(c.clone(), p.clone(), *col),
            Style::Spacing(c, x, y) => Style::Spacing(c.clone(), *x, *y),
            Style::BorderWidth(c, t, r, b, l) => Style::BorderWidth(c.clone(), *t, *r, *b, *l),
            Style::Padding(c, t, r, b, l) => Style::Padding(c.clone(), *t, *r, *b, *l),
            Style::GridTemplate(g) => Style::GridTemplate(
                GridTemplate {
                    spacing: (g.spacing.0.clone(), g.spacing.1.clone()),
                    columns: clone_lengths(&g.columns),
                    rows: clone_lengths(&g.rows),
                },
            ),
            Style::GridPosition(p) => Style::GridPosition(*p),
            Style::Transform(t) => Style::Transform(*t),
            Style::PseudoSelector(p, styles) => {
                let mut out: Vec<Style> = Vec::new();
                let mut i: usize = 0;
                while i < styles.len()
                    invariant
                        i <= styles.len(),
                        out.len() == i,
                        *self is PseudoSelector,
                        self->PseudoSelector_1 == *styles,
                        forall|j: int|
                            0 <= j < i ==> #[trigger] style_view(out@[j]) == style_view(styles@[j]),
                    decreases styles.len() - i,
                {
                    proof {
                        lemma_nested_decreases(*self, i as int);
                    }
                    let c = styles[i].clone();
                    out.push(c);
                    i = i + 1;
                }
                let r = Style::PseudoSelector(*p, out);
                proof {
                    let a = style_view(r)->PseudoSelector_1;
                    let b = style_view(*self)->PseudoSelector_1;
                    assert(a.len() == b.len());
                    assert forall|k: int| 0 <= k < a.len() implies a[k] == b[k] by {
                        assert(a[k] == style_view(out@[k]));
                        assert(b[k] == style_view(styles@[k]));
                    }
                    assert(a =~= b);
                }
                r
            },
            Style::Transparency(c, t) => Style::Transparency(c.clone(), *t),
            Style::Shadows(c, v) => Style::Shadows(c.clone(), v.clone()),
        }
    }
}

pub(crate) proof fn lemma_nested_decreases(s: Style, i: int)
    requires
        s is PseudoSelector,
        0 <= i < s->PseudoSelector_1.len(),
    ensures
        decreases_to!(s => s->PseudoSelector_1[i]),
{
    broadcast use vstd::std_specs::vec::axiom_vec_index_decreases;

    let v = s->PseudoSelector_1;
    assert(decreases_to!(v => v[i]));
}

fn clone_lengths(v: &Vec<Length>) -> (r: Vec<Length>)
    ensures
        r@ == v@,
{
    let mut out: Vec<Length> = Vec::new();
    let mut i: usize = 0;
    while i < v.len()
        invariant
            i <= v.len(),
            out@ == v@.take(i as int),
        decreases v.len() - i,
    {
        out.push(v[i].clone());
        i = i + 1;
        proof {
            assert(out@ =~= v@.take(i as int));
        }
    }
    proof {
        assert(v@.take(v.len() as int) =~= v@);
    }
    out
}

/// The names of each length, joined with `-`.
pub(crate) fn lengths_text(v: &Vec<Length>) -> (r: String)
    ensures
        r@ == lengths_class(v@),
{
    let mut parts: Vec<String> = Vec::new();
    let mut i: usize = 0;
    while i < v.len()
        invariant
            i <= v.len(),
            parts.len() == i,
            forall|j: int| 0 <= j < i ==> #[trigger] parts@[j]@ == length_class(v@[j]),
        decreases v.len() - i,
    {
        parts.push(v[i].class_name());
        i = i + 1;
    }
    proof {
        assert(views(parts@) =~= v@.map_values(|l: Length| length_class(l)));
    }
    join_strings(&parts, "-")
}

fn pseudo_tag_str(p: &PseudoClass) -> (r: &'static str)
    ensures
        r@ == pseudo_tag(*p),
{
    match p {
        PseudoClass::Focus => "fs",
        PseudoClass::Hover => "hv",
        PseudoClass::Active => "act",
    }
}

impl Style {
    #[verifier::rlimit(40)]
    pub fn name(&self) -> (r: String)
        ensures
            r@ == style_name(self@),
        decreases self,
    {
        match self {
            Style::Shadows(name, _) => name.clone(),
            Style::Transparency(name, _) => name.clone(),
            Style::Style(class, _) => class.clone(),
            Style::FontFamily(name, _) => name.clone(),
            Style::FontSize(i) => {
                let mut s = String::from_str("font-size-");
                let n = crate::num::u64_str(*i as u64);
                s.append(n.as_str());
                s
            },
            Style::Single(class, _, _) => class.clone(),
            Style::Colored(class, _, _) => class.clone(),
            Style::Spacing(cls, _, _) => cls.clone(),
            Style::Padding(cls, _, _, _, _) => cls.clone(),
            Style::BorderWidth(cls, _, _, _, _) => cls.clone(),
            Style::GridTemplate(template) => {
                let mut s = String::from_str("grid-rows-");
                let rows = lengths_text(&template.rows);
                s.append(rows.as_str());
                s.append("-cols-");
                let cols = lengths_text(&template.columns);
                s.append(cols.as_str());
                s.append("-space-x-");
                let x = template.spacing.0.class_name();
                s.append(x.as_str());
                s.append("-space-y-");
                let y = template.spacing.1.class_name();
                s.append(y.as_str());
                s
            },
            Style::GridPosition(pos) => {
                let mut s = String::from_str("gp grid-pos-");
                let a = crate::num::u64_str(pos.row);
                s.append(a.as_str());
                s.append("-");
                let b = crate::num::u64_str(pos.col);
                s.append(b.as_str());
                s.append("-");
                let c = crate::num::u64_str(pos.width);
                s.append(c.as_str());
                s.append("-");
                let d = crate::num::u64_str(pos.height);
                s.append(d.as_str());
                s
            },
            Style::PseudoSelector(selector, styles) => {
                let tag = pseudo_tag_str(selector);
                let ghost sv = self@->PseudoSelector_1;
                let mut out = String::new();
                let mut i: usize = 0;
                while i < styles.len()
                    invariant
                        i <= styles.len(),
                        tag@ == pseudo_tag(*selector),
                        *self is PseudoSelector,
                        self->PseudoSelector_1 == *styles,
                        sv.len() == styles.len(),
                        forall|j: int| 0 <= j < styles.len() ==> #[trigger] sv[j] == style_view(styles@[j]),
                        out@ == pseudo_join(*selector, sv.subrange(0, i as int)),
                    decreases styles.len() - i,
                {
                    proof {
                        lemma_nested_decreases(*self, i as int);
                    }
                    let n = styles[i].name();
                    let ghost prev = out@;
                    if i > 0 {
                        out.append(" ");
                    }
                    if n.as_str().unicode_len() != 0 {
                        out.append(tag);
                        out.append("-");
                        out.append(n.as_str());
                    }
                    proof {
                        let next = sv.subrange(0, i as int + 1);
                        assert(next.subrange(0, i as int) =~= sv.subrange(0, i as int));
                        assert(next[i as int] == sv[i as int]);
                        if i > 0 {
                            assert(out@ =~= prev + " "@ + pseudo_part(*selector, style_name(sv[i as int])));
                        } else {
                            assert(out@ =~= pseudo_part(*selector, style_name(sv[i as int])));
                        }
                    }
                    i = i + 1;
                }
                proof {
                    assert(sv.subrange(0, sv.len() as int) =~= sv);
                }
                out
            },
            Style::Transform(x) => match x.class() {
                Some(c) => c,
                None => String::new(),
            },
        }
    }
}

/// A style whose class is prefixed by `label` and a dash, for the kinds that
/// carry their class name; the others are unchanged.
pub open spec fn tagged(s: StyleV, label: Seq<char>) -> StyleV {
    match s {
        StyleV::Single(c, p, v) => StyleV::Single(label + "-"@ + c, p, v),
        StyleV::Colored(c, p, v) => StyleV::Colored(label + "-"@ + c, p, v),
        StyleV::Style(c, props) => StyleV::Style(label + "-"@ + c, props),
        StyleV::Transparency(c, o) => StyleV::Transparency(label + "-"@ + c, o),
        _ => s,
    }
}

/// The border widths that the base stylesheet already holds.
pub open spec fn small_border(v: Seq<char>) -> bool {
    v == "0px"@ || v == "1px"@ || v == "2px"@ || v == "3px"@ || v == "4px"@ || v == "5px"@ || v
        == "6px"@
}

/// Whether a style is one the base stylesheet already holds, so that its
/// class alone is enough: a border width of 0 to 6 pixels, a font size of 8
/// to 32, a uniform padding of 0 to 24.
pub open spec fn is_skippable(flag: Flag, s: StyleV) -> bool {
    if flag == Flag::spec_from(27) {
        match s {
            StyleV::Single(_, _, v) => small_border(v),
            _ => false,
        }
    } else {
        match s {
            StyleV::FontSize(i) => 8 <= i <= 32,
            StyleV::Padding(_, t, r, b, l) => t == b && t == r && t == l && 0 <= t.units <= 240000,
            _ => false,
        }
    }
}

fn cat_label(label: &String, class: &String) -> (r: String)
    ensures
        r@ == label@ + "-"@ + class@,
{
    let mut s = label.clone();
    s.append("-");
    s.append(class.as_str());
    s
}

impl Style {
    pub fn tag(self, label: String) -> (r: Self)
        ensures
            r@ == tagged(self@, label@),
    {
        match self {
            Style::Single(class, prop, val) => Style::Single(cat_label(&label, &class), prop, val),
            Style::Colored(class, prop, val) => Style::Colored(cat_label(&label, &class), prop, val),
            Style::Style(class, props) => Style::Style(cat_label(&label, &class), props),
            Style::Transparency(class, o) => Style::Transparency(cat_label(&label, &class), o),
            x => x,
        }
    }

    /// The font family name and typefaces of a font-family style.
    pub fn toplevel_val(&self) -> (r: Option<(String, Vec<Font>)>)
        ensures
            r is Some <==> self@ is FontFamily,
            r is Some ==> (r->0).0@ == self@->FontFamily_0 && (r->0).1@.map_values(|f: Font| f@)
                == self@->FontFamily_1,
    {
        match self {
            Style::FontFamily(name, typefaces) => {
                let t = typefaces.clone();
                proof {
                    assert(t@.map_values(|f: Font| f@) =~= typefaces@.map_values(|f: Font| f@));
                }
                Some((name.clone(), t))
            },
            _ => None,
        }
    }
}

pub fn skippable(flag: &Flag, style: &Style) -> (r: bool)
    ensures
        r == is_skippable(*flag, style@),
{
    if *flag == Flag::border_width() {
        match style {
            Style::Single(_, _, val) => {
                *val == String::from_str("0px") || *val == String::from_str("1px") || *val
                    == String::from_str("2px") || *val == String::from_str("3px") || *val
                    == String::from_str("4px") || *val == String::from_str("5px") || *val
                    == String::from_str("6px")
            },
            _ => false,
        }
    } else {
        match style {
            Style::FontSize(i) => *i >= 8 && *i <= 32,
            Style::Padding(_, t, r, b, l) => {
                t.units == b.units && t.units == r.units && t.units == l.units && t.units >= 0
                    && t.units <= 240000
            },
            _ => false,
        }
    }
}

/// The alpha channel as a whole number: truncated, and held to the range of
/// `u32`.
pub open spec fn alpha_whole(a: Fixed) -> nat {
    if a.units <= 0 {
        0
    } else if a.units / 10000 > u32::MAX {
        u32::MAX as nat
    } else {
        (a.units / 10000) as nat
    }
}

/// CSS text of a colour: `rgba(r,g,b,a)` with channels from 0 to 255.
pub open spec fn color_text(c: Color) -> Seq<char> {
    "rgba("@ + nat_str(channel_of(c.r.units as int)) + ","@ + nat_str(channel_of(c.g.units as int))
        + ","@ + nat_str(channel_of(c.b.units as int)) + ","@ + nat_str(alpha_whole(c.a)) + ")"@
}

/// Class-name text of a colour: every channel, alpha too, from 0 to 255.
pub open spec fn color_class_text(c: Color) -> Seq<char> {
    "rgba("@ + nat_str(channel_of(c.r.units as int)) + ","@ + nat_str(channel_of(c.g.units as int))
        + ","@ + nat_str(channel_of(c.b.units as int)) + ","@ + nat_str(channel_of(c.a.units as int))
        + ")"@
}

/// CSS text of a box shadow.
pub open spec fn box_shadow_text(s: Shadow, inset: bool) -> Seq<char> {
    (if inset {
        "inset "@
    } else {
        Seq::empty()
    }) + nat_str(s.offset.0 as nat) + "px "@ + nat_str(s.offset.1 as nat) + "px "@ + nat_str(
        s.blur as nat,
    ) + "px "@ + nat_str(s.size as nat) + "px "@ + color_text(s.color)
}

/// CSS text of a drop or text shadow.
pub open spec fn shadow_text(s: Shadow) -> Seq<char> {
    nat_str(s.offset.0 as nat) + "px "@ + nat_str(s.offset.1 as nat) + "px "@ + nat_str(
        s.blur as nat,
    ) + "px "@ + color_text(s.color)
}

/// A pixel count as it stands in a shadow's class name.
pub open spec fn px_channel(n: u8) -> nat {
    channel_of(n * 10000)
}

pub open spec fn text_shadow_class_text(s: Shadow) -> Seq<char> {
    "txt"@ + nat_str(px_channel(s.offset.0)) + "px"@ + nat_str(px_channel(s.offset.1)) + "px"@
        + nat_str(px_channel(s.blur)) + "px"@ + color_text(s.color)
}

pub open spec fn box_shadow_class_text(s: Shadow, inset: bool) -> Seq<char> {
    (if inset {
        "box-inset"@
    } else {
        "box-"@
    }) + nat_str(px_channel(s.offset.0)) + "px"@ + nat_str(px_channel(s.offset.1)) + "px"@
        + nat_str(px_channel(s.blur)) + "px"@ + nat_str(px_channel(s.size)) + "px"@ + color_text(
        s.color,
    )
}

fn push_nat(s: &mut String, n: u64)
    ensures
        final(s)@ == old(s)@ + nat_str(n as nat),
{
    let t = u64_str(n);
    s.append(t.as_str());
}

fn push_px_channel(s: &mut String, n: u8)
    ensures
        final(s)@ == old(s)@ + nat_str(px_channel(n)),
{
    let f = Fixed::from_int(n as i32);
    push_nat(s, f.float_class() as u64);
}

impl Color {
    pub fn format_color(&self) -> (r: String)
        ensures
            r@ == color_text(*self),
    {
        let mut s = String::from_str("rgba(");
        push_nat(&mut s, self.r.float_class() as u64);
        s.append(",");
        push_nat(&mut s, self.g.float_class() as u64);
        s.append(",");
        push_nat(&mut s, self.b.float_class() as u64);
        s.append(",");
        let a: u64 = if self.a.units <= 0 {
            0
        } else if self.a.units / 10000 > u32::MAX as i64 {
            u32::MAX as u64
        } else {
            (self.a.units / 10000) as u64
        };
        push_nat(&mut s, a);
        s.append(")");
        s
    }

    pub fn format_color_class(&self) -> (r: String)
        ensures
            r@ == color_class_text(*self),
    {
        let mut s = String::from_str("rgba(");
        push_nat(&mut s, self.r.float_class() as u64);
        s.append(",");
        push_nat(&mut s, self.g.float_class() as u64);
        s.append(",");
        push_nat(&mut s, self.b.float_class() as u64);
        s.append(",");
        push_nat(&mut s, self.a.float_class() as u64);
        s.append(")");
        s
    }
}

impl Shadow {
    pub fn format_drop_shadow(&self) -> (r: String)
        ensures
            r@ == shadow_text(*self),
    {
        let mut s = u64_str(self.offset.0 as u64);
        s.append("px ");
        push_nat(&mut s, self.offset.1 as u64);
        s.append("px ");
        push_nat(&mut s, self.blur as u64);
        s.append("px ");
        let c = self.color.format_color();
        s.append(c.as_str());
        s
    }

    pub fn format_text_shadow(&self) -> (r: String)
        ensures
            r@ == shadow_text(*self),
    {
        self.format_drop_shadow()
    }

    pub fn text_shadow_class(&self) -> (r: String)
        ensures
            r@ == text_shadow_class_text(*self),
    {
        let mut s = String::from_str("txt");
        push_px_channel(&mut s, self.offset.0);
        s.append("px");
        push_px_channel(&mut s, self.offset.1);
        s.append("px");
        push_px_channel(&mut s, self.blur);
        s.append("px");
        let c = self.color.format_color();
        s.append(c.as_str());
        s
    }

    pub fn format_box_shadow(&self, inset: bool) -> (r: String)
        ensures
            r@ == box_shadow_text(*self, inset),
    {
        let mut s = if inset {
            String::from_str("inset ")
        } else {
            String::new()
        };
        push_nat(&mut s, self.offset.0 as u64);
        s.append("px ");
        push_nat(&mut s, self.offset.1 as u64);
        s.append("px ");
        push_nat(&mut s, self.blur as u64);
        s.append("px ");
        push_nat(&mut s, self.size as u64);
        s.append("px ");
        let c = self.color.format_color();
        s.append(c.as_str());
        s
    }

    pub fn box_shadow_class(&self, inset: bool) -> (r: String)
        ensures
            r@ == box_shadow_class_text(*self, inset),
    {
        let mut s = String::from_str(
            if inset {
                "box-inset"
            } else {
                "box-"
            },
        );
        push_px_channel(&mut s, self.offset.0);
        s.append("px");
        push_px_channel(&mut s, self.offset.1);
        s.append("px");
        push_px_channel(&mut s, self.blur);
        s.append("px");
        push_px_channel(&mut s, self.size);
        s.append("px");
        let c = self.color.format_color();
        s.append(c.as_str());
        s
    }
}

pub open spec fn quoted(n: Seq<char>) -> Seq<char> {
    "\""@ + n + "\""@
}

/// CSS text of a feature setting: `"liga"`, `"liga" 0`, `"ss" 2`.
pub open spec fn variant_text(v: VariantV) -> Seq<char> {
    match v {
        VariantV::Active(n) => quoted(n),
        VariantV::Off(n) => quoted(n) + " 0"@,
        VariantV::Indexed(n, i) => quoted(n) + " "@ + nat_str(i as nat),
    }
}

pub open spec fn variant_name(v: VariantV) -> Seq<char> {
    match v {
        VariantV::Active(n) => n,
        VariantV::Off(n) => n + "-0"@,
        VariantV::Indexed(n, i) => n + "-"@ + nat_str(i as nat),
    }
}

pub open spec fn variant_small_caps(v: VariantV) -> bool {
    match v {
        VariantV::Active(n) => n == "smcp"@,
        VariantV::Off(_) => false,
        VariantV::Indexed(n, i) => n == "smcp"@ && i == 1,
    }
}

/// The feature settings of a typeface that declares them.
pub open spec fn font_variants(f: FontV) -> Option<Seq<char>> {
    match f {
        FontV::FontWith(_, _, vs) => Some(join(vs.map_values(|v: VariantV| variant_text(v)), ", "@)),
        _ => None,
    }
}

/// The name of a font as CSS writes it in a family list.
pub open spec fn font_name(f: FontV) -> Seq<char> {
    match f {
        FontV::Serif => "serif"@,
        FontV::SansSerif => "sans-serif"@,
        FontV::Monospace => "monospace"@,
        FontV::Typeface(n) => quoted(n),
        FontV::ImportFont(n, _) => quoted(n),
        FontV::FontWith(n, _, _) => quoted(n),
    }
}

/// The name of a font as it stands in a class name.
pub open spec fn font_class_part(f: FontV) -> Seq<char> {
    match f {
        FontV::Serif => "serif"@,
        FontV::SansSerif => "sans-serif"@,
        FontV::Monospace => "monospace"@,
        FontV::Typeface(n) => dashed(lower_of(n)),
        FontV::ImportFont(n, _) => dashed(lower_of(n)),
        FontV::FontWith(n, _, _) => dashed(lower_of(n)),
    }
}

pub open spec fn font_small_caps(f: FontV) -> bool {
    match f {
        FontV::FontWith(_, _, vs) => exists|i: int| 0 <= i < vs.len() && variant_small_caps(vs[i]),
        _ => false,
    }
}

impl Variant {
    pub fn render(&self) -> (r: String)
        ensures
            r@ == variant_text(self@),
    {
        match self {
            Variant::Active(name) => {
                let mut s = String::from_str("\"");
                s.append(name.as_str());
                s.append("\"");
                s
            },
            Variant::Off(name) => {
                let mut s = String::from_str("\"");
                s.append(name.as_str());
                s.append("\"");
                s.append(" 0");
                s
            },
            Variant::Indexed(name, index) => {
                let mut s = String::from_str("\"");
                s.append(name.as_str());
                s.append("\"");
                s.append(" ");
                push_nat(&mut s, *index);
                s
            },
        }
    }

    pub fn name(&self) -> (r: String)
        ensures
            r@ == variant_name(self@),
    {
        match self {
            Variant::Active(name) => name.clone(),
            Variant::Off(name) => {
                let mut s = name.clone();
                s.append("-0");
                s
            },
            Variant::Indexed(name, index) => {
                let mut s = name.clone();
                s.append("-");
                push_nat(&mut s, *index);
                s
            },
        }
    }

    pub fn is_small_caps(&self) -> (r: bool)
        ensures
            r == variant_small_caps(self@),
    {
        match self {
            Variant::Active(name) => *name == String::from_str("smcp"),
            Variant::Off(_) => false,
            Variant::Indexed(name, index) => *name == String::from_str("smcp") && *index == 1,
        }
    }
}

fn quote(n: &String) -> (r: String)
    ensures
        r@ == quoted(n@),
{
    let mut s = String::from_str("\"");
    s.append(n.as_str());
    s.append("\"");
    s
}

impl Font {
    pub fn render_variants(&self) -> (r: Option<String>)
        ensures
            r is Some <==> font_variants(self@) is Some,
            r is Some ==> r->0@ == font_variants(self@)->0,
    {
        match self {
            Font::FontWith(font) => {
                let mut parts: Vec<String> = Vec::new();
                let mut i: usize = 0;
                while i < font.variants.len()
                    invariant
                        i <= font.variants.len(),
                        parts.len() == i,
                        forall|j: int|
                            0 <= j < i ==> #[trigger] parts@[j]@ == variant_text(font.variants@[j]@),
                    decreases font.variants.len() - i,
                {
                    parts.push(font.variants[i].render());
                    i = i + 1;
                }
                proof {
                    assert(views(parts@) =~= font.variants@.map_values(|v: Variant| v@).map_values(
                        |v: VariantV| variant_text(v),
                    ));
                }
                Some(join_strings(&parts, ", "))
            },
            _ => None,
        }
    }

    /// `current` followed by this font's class-name part.
    pub fn render_class_name(&self, current: String) -> (r: String)
        ensures
            r@ == current@ + font_class_part(self@),
    {
        let name = match self {
            Font::Serif => String::from_str("serif"),
            Font::SansSerif => String::from_str("sans-serif"),
            Font::Monospace => String::from_str("monospace"),
            Font::Typeface(name) => {
                let l = lowercase(name.as_str());
                spaces_to_dashes(l.as_str())
            },
            Font::ImportFont(name, _) => {
                let l = lowercase(name.as_str());
                spaces_to_dashes(l.as_str())
            },
            Font::FontWith(w) => {
                let l = lowercase(w.name.as_str());
                spaces_to_dashes(l.as_str())
            },
        };
        let mut current = current;
        current.append(name.as_str());
        current
    }

    pub fn name(&self) -> (r: String)
        ensures
            r@ == font_name(self@),
    {
        match self {
            Font::Serif => String::from_str("serif"),
            Font::SansSerif => String::from_str("sans-serif"),
            Font::Monospace => String::from_str("monospace"),
            Font::Typeface(name) => quote(name),
            Font::ImportFont(name, _) => quote(name),
            Font::FontWith(w) => quote(&w.name),
        }
    }

    pub fn has_small_caps(&self) -> (r: bool)
        ensures
            r == font_small_caps(self@),
    {
        match self {
            Font::FontWith(font) => {
                let ghost vs = self@->FontWith_2;
                let mut i: usize = 0;
                while i < font.variants.len()
                    invariant
                        i <= font.variants.len(),
                        *self is FontWith,
                        self->FontWith_0 == *font,
                        vs == self@->FontWith_2,
                        vs.len() == font.variants.len(),
                        forall|j: int| 0 <= j < vs.len() ==> #[trigger] vs[j] == font.variants@[j]@,
                        forall|j: int| 0 <= j < i ==> !variant_small_caps(#[trigger] vs[j]),
                    decreases font.variants.len() - i,
                {
                    if font.variants[i].is_small_caps() {
                        proof {
                            assert(variant_small_caps(vs[i as int]));
                        }
                        return true;
                    }
                    i = i + 1;
                }
                false
            },
            _ => false,
        }
    }
}

} // verus!
