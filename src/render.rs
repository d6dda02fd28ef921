use vstd::prelude::*;

use crate::classes::Classes;
use crate::length::Length;
use crate::num::{fixed_str, int_str, nat_str, u128_str, u64_str, Fixed};
use crate::options::{HoverSetting, OptStruct};
use crate::style::{
    color_text, font_name, font_small_caps, font_variants, lengths_class,
    style_view, FontV, Property, PseudoClass, Style, StyleV,
};
use crate::text::{join, join_strings, views};
use crate::transform::{transform_class, transform_value};

verus! {

/// One property line of a rule body.
pub open spec fn prop_text(force: bool, p: (Seq<char>, Seq<char>)) -> Seq<char> {
    "\n  "@ + p.0 + ": "@ + p.1 + if force {
        " !important;"@
    } else {
        ";"@
    }
}

/// The property lines of a rule body.
pub open spec fn props_text(force: bool, ps: Seq<(Seq<char>, Seq<char>)>) -> Seq<char>
    decreases ps.len(),
{
    if ps.len() == 0 {
        Seq::empty()
    } else {
        props_text(force, ps.drop_last()) + prop_text(force, ps.last())
    }
}

/// A rule: selector and body.
pub open spec fn block(sel: Seq<char>, body: Seq<char>) -> Seq<char> {
    sel + " {"@ + body + "\n}"@
}

/// The rules of one selector with its properties, under a pseudo-class if
/// one is given: hover rules follow the hover setting, focus rules come in
/// four selector variants.
pub open spec fn style_rules(
    opts: OptStruct,
    pseudo: Option<PseudoClass>,
    sel: Seq<char>,
    ps: Seq<(Seq<char>, Seq<char>)>,
) -> Seq<Seq<char>> {
    match pseudo {
        None => seq![block(sel, props_text(false, ps))],
        Some(PseudoClass::Hover) => match opts.hover {
            HoverSetting::No => Seq::empty(),
            HoverSetting::Force => seq![block(sel + "-hv"@, props_text(true, ps))],
            HoverSetting::Allow => seq![block(sel + "-hv:hover"@, props_text(false, ps))],
        },
        Some(PseudoClass::Focus) => {
            let b = props_text(false, ps);
            seq![
                block(sel + "-fs:focus"@, b),
                block(".s:focus "@ + sel + "-fs"@, b),
                block(sel + "-fs:focus-within"@, b),
                block(".ui-slide-bar:focus + .s .focusable-thumb"@ + sel + "-fs"@, b),
            ]
        },
        Some(PseudoClass::Active) => seq![block(sel + "-act:active"@, props_text(false, ps))],
    }
}

pub open spec fn props_view(v: Seq<Property>) -> Seq<(Seq<char>, Seq<char>)> {
    v.map_values(|p: Property| p@)
}

/// `existing` with one more property line.
pub fn render_props(force: bool, property: &Property, existing: &String) -> (r: String)
    ensures
        r@ == existing@ + prop_text(force, property@),
{
    let mut s = existing.clone();
    s.append("\n  ");
    s.append(property.0.as_str());
    s.append(": ");
    s.append(property.1.as_str());
    s.append(
        if force {
            " !important;"
        } else {
            ";"
        },
    );
    s
}

fn props_body(force: bool, props: &Vec<Property>) -> (r: String)
    ensures
        r@ == props_text(force, props_view(props@)),
{
    let mut s = String::new();
    let mut i: usize = 0;
    while i < props.len()
        invariant
            i <= props.len(),
            s@ == props_text(force, props_view(props@.take(i as int))),
        decreases props.len() - i,
    {
        proof {
            assert(props_view(props@.take(i as int + 1)).drop_last() =~= props_view(
                props@.take(i as int),
            ));
        }
        s = render_props(force, &props[i], &s);
        i = i + 1;
    }
    proof {
        assert(props@.take(props.len() as int) =~= props@);
    }
    s
}

fn block_text(sel: &str, body: &String) -> (r: String)
    ensures
        r@ == block(sel@, body@),
{
    let mut s = String::from_str(sel);
    s.append(" {");
    s.append(body.as_str());
    s.append("\n}");
    s
}

fn cat3(a: &str, b: &str, c: &str) -> (r: String)
    ensures
        r@ == a@ + b@ + c@,
{
    let mut s = String::from_str(a);
    s.append(b);
    s.append(c);
    s
}

/// The rules of one selector with its properties, under a pseudo-class if
/// one is given.
#[verifier::rlimit(40)]
pub fn render_style(
    opts: &OptStruct,
    pseudo: &Option<PseudoClass>,
    selector: String,
    props: Vec<Property>,
) -> (r: Vec<String>)
    ensures
        views(r@) == style_rules(*opts, *pseudo, selector@, props_view(props@)),
{
    let r = match pseudo {
        None => vec![block_text(selector.as_str(), &props_body(false, &props))],
        Some(PseudoClass::Hover) => match opts.hover {
            HoverSetting::No => Vec::new(),
            HoverSetting::Force => {
                let sel = cat3(selector.as_str(), "-hv", "");
                vec![block_text(sel.as_str(), &props_body(true, &props))]
            },
            HoverSetting::Allow => {
                let sel = cat3(selector.as_str(), "-hv:hover", "");
                vec![block_text(sel.as_str(), &props_body(false, &props))]
            },
        },
        Some(PseudoClass::Focus) => {
            let b = props_body(false, &props);
            let s1 = cat3(selector.as_str(), "-fs:focus", "");
            let s2 = cat3(".s:focus ", selector.as_str(), "-fs");
            let s3 = cat3(selector.as_str(), "-fs:focus-within", "");
            let s4 = cat3(".ui-slide-bar:focus + .s .focusable-thumb", selector.as_str(), "-fs");
            vec![
                block_text(s1.as_str(), &b),
                block_text(s2.as_str(), &b),
                block_text(s3.as_str(), &b),
                block_text(s4.as_str(), &b),
            ]
        },
        Some(PseudoClass::Active) => {
            let sel = cat3(selector.as_str(), "-act:active", "");
            vec![block_text(sel.as_str(), &props_body(false, &props))]
        },
    };
    proof {
        reveal_strlit("");
        assert(views(r@) =~= style_rules(*opts, *pseudo, selector@, props_view(props@)));
    }
    r
}

/// How a length stands in a grid template, within the bounds met on the way
/// down.
pub open spec fn grid_len(min: Option<u64>, max: Option<u64>, l: Length) -> Seq<char>
    decreases l,
{
    match l {
        Length::Px(px) => nat_str(px as nat) + "px"@,
        Length::Content => match (min, max) {
            (None, None) => "max-content"@,
            (Some(a), None) => "minmax("@ + nat_str(a as nat) + "px, max-content)"@,
            (None, Some(b)) => "minmax(max-content, "@ + nat_str(b as nat) + "px)"@,
            (Some(a), Some(b)) => "minmax("@ + nat_str(a as nat) + "px, "@ + nat_str(b as nat) + "px)"@,
        },
        Length::Fill(i) => match (min, max) {
            (None, None) => nat_str(i as nat) + "fr"@,
            (Some(a), None) => "minmax("@ + nat_str(a as nat) + "px, "@ + nat_str(i as nat) + "fr)"@,
            (None, Some(b)) => "minmax(max-content, "@ + nat_str(b as nat) + "px)"@,
            (Some(a), Some(b)) => "minmax("@ + nat_str(a as nat) + "px, "@ + nat_str(b as nat) + "px)"@,
        },
        Length::Min(m, inner) => grid_len(Some(m), max, *inner),
        Length::Max(m, inner) => grid_len(min, Some(m), *inner),
    }
}

pub open spec fn grid_lens(ls: Seq<Length>) -> Seq<Seq<char>> {
    ls.map_values(|l: Length| grid_len(None, None, l))
}

fn push_nat(s: &mut String, n: u64)
    ensures
        final(s)@ == old(s)@ + nat_str(n as nat),
{
    let t = u64_str(n);
    s.append(t.as_str());
}

fn grid_len_text(min: Option<u64>, max: Option<u64>, l: &Length) -> (r: String)
    ensures
        r@ == grid_len(min, max, *l),
    decreases l,
{
    match l {
        Length::Px(px) => {
            let mut s = u64_str(*px);
            s.append("px");
            s
        },
        Length::Content => match (min, max) {
            (None, None) => String::from_str("max-content"),
            (Some(a), None) => {
                let mut s = String::from_str("minmax(");
                push_nat(&mut s, a);
                s.append("px, max-content)");
                s
            },
            (None, Some(b)) => {
                let mut s = String::from_str("minmax(max-content, ");
                push_nat(&mut s, b);
                s.append("px)");
                s
            },
            (Some(a), Some(b)) => {
                let mut s = String::from_str("minmax(");
                push_nat(&mut s, a);
                s.append("px, ");
                push_nat(&mut s, b);
                s.append("px)");
                s
            },
        },
        Length::Fill(i) => match (min, max) {
            (None, None) => {
                let mut s = u64_str(*i);
                s.append("fr");
                s
            },
            (Some(a), None) => {
                let mut s = String::from_str("minmax(");
                push_nat(&mut s, a);
                s.append("px, ");
                push_nat(&mut s, *i);
                s.append("fr)");
                s
            },
            (None, Some(b)) => {
                let mut s = String::from_str("minmax(max-content, ");
                push_nat(&mut s, b);
                s.append("px)");
                s
            },
            (Some(a), Some(b)) => {
                let mut s = String::from_str("minmax(");
                push_nat(&mut s, a);
                s.append("px, ");
                push_nat(&mut s, b);
                s.append("px)");
                s
            },
        },
        Length::Min(m, inner) => grid_len_text(Some(*m), max, inner),
        Length::Max(m, inner) => grid_len_text(min, Some(*m), inner),
    }
}

/// How a length stands in a grid template.
pub fn to_grid_len_helper(min: &Option<u64>, max: &Option<u64>, l: &Length) -> (r: String)
    ensures
        r@ == grid_len(*min, *max, *l),
{
    grid_len_text(*min, *max, l)
}

fn grid_lens_text(ls: &Vec<Length>, sep: &str) -> (r: String)
    ensures
        r@ == join(grid_lens(ls@), sep@),
{
    let mut parts: Vec<String> = Vec::new();
    let mut i: usize = 0;
    while i < ls.len()
        invariant
            i <= ls.len(),
            parts.len() == i,
            forall|j: int| 0 <= j < i ==> #[trigger] parts@[j]@ == grid_len(None, None, ls@[j]),
        decreases ls.len() - i,
    {
        parts.push(grid_len_text(None, None, &ls[i]));
        i = i + 1;
    }
    proof {
        assert(views(parts@) =~= grid_lens(ls@));
    }
    join_strings(&parts, sep)
}

/// Opacity for a transparency: one less the transparency, held to 0..1.
pub open spec fn opacity_units(t: Fixed) -> int {
    let o = 10000 - t.units;
    if o < 0 {
        0
    } else if o > 10000 {
        10000
    } else {
        o
    }
}

/// The feature settings of those fonts that declare them.
pub open spec fn declared_variants(fonts: Seq<FontV>) -> Seq<Seq<char>>
    decreases fonts.len(),
{
    if fonts.len() == 0 {
        Seq::empty()
    } else {
        declared_variants(fonts.drop_last()) + match font_variants(fonts.last()) {
            Some(v) => seq![v],
            None => Seq::empty(),
        }
    }
}

pub open spec fn family_props(fonts: Seq<FontV>) -> Seq<(Seq<char>, Seq<char>)> {
    seq![
        ("font-family"@, join(fonts.map_values(|f: FontV| font_name(f)), " ,"@)),
        ("font-feature-settings"@, join(declared_variants(fonts), ", "@)),
        (
            "font-variant"@,
            if exists|i: int| 0 <= i < fonts.len() && font_small_caps(fonts[i]) {
                "small-caps"@
            } else {
                "normal"@
            },
        ),
    ]
}

pub open spec fn px(n: int) -> Seq<char> {
    int_str(n) + "px"@
}

/// The rules a spacing of `x` by `y` stands for: margins between the
/// children of rows, wrapped rows, columns, pages and paragraphs, and the
/// line-height corrections of text areas and paragraphs.
/// Names of the classes that spacing rules select on.
pub open spec fn cls_sel(c: Classes) -> Seq<char> {
    "."@ + c.name()
}

/// The margins a spacing of `x` by `y` sets between the children of rows,
/// wrapped rows, columns and pages.
pub open spec fn spacing_layout_rules(
    opts: OptStruct,
    pseudo: Option<PseudoClass>,
    cls: Seq<char>,
    x: u32,
    y: u32,
) -> Seq<Seq<char>> {
    let class = "."@ + cls;
    let any = cls_sel(Classes::Any);
    let half = fixed_str(y * 5000) + "px"@ + " "@ + fixed_str(x * 5000) + "px"@;
    style_rules(opts, pseudo, class + cls_sel(Classes::Row) + " > "@ + any + " + "@ + any, seq![("margin-left"@, px(x as int))])
        + style_rules(opts, pseudo, class + (cls_sel(Classes::Wrapped) + cls_sel(Classes::Row)) + " > "@ + any, seq![("margin"@, half)])
        + style_rules(opts, pseudo, class + cls_sel(Classes::Column) + " > "@ + any + " + "@ + any, seq![("margin-top"@, px(y as int))])
        + style_rules(opts, pseudo, class + cls_sel(Classes::Page) + " > "@ + any + " + "@ + any, seq![("margin-top"@, px(y as int))])
        + style_rules(opts, pseudo, class + cls_sel(Classes::Page) + " > "@ + cls_sel(Classes::AlignLeft), seq![("margin-right"@, px(x as int))])
        + style_rules(opts, pseudo, class + cls_sel(Classes::Page) + " > "@ + cls_sel(Classes::AlignRight), seq![("margin-left"@, px(x as int))])
}

pub open spec fn spacer(margin: Seq<char>, y: u32) -> Seq<(Seq<char>, Seq<char>)> {
    seq![
        ("content"@, "''"@),
        ("display"@, "block"@),
        ("height"@, "0"@),
        ("width"@, "0"@),
        (margin, px(-((y / 2) as int))),
    ]
}

/// The line spacing a spacing of `y` sets in paragraphs and text areas, and
/// the margins of floated paragraph children.
pub open spec fn spacing_text_rules(
    opts: OptStruct,
    pseudo: Option<PseudoClass>,
    cls: Seq<char>,
    x: u32,
    y: u32,
) -> Seq<Seq<char>> {
    let class = "."@ + cls;
    let paragraph = cls_sel(Classes::Paragraph);
    let line = "calc(1em + "@ + px(y as int) + ")"@;
    style_rules(opts, pseudo, class + paragraph, seq![("line-height"@, line)])
        + style_rules(
        opts,
        pseudo,
        "textarea"@ + cls_sel(Classes::Any) + class,
        seq![("line-height"@, line), ("height"@, "calc(100% + "@ + px(y as int) + ")"@)],
    ) + style_rules(opts, pseudo, class + paragraph + " > "@ + cls_sel(Classes::AlignLeft), seq![("margin-right"@, px(x as int))])
        + style_rules(opts, pseudo, class + " "@ + paragraph + " > "@ + cls_sel(Classes::AlignRight), seq![("margin-left"@, px(x as int))])
        + style_rules(opts, pseudo, class + " "@ + paragraph + "::after"@, spacer("margin-top"@, y))
        + style_rules(opts, pseudo, class + " "@ + paragraph + "::before"@, spacer("margin-bottom"@, y))
}

/// The rules a spacing of `x` by `y` stands for.
pub open spec fn spacing_rules(
    opts: OptStruct,
    pseudo: Option<PseudoClass>,
    cls: Seq<char>,
    x: u32,
    y: u32,
) -> Seq<Seq<char>> {
    spacing_layout_rules(opts, pseudo, cls, x, y) + spacing_text_rules(opts, pseudo, cls, x, y)
}

pub open spec fn grid_template_rules(spacing: (Length, Length), columns: Seq<Length>, rows: Seq<Length>) -> Seq<Seq<char>> {
    let class = ".grid-rows-"@ + lengths_class(rows) + "-cols-"@ + lengths_class(columns) + "-space-x-"@
        + crate::length::length_class(spacing.0) + "-space-y-"@ + crate::length::length_class(spacing.1);
    let spacing_y = grid_len(None, None, spacing.1);
    let ms_cols = "-ms-grid-columns: "@ + join(grid_lens(columns), spacing_y) + ";"@;
    let ms_rows = "-ms-grid-rows: "@ + join(grid_lens(rows), spacing_y) + ";"@;
    let base = class + "{"@ + ms_cols + ms_rows + "}"@;
    let cols = "grid-template-columns: "@ + join(grid_lens(columns), " "@) + ";"@;
    let rws = "grid-template-rows: "@ + join(grid_lens(rows), " "@) + ";"@;
    let gap_x = "grid-column-gap:"@ + grid_len(None, None, spacing.0) + ";"@;
    let gap_y = "grid-row-gap:"@ + grid_len(None, None, spacing.1) + ";"@;
    let modern = class + "{"@ + cols + rws + gap_x + gap_y + "}"@;
    seq![base, "@supports (display:grid) {"@ + modern + "}"@]
}

pub open spec fn grid_position_rules(p: crate::style::GridPosition) -> Seq<Seq<char>> {
    let class = ".grid-pos-"@ + nat_str(p.row as nat) + "-"@ + nat_str(p.col as nat) + "-"@ + nat_str(
        p.width as nat,
    ) + "-"@ + nat_str(p.height as nat);
    let ms_pos = "-ms-grid-row: "@ + nat_str(p.row as nat) + "; -ms-grid-row-span: "@ + nat_str(
        p.height as nat,
    ) + "; -ms-grid-column: "@ + nat_str(p.col as nat) + "; -ms-grid-column-span: "@ + nat_str(
        p.width as nat,
    ) + ";"@;
    let modern_pos = "grid-row: "@ + nat_str(p.row as nat) + " / "@ + nat_str((p.row + p.height) as nat)
        + "; grid-column: "@ + nat_str(p.col as nat) + " / "@ + nat_str((p.col + p.width) as nat) + ";"@;
    seq![
        class + "{"@ + ms_pos + "}"@,
        "@supports (display:grid) {"@ + class + "{"@ + modern_pos + "}"@ + "}"@,
    ]
}

/// The CSS rules of one style, under a pseudo-class if one is given.
pub open spec fn rule_texts(opts: OptStruct, s: StyleV, pseudo: Option<PseudoClass>) -> Seq<Seq<char>>
    decreases s,
{
    match s {
        StyleV::Style(sel, props) => style_rules(opts, pseudo, sel, props),
        StyleV::Shadows(name, prop) => style_rules(opts, pseudo, "."@ + name, seq![("box-shadow"@, prop)]),
        StyleV::Transparency(name, t) => style_rules(
            opts,
            pseudo,
            "."@ + name,
            seq![("opacity"@, fixed_str(opacity_units(t)))],
        ),
        StyleV::FontSize(i) => style_rules(
            opts,
            pseudo,
            ".font-size-"@ + nat_str(i as nat),
            seq![("font-size"@, nat_str(i as nat) + "px"@)],
        ),
        StyleV::FontFamily(name, fonts) => style_rules(opts, pseudo, "."@ + name, family_props(fonts)),
        StyleV::Single(c, p, v) => style_rules(opts, pseudo, "."@ + c, seq![(p, v)]),
        StyleV::Colored(c, p, col) => style_rules(opts, pseudo, "."@ + c, seq![(p, color_text(col))]),
        StyleV::Spacing(cls, x, y) => spacing_rules(opts, pseudo, cls, x, y),
        StyleV::Padding(cls, t, r, b, l) => style_rules(
            opts,
            pseudo,
            "."@ + cls,
            seq![
                (
                    "padding"@,
                    fixed_str(t.units as int) + "px "@ + fixed_str(r.units as int) + "px "@ + fixed_str(
                        b.units as int,
                    ) + "px "@ + fixed_str(l.units as int) + "px"@,
                ),
            ],
        ),
        StyleV::BorderWidth(cls, t, r, b, l) => style_rules(
            opts,
            pseudo,
            "."@ + cls,
            seq![
                (
                    "border-width"@,
                    nat_str(t as nat) + "px "@ + nat_str(r as nat) + "px "@ + nat_str(b as nat) + "px "@
                        + nat_str(l as nat) + "px"@,
                ),
            ],
        ),
        StyleV::GridTemplate(spacing, columns, rows) => grid_template_rules(spacing, columns, rows),
        StyleV::GridPosition(p) => grid_position_rules(p),
        StyleV::PseudoSelector(p, styles) => nested_rules(opts, p, styles),
        StyleV::Transform(t) => match (transform_class(t), transform_value(t)) {
            (Some(c), Some(v)) => style_rules(opts, pseudo, "."@ + c, seq![("transform"@, v)]),
            _ => Seq::empty(),
        },
    }
}

/// The rules of nested styles, each under the pseudo-class.
pub open spec fn nested_rules(opts: OptStruct, p: PseudoClass, styles: Seq<StyleV>) -> Seq<Seq<char>>
    decreases styles,
{
    if styles.len() == 0 {
        Seq::empty()
    } else {
        nested_rules(opts, p, styles.subrange(0, styles.len() - 1)) + rule_texts(
            opts,
            styles[styles.len() - 1],
            Some(p),
        )
    }
}

fn extend_rules(out: &mut Vec<String>, more: Vec<String>)
    ensures
        views(final(out)@) == views(old(out)@) + views(more@),
{
    let ghost added = more@;
    let mut more = more;
    out.append(&mut more);
    proof {
        assert(views(out@) =~= views(old(out)@) + views(added));
    }
}

fn one_prop(k: &str, v: String) -> (r: Vec<Property>)
    ensures
        props_view(r@) == seq![(k@, v@)],
{
    let r = vec![Property(String::from_str(k), v)];
    proof {
        assert(props_view(r@) =~= seq![(k@, v@)]);
    }
    r
}

fn px_text(n: i64) -> (r: String)
    ensures
        r@ == px(n as int),
{
    let mut s = crate::num::i64_str(n);
    s.append("px");
    s
}

fn dot(c: &str) -> (r: String)
    ensures
        r@ == "."@ + c@,
{
    let mut s = String::from_str(".");
    s.append(c);
    s
}

fn spacer_props(margin: &str, y: u32) -> (r: Vec<Property>)
    ensures
        props_view(r@) == spacer(margin@, y),
{
    let half_line: i64 = -((y / 2) as i64);
    let r = vec![
        Property(String::from_str("content"), String::from_str("''")),
        Property(String::from_str("display"), String::from_str("block")),
        Property(String::from_str("height"), String::from_str("0")),
        Property(String::from_str("width"), String::from_str("0")),
        Property(String::from_str(margin), px_text(half_line)),
    ];
    proof {
        assert(props_view(r@) =~= spacer(margin@, y));
    }
    r
}

fn calc_text(prefix: &str, y: u32) -> (r: String)
    ensures
        r@ == prefix@ + px(y as int) + ")"@,
{
    let mut s = String::from_str(prefix);
    let p = px_text(y as i64);
    s.append(p.as_str());
    s.append(")");
    s
}

/// `a + b + " > " + c`, and with `sibling` one more ` + c`.
fn child_sel(a: &String, b: &String, c: &String, sibling: bool) -> (r: String)
    ensures
        r@ == if sibling {
            a@ + b@ + " > "@ + c@ + " + "@ + c@
        } else {
            a@ + b@ + " > "@ + c@
        },
{
    let mut s = a.clone();
    s.append(b.as_str());
    s.append(" > ");
    s.append(c.as_str());
    if sibling {
        s.append(" + ");
        s.append(c.as_str());
    }
    s
}

fn cls_text(c: Classes) -> (r: String)
    ensures
        r@ == cls_sel(c),
{
    dot(c.to_string())
}

#[verifier::rlimit(40)]
fn spacing_layout_texts(
    opts: &OptStruct,
    pseudo: &Option<PseudoClass>,
    cls: &String,
    x: u32,
    y: u32,
) -> (r: Vec<String>)
    ensures
        views(r@) == spacing_layout_rules(*opts, *pseudo, cls@, x, y),
{
    let class = dot(cls.as_str());
    let any = cls_text(Classes::Any);
    let page = cls_text(Classes::Page);
    let mut wrapped_row = cls_text(Classes::Wrapped);
    let row = cls_text(Classes::Row);
    wrapped_row.append(row.as_str());
    let mut half = Fixed::from_units(y as i64 * 5000).to_text();
    half.append("px");
    half.append(" ");
    let hx = Fixed::from_units(x as i64 * 5000).to_text();
    half.append(hx.as_str());
    half.append("px");
    let r1 = render_style(
        opts,
        pseudo,
        child_sel(&class, &row, &any, true),
        one_prop("margin-left", px_text(x as i64)),
    );
    let r2 = render_style(opts, pseudo, child_sel(&class, &wrapped_row, &any, false), one_prop("margin", half));
    let r3 = render_style(
        opts,
        pseudo,
        child_sel(&class, &cls_text(Classes::Column), &any, true),
        one_prop("margin-top", px_text(y as i64)),
    );
    let r4 = render_style(
        opts,
        pseudo,
        child_sel(&class, &page, &any, true),
        one_prop("margin-top", px_text(y as i64)),
    );
    let r5 = render_style(
        opts,
        pseudo,
        child_sel(&class, &page, &cls_text(Classes::AlignLeft), false),
        one_prop("margin-right", px_text(x as i64)),
    );
    let r6 = render_style(
        opts,
        pseudo,
        child_sel(&class, &page, &cls_text(Classes::AlignRight), false),
        one_prop("margin-left", px_text(x as i64)),
    );
    let mut out = r1;
    extend_rules(&mut out, r2);
    extend_rules(&mut out, r3);
    extend_rules(&mut out, r4);
    extend_rules(&mut out, r5);
    extend_rules(&mut out, r6);
    out
}

#[verifier::rlimit(50)]
fn spacing_text_texts(
    opts: &OptStruct,
    pseudo: &Option<PseudoClass>,
    cls: &String,
    x: u32,
    y: u32,
) -> (r: Vec<String>)
    ensures
        views(r@) == spacing_text_rules(*opts, *pseudo, cls@, x, y),
{
    let class = dot(cls.as_str());
    let paragraph = cls_text(Classes::Paragraph);
    let mut spaced_paragraph = class.clone();
    spaced_paragraph.append(" ");
    let mut sel1 = class.clone();
    sel1.append(paragraph.as_str());
    let r1 = render_style(opts, pseudo, sel1, one_prop("line-height", calc_text("calc(1em + ", y)));
    let mut sel2 = String::from_str("textarea");
    let any = cls_text(Classes::Any);
    sel2.append(any.as_str());
    sel2.append(class.as_str());
    let props = vec![
        Property(String::from_str("line-height"), calc_text("calc(1em + ", y)),
        Property(String::from_str("height"), calc_text("calc(100% + ", y)),
    ];
    proof {
        assert(props_view(props@) =~= seq![
            ("line-height"@, "calc(1em + "@ + px(y as int) + ")"@),
            ("height"@, "calc(100% + "@ + px(y as int) + ")"@),
        ]);
    }
    let r2 = render_style(opts, pseudo, sel2, props);
    let r3 = render_style(
        opts,
        pseudo,
        child_sel(&class, &paragraph, &cls_text(Classes::AlignLeft), false),
        one_prop("margin-right", px_text(x as i64)),
    );
    let r4 = render_style(
        opts,
        pseudo,
        child_sel(&spaced_paragraph, &paragraph, &cls_text(Classes::AlignRight), false),
        one_prop("margin-left", px_text(x as i64)),
    );
    let mut sel5 = spaced_paragraph.clone();
    sel5.append(paragraph.as_str());
    sel5.append("::after");
    let r5 = render_style(opts, pseudo, sel5, spacer_props("margin-top", y));
    let mut sel6 = spaced_paragraph;
    sel6.append(paragraph.as_str());
    sel6.append("::before");
    let r6 = render_style(opts, pseudo, sel6, spacer_props("margin-bottom", y));
    let mut out = r1;
    extend_rules(&mut out, r2);
    extend_rules(&mut out, r3);
    extend_rules(&mut out, r4);
    extend_rules(&mut out, r5);
    extend_rules(&mut out, r6);
    out
}

fn spacing_texts(opts: &OptStruct, pseudo: &Option<PseudoClass>, cls: &String, x: u32, y: u32) -> (r:
    Vec<String>)
    ensures
        views(r@) == spacing_rules(*opts, *pseudo, cls@, x, y),
{
    let mut out = spacing_layout_texts(opts, pseudo, cls, x, y);
    extend_rules(&mut out, spacing_text_texts(opts, pseudo, cls, x, y));
    out
}

#[verifier::rlimit(40)]
fn family_props_of(fonts: &Vec<crate::style::Font>) -> (r: Vec<Property>)
    ensures
        props_view(r@) == family_props(fonts@.map_values(|f: crate::style::Font| f@)),
{
    let ghost fv = fonts@.map_values(|f: crate::style::Font| f@);
    let mut names: Vec<String> = Vec::new();
    let mut features: Vec<String> = Vec::new();
    let mut small_caps = false;
    let mut i: usize = 0;
    while i < fonts.len()
        invariant
            i <= fonts.len(),
            fv == fonts@.map_values(|f: crate::style::Font| f@),
            names.len() == i,
            forall|j: int| 0 <= j < i ==> #[trigger] names@[j]@ == font_name(fv[j]),
            views(features@) == declared_variants(fv.take(i as int)),
            small_caps == exists|j: int| 0 <= j < i && font_small_caps(fv[j]),
        decreases fonts.len() - i,
    {
        names.push(fonts[i].name());
        match fonts[i].render_variants() {
            Some(v) => features.push(v),
            None => {},
        }
        if fonts[i].has_small_caps() {
            small_caps = true;
        }
        proof {
            assert(fv.take(i as int + 1).drop_last() =~= fv.take(i as int));
            assert(views(features@) =~= declared_variants(fv.take(i as int + 1)));
            if !small_caps {
                assert(forall|j: int| 0 <= j < i + 1 ==> !font_small_caps(#[trigger] fv[j]));
            } else {
                if !font_small_caps(fv[i as int]) {
                    let j = choose|j: int| 0 <= j < i && font_small_caps(fv[j]);
                    assert(0 <= j < i + 1 && font_small_caps(fv[j]));
                }
            }
        }
        i = i + 1;
    }
    proof {
        assert(fv.take(fonts.len() as int) =~= fv);
        assert(views(names@) =~= fv.map_values(|f: FontV| font_name(f)));
    }
    let r = vec![
        Property(String::from_str("font-family"), join_strings(&names, " ,")),
        Property(String::from_str("font-feature-settings"), join_strings(&features, ", ")),
        Property(
            String::from_str("font-variant"),
            String::from_str(
                if small_caps {
                    "small-caps"
                } else {
                    "normal"
                },
            ),
        ),
    ];
    proof {
        assert(props_view(r@) =~= family_props(fv));
    }
    r
}

fn fixed_px_list(a: Fixed, b: Fixed, c: Fixed, d: Fixed) -> (r: String)
    ensures
        r@ == fixed_str(a.units as int) + "px "@ + fixed_str(b.units as int) + "px "@ + fixed_str(
            c.units as int,
        ) + "px "@ + fixed_str(d.units as int) + "px"@,
{
    let mut s = a.to_text();
    s.append("px ");
    let t = b.to_text();
    s.append(t.as_str());
    s.append("px ");
    let t = c.to_text();
    s.append(t.as_str());
    s.append("px ");
    let t = d.to_text();
    s.append(t.as_str());
    s.append("px");
    s
}

#[verifier::rlimit(40)]
fn grid_template_texts(t: &crate::style::GridTemplate) -> (r: Vec<String>)
    ensures
        views(r@) == grid_template_rules(t.spacing, t.columns@, t.rows@),
{
    let mut class = String::from_str(".grid-rows-");
    let rows = crate::style::lengths_text(&t.rows);
    class.append(rows.as_str());
    class.append("-cols-");
    let cols = crate::style::lengths_text(&t.columns);
    class.append(cols.as_str());
    class.append("-space-x-");
    let x = t.spacing.0.class_name();
    class.append(x.as_str());
    class.append("-space-y-");
    let y = t.spacing.1.class_name();
    class.append(y.as_str());
    let spacing_y = grid_len_text(None, None, &t.spacing.1);
    let mut base = class.clone();
    base.append("{");
    base.append("-ms-grid-columns: ");
    let c = grid_lens_text(&t.columns, spacing_y.as_str());
    base.append(c.as_str());
    base.append(";");
    base.append("-ms-grid-rows: ");
    let r = grid_lens_text(&t.rows, spacing_y.as_str());
    base.append(r.as_str());
    base.append(";");
    base.append("}");
    let mut modern = class;
    modern.append("{");
    modern.append("grid-template-columns: ");
    let c = grid_lens_text(&t.columns, " ");
    modern.append(c.as_str());
    modern.append(";");
    modern.append("grid-template-rows: ");
    let r = grid_lens_text(&t.rows, " ");
    modern.append(r.as_str());
    modern.append(";");
    modern.append("grid-column-gap:");
    let g = grid_len_text(None, None, &t.spacing.0);
    modern.append(g.as_str());
    modern.append(";");
    modern.append("grid-row-gap:");
    modern.append(spacing_y.as_str());
    modern.append(";");
    modern.append("}");
    let mut supports = String::from_str("@supports (display:grid) {");
    supports.append(modern.as_str());
    supports.append("}");
    proof {
        assert(base@ =~= grid_template_rules(t.spacing, t.columns@, t.rows@)[0]);
        assert(supports@ =~= grid_template_rules(t.spacing, t.columns@, t.rows@)[1]);
    }
    let out = vec![base, supports];
    proof {
        assert(views(out@) =~= grid_template_rules(t.spacing, t.columns@, t.rows@));
    }
    out
}

#[verifier::rlimit(40)]
fn grid_position_texts(p: &crate::style::GridPosition) -> (r: Vec<String>)
    ensures
        views(r@) == grid_position_rules(*p),
{
    let mut class = String::from_str(".grid-pos-");
    push_nat(&mut class, p.row);
    class.append("-");
    push_nat(&mut class, p.col);
    class.append("-");
    push_nat(&mut class, p.width);
    class.append("-");
    push_nat(&mut class, p.height);
    let mut base = class.clone();
    base.append("{");
    base.append("-ms-grid-row: ");
    push_nat(&mut base, p.row);
    base.append("; -ms-grid-row-span: ");
    push_nat(&mut base, p.height);
    base.append("; -ms-grid-column: ");
    push_nat(&mut base, p.col);
    base.append("; -ms-grid-column-span: ");
    push_nat(&mut base, p.width);
    base.append(";");
    base.append("}");
    let mut supports = String::from_str("@supports (display:grid) {");
    supports.append(class.as_str());
    supports.append("{");
    supports.append("grid-row: ");
    push_nat(&mut supports, p.row);
    supports.append(" / ");
    let end_row = u128_str(p.row as u128 + p.height as u128);
    supports.append(end_row.as_str());
    supports.append("; grid-column: ");
    push_nat(&mut supports, p.col);
    supports.append(" / ");
    let end_col = u128_str(p.col as u128 + p.width as u128);
    supports.append(end_col.as_str());
    supports.append(";");
    supports.append("}");
    supports.append("}");
    proof {
        assert(base@ =~= grid_position_rules(*p)[0]);
        assert(supports@ =~= grid_position_rules(*p)[1]);
    }
    let out = vec![base, supports];
    proof {
        assert(views(out@) =~= grid_position_rules(*p));
    }
    out
}

/// The CSS rules of one style, under a pseudo-class if one is given.
#[verifier::rlimit(40)]
pub fn todo_render_style_rule(opts: &OptStruct, rule: &Style, pseudo: &Option<PseudoClass>) -> (r:
    Vec<String>)
    ensures
        views(r@) == rule_texts(*opts, rule@, *pseudo),
    decreases rule,
{
    match rule {
        Style::Style(selector, props) => {
            let p = clone_props(props);
            render_style(opts, pseudo, selector.clone(), p)
        },
        Style::Shadows(name, prop) => render_style(
            opts,
            pseudo,
            dot(name.as_str()),
            one_prop("box-shadow", prop.clone()),
        ),
        Style::Transparency(name, t) => {
            let o: i128 = 10000 - t.units as i128;
            let o: i64 = if o < 0 {
                0
            } else if o > 10000 {
                10000
            } else {
                o as i64
            };
            render_style(
                opts,
                pseudo,
                dot(name.as_str()),
                one_prop("opacity", Fixed::from_units(o).to_text()),
            )
        },
        Style::FontSize(i) => {
            let mut sel = String::from_str(".font-size-");
            push_nat(&mut sel, *i as u64);
            let mut v = u64_str(*i as u64);
            v.append("px");
            render_style(opts, pseudo, sel, one_prop("font-size", v))
        },
        Style::FontFamily(name, typefaces) => render_style(
            opts,
            pseudo,
            dot(name.as_str()),
            family_props_of(typefaces),
        ),
        Style::Single(class, prop, val) => {
            let p = vec![Property(prop.clone(), val.clone())];
            proof {
                assert(props_view(p@) =~= seq![(prop@, val@)]);
            }
            render_style(opts, pseudo, dot(class.as_str()), p)
        },
        Style::Colored(class, prop, color) => {
            let p = vec![Property(prop.clone(), color.format_color())];
            proof {
                assert(props_view(p@) =~= seq![(prop@, color_text(*color))]);
            }
            render_style(opts, pseudo, dot(class.as_str()), p)
        },
        Style::Spacing(cls, x, y) => spacing_texts(opts, pseudo, cls, *x, *y),
        Style::Padding(cls, top, right, bottom, left) => render_style(
            opts,
            pseudo,
            dot(cls.as_str()),
            one_prop("padding", fixed_px_list(*top, *right, *bottom, *left)),
        ),
        Style::BorderWidth(cls, top, right, bottom, left) => {
            let mut v = u64_str(*top as u64);
            v.append("px ");
            push_nat(&mut v, *right as u64);
            v.append("px ");
            push_nat(&mut v, *bottom as u64);
            v.append("px ");
            push_nat(&mut v, *left as u64);
            v.append("px");
            render_style(opts, pseudo, dot(cls.as_str()), one_prop("border-width", v))
        },
        Style::GridTemplate(template) => grid_template_texts(template),
        Style::GridPosition(pos) => grid_position_texts(pos),
        Style::PseudoSelector(class, styles) => {
            let ghost sv = rule@->PseudoSelector_1;
            let mut out: Vec<String> = Vec::new();
            let nested = Some(*class);
            let mut i: usize = 0;
            while i < styles.len()
                invariant
                    i <= styles.len(),
                    *rule is PseudoSelector,
                    rule->PseudoSelector_1 == *styles,
                    nested == Some(*class),
                    sv.len() == styles.len(),
                    forall|j: int| 0 <= j < styles.len() ==> #[trigger] sv[j] == style_view(styles@[j]),
                    views(out@) == nested_rules(*opts, *class, sv.subrange(0, i as int)),
                decreases styles.len() - i,
            {
                proof {
                    crate::style::lemma_nested_decreases(*rule, i as int);
                }
                let more = todo_render_style_rule(opts, &styles[i], &nested);
                extend_rules(&mut out, more);
                proof {
                    let next = sv.subrange(0, i as int + 1);
                    assert(next.subrange(0, i as int) =~= sv.subrange(0, i as int));
                    assert(next[i as int] == sv[i as int]);
                }
                i = i + 1;
            }
            proof {
                assert(sv.subrange(0, sv.len() as int) =~= sv);
            }
            out
        },
        Style::Transform(transform) => {
            let val = transform.value();
            let class = transform.class();
            match (class, val) {
                (Some(c), Some(v)) => render_style(
                    opts,
                    pseudo,
                    dot(c.as_str()),
                    one_prop("transform", v),
                ),
                _ => Vec::new(),
            }
        },
    }
}

fn clone_props(v: &Vec<Property>) -> (r: Vec<Property>)
    ensures
        props_view(r@) == props_view(v@),
{
    let r = v.clone();
    proof {
        assert(props_view(r@) =~= props_view(v@));
    }
    r
}

} // verus!
