use vstd::prelude::*;

use crate::adjust::{family_adjustment, rule_view, typeface_rules};
use crate::classes::Classes;
use crate::options::OptStruct;
use crate::reduce::style_views;
use crate::render::{rule_texts, todo_render_style_rule};
use crate::style::{Font, FontV, Style, StyleV};
use crate::text::{concat, concat_strings, join, join_strings, views};

verus! {

/// A selector with its declarations, on one line.
pub open spec fn bracket_text(selector: Seq<char>, rules: Seq<(Seq<char>, Seq<char>)>) -> Seq<char> {
    selector + " {"@ + concat(rules.map_values(|r: (Seq<char>, Seq<char>)| r.0 + ": "@ + r.1 + ";"@))
        + "}"@
}

pub open spec fn pairs_view(v: Seq<(String, String)>) -> Seq<(Seq<char>, Seq<char>)> {
    v.map_values(|p: (String, String)| (p.0@, p.1@))
}

/// A selector with its declarations, on one line.
pub fn bracket(selector: &String, rules: &Vec<(String, String)>) -> (r: String)
    ensures
        r@ == bracket_text(selector@, pairs_view(rules@)),
{
    let mut parts: Vec<String> = Vec::new();
    let mut i: usize = 0;
    while i < rules.len()
        invariant
            i <= rules.len(),
            parts.len() == i,
            forall|j: int|
                0 <= j < i ==> #[trigger] parts@[j]@ == rules@[j].0@ + ": "@ + rules@[j].1@ + ";"@,
        decreases rules.len() - i,
    {
        let mut p = rules[i].0.clone();
        p.append(": ");
        p.append(rules[i].1.as_str());
        p.append(";");
        parts.push(p);
        i = i + 1;
    }
    proof {
        assert(views(parts@) =~= pairs_view(rules@).map_values(
            |r: (Seq<char>, Seq<char>)| r.0 + ": "@ + r.1 + ";"@,
        ));
    }
    let body = concat_strings(&parts);
    let mut s = selector.clone();
    s.append(" {");
    s.append(body.as_str());
    s.append("}");
    s
}

/// The class a font family is set on, seen from another family's class:
/// itself, or nested under the other.
pub open spec fn scoped_name(target: Seq<char>, other: Seq<char>) -> Seq<char> {
    if target == other {
        target
    } else {
        other + " ."@ + target
    }
}

/// The rules that keep text of a family without metrics at line height 1
/// when sized by capitals.
pub open spec fn null_adjustment_text(target: Seq<char>, other: Seq<char>) -> Seq<char> {
    let name = scoped_name(target, other);
    let cap = Classes::SizeByCapital.name();
    let t = Classes::Text.name();
    bracket_text("."@ + name + "."@ + cap + ", ."@ + name + " ."@ + cap, seq![("line-height"@, "1"@)])
        + " "@ + bracket_text(
        "."@ + name + "."@ + cap + "> ."@ + t + ", ."@ + name + " ."@ + cap + " > ."@ + t,
        seq![("vertical-align"@, "0"@), ("line-height"@, "1"@)],
    )
}

fn scoped(target: &String, other: &String) -> (r: String)
    ensures
        r@ == scoped_name(target@, other@),
{
    if *target == *other {
        target.clone()
    } else {
        let mut s = other.clone();
        s.append(" .");
        s.append(target.as_str());
        s
    }
}

fn pair(a: &str, b: &str) -> (r: (String, String))
    ensures
        r.0@ == a@,
        r.1@ == b@,
{
    (String::from_str(a), String::from_str(b))
}

pub fn render_null_adjustment_rule(target: &String, other: &String) -> (r: String)
    ensures
        r@ == null_adjustment_text(target@, other@),
{
    let name = scoped(target, other);
    let cap = Classes::SizeByCapital.to_string();
    let t = Classes::Text.to_string();
    let mut sel1 = String::from_str(".");
    sel1.append(name.as_str());
    sel1.append(".");
    sel1.append(cap);
    sel1.append(", .");
    sel1.append(name.as_str());
    sel1.append(" .");
    sel1.append(cap);
    let rules1 = vec![pair("line-height", "1")];
    proof {
        assert(pairs_view(rules1@) =~= seq![("line-height"@, "1"@)]);
    }
    let x = bracket(&sel1, &rules1);
    let mut sel2 = String::from_str(".");
    sel2.append(name.as_str());
    sel2.append(".");
    sel2.append(cap);
    sel2.append("> .");
    sel2.append(t);
    sel2.append(", .");
    sel2.append(name.as_str());
    sel2.append(" .");
    sel2.append(cap);
    sel2.append(" > .");
    sel2.append(t);
    let rules2 = vec![pair("vertical-align", "0"), pair("line-height", "1")];
    proof {
        assert(pairs_view(rules2@) =~= seq![("vertical-align"@, "0"@), ("line-height"@, "1"@)]);
    }
    let y = bracket(&sel2, &rules2);
    let mut s = x;
    s.append(" ");
    s.append(y.as_str());
    s
}

/// The `@import` lines of the fonts that are fetched from an address.
pub open spec fn import_lines(fonts: Seq<FontV>) -> Seq<Seq<char>>
    decreases fonts.len(),
{
    if fonts.len() == 0 {
        Seq::empty()
    } else {
        import_lines(fonts.drop_last()) + match fonts.last() {
            FontV::ImportFont(_, url) => seq!["@import url('"@ + url + "');"@],
            _ => Seq::empty(),
        }
    }
}

/// The font families among the styles, each with its typefaces, in order.
pub open spec fn families(styles: Seq<StyleV>) -> Seq<(Seq<char>, Seq<FontV>)>
    decreases styles.len(),
{
    if styles.len() == 0 {
        Seq::empty()
    } else {
        families(styles.drop_last()) + match styles.last() {
            StyleV::FontFamily(n, fonts) => seq![(n, fonts)],
            _ => Seq::empty(),
        }
    }
}

/// The import lines of every family.
pub open spec fn imports_text(top: Seq<(Seq<char>, Seq<FontV>)>) -> Seq<char> {
    concat(top.map_values(|f: (Seq<char>, Seq<FontV>)| join(import_lines(f.1), "\n"@)))
}

/// The line-height rules of every family, scoped under every family.
pub open spec fn adjustments_text(top: Seq<(Seq<char>, Seq<FontV>)>) -> Seq<char> {
    concat(
        top.map_values(
            |f: (Seq<char>, Seq<FontV>)|
                concat(
                    top.map_values(
                        |g: (Seq<char>, Seq<FontV>)| family_adjustment(f.0, f.1, g.0),
                    ),
                ),
        ),
    )
}

/// All rules of the styles, one after another.
pub open spec fn rules_text(opts: OptStruct, styles: Seq<StyleV>) -> Seq<char> {
    concat(styles.map_values(|s: StyleV| concat(rule_texts(opts, s, None))))
}

/// The stylesheet text of a list of styles: font imports, the line-height
/// rules of the font families, then the rules of each style.
pub open spec fn stylesheet_text(opts: OptStruct, styles: Seq<StyleV>) -> Seq<char> {
    let top = families(styles);
    imports_text(top) + adjustments_text(top) + rules_text(opts, styles)
}

pub open spec fn tops_view(v: Seq<(String, Vec<Font>)>) -> Seq<(Seq<char>, Seq<FontV>)> {
    v.map_values(|t: (String, Vec<Font>)| (t.0@, t.1@.map_values(|f: Font| f@)))
}

proof fn lemma_concat_step(xs: Seq<Seq<char>>, i: int)
    requires
        0 <= i < xs.len(),
    ensures
        concat(xs.take(i + 1)) == concat(xs.take(i)) + xs[i],
{
    assert(xs.take(i + 1).drop_last() =~= xs.take(i));
}

fn imports_of(fonts: &Vec<Font>) -> (r: String)
    ensures
        r@ == join(import_lines(fonts@.map_values(|f: Font| f@)), "\n"@),
{
    let ghost fv = fonts@.map_values(|f: Font| f@);
    let mut lines: Vec<String> = Vec::new();
    let mut i: usize = 0;
    while i < fonts.len()
        invariant
            i <= fonts.len(),
            fv == fonts@.map_values(|f: Font| f@),
            views(lines@) == import_lines(fv.take(i as int)),
        decreases fonts.len() - i,
    {
        proof {
            assert(fv.take(i as int + 1).drop_last() =~= fv.take(i as int));
        }
        match &fonts[i] {
            Font::ImportFont(_, url) => {
                let mut l = String::from_str("@import url('");
                l.append(url.as_str());
                l.append("');");
                lines.push(l);
            },
            _ => {},
        }
        proof {
            assert(views(lines@) =~= import_lines(fv.take(i as int + 1)));
        }
        i = i + 1;
    }
    proof {
        assert(fv.take(fonts.len() as int) =~= fv);
    }
    join_strings(&lines, "\n")
}

/// The line-height rules of the family at `i`, scoped under every family.
#[verifier::rlimit(40)]
fn family_rules(rules: &Vec<(String, Vec<Font>)>, i: usize) -> (r: String)
    requires
        i < rules.len(),
    ensures
        r@ == concat(
            tops_view(rules@).map_values(
                |g: (Seq<char>, Seq<FontV>)|
                    family_adjustment(
                        tops_view(rules@)[i as int].0,
                        tops_view(rules@)[i as int].1,
                        g.0,
                    ),
            ),
        ),
{
    let ghost top = tops_view(rules@);
    let ghost zs = top.map_values(
        |g: (Seq<char>, Seq<FontV>)| family_adjustment(top[i as int].0, top[i as int].1, g.0),
    );
    let adjustment = crate::adjust::typeface_adjustment(&rules[i].1);
    let mut inner = String::new();
    let mut j: usize = 0;
    while j < rules.len()
        invariant
            j <= rules.len(),
            i < rules.len(),
            top == tops_view(rules@),
            zs == top.map_values(
                |g: (Seq<char>, Seq<FontV>)| family_adjustment(top[i as int].0, top[i as int].1, g.0),
            ),
            match (adjustment, typeface_rules(top[i as int].1)) {
                (Some(a), Some(b)) => (rule_view(a.full), rule_view(a.capital)) == b,
                (None, None) => true,
                _ => false,
            },
            inner@ == concat(zs.take(j as int)),
        decreases rules.len() - j,
    {
        proof {
            lemma_concat_step(zs, j as int);
        }
        let rule = match &adjustment {
            Some(adj) => crate::adjust::render_font_adjustment_rule(&rules[i].0, adj, &rules[j].0),
            None => render_null_adjustment_rule(&rules[i].0, &rules[j].0),
        };
        inner.append(rule.as_str());
        j = j + 1;
    }
    proof {
        assert(zs.take(rules.len() as int) =~= zs);
    }
    inner
}

/// The font imports and the line-height rules of the given font families.
#[verifier::rlimit(40)]
pub fn render_toplevel_vals(rules: &Vec<(String, Vec<Font>)>) -> (r: String)
    ensures
        r@ == imports_text(tops_view(rules@)) + adjustments_text(tops_view(rules@)),
{
    let ghost top = tops_view(rules@);
    let ghost xs = top.map_values(|f: (Seq<char>, Seq<FontV>)| join(import_lines(f.1), "\n"@));
    let mut imports = String::new();
    let mut i: usize = 0;
    while i < rules.len()
        invariant
            i <= rules.len(),
            top == tops_view(rules@),
            xs == top.map_values(|f: (Seq<char>, Seq<FontV>)| join(import_lines(f.1), "\n"@)),
            imports@ == concat(xs.take(i as int)),
        decreases rules.len() - i,
    {
        proof {
            lemma_concat_step(xs, i as int);
        }
        let line = imports_of(&rules[i].1);
        imports.append(line.as_str());
        i = i + 1;
    }
    proof {
        assert(xs.take(rules.len() as int) =~= xs);
    }
    let ghost ys = top.map_values(
        |f: (Seq<char>, Seq<FontV>)|
            concat(top.map_values(|g: (Seq<char>, Seq<FontV>)| family_adjustment(f.0, f.1, g.0))),
    );
    let mut adjust = String::new();
    let mut i: usize = 0;
    while i < rules.len()
        invariant
            i <= rules.len(),
            top == tops_view(rules@),
            ys == top.map_values(
                |f: (Seq<char>, Seq<FontV>)|
                    concat(
                        top.map_values(|g: (Seq<char>, Seq<FontV>)| family_adjustment(f.0, f.1, g.0)),
                    ),
            ),
            adjust@ == concat(ys.take(i as int)),
        decreases rules.len() - i,
    {
        proof {
            lemma_concat_step(ys, i as int);
        }
        let inner = family_rules(rules, i);
        proof {
            assert(ys[i as int] == concat(top.map_values(
                |g: (Seq<char>, Seq<FontV>)| family_adjustment(top[i as int].0, top[i as int].1, g.0),
            )));
        }
        adjust.append(inner.as_str());
        i = i + 1;
    }
    proof {
        assert(ys.take(rules.len() as int) =~= ys);
    }
    imports.append(adjust.as_str());
    imports
}

/// The stylesheet text of a list of styles.
#[verifier::rlimit(40)]
pub fn to_stylesheet_str(opts: &OptStruct, stylesheet: &Vec<Style>) -> (r: String)
    ensures
        r@ == stylesheet_text(*opts, style_views(stylesheet@)),
{
    let ghost sv = style_views(stylesheet@);
    let mut top: Vec<(String, Vec<Font>)> = Vec::new();
    let mut rules = String::new();
    let ghost xs = sv.map_values(|s: StyleV| concat(rule_texts(*opts, s, None)));
    let mut i: usize = 0;
    while i < stylesheet.len()
        invariant
            i <= stylesheet.len(),
            sv == style_views(stylesheet@),
            xs == sv.map_values(|s: StyleV| concat(rule_texts(*opts, s, None))),
            tops_view(top@) == families(sv.take(i as int)),
            rules@ == concat(xs.take(i as int)),
        decreases stylesheet.len() - i,
    {
        proof {
            lemma_concat_step(xs, i as int);
            assert(sv.take(i as int + 1).drop_last() =~= sv.take(i as int));
        }
        let rendered = todo_render_style_rule(opts, &stylesheet[i], &None);
        let text = concat_strings(&rendered);
        rules.append(text.as_str());
        match stylesheet[i].toplevel_val() {
            Some(t) => top.push(t),
            None => {},
        }
        proof {
            assert(tops_view(top@) =~= families(sv.take(i as int + 1)));
        }
        i = i + 1;
    }
    proof {
        assert(sv.take(stylesheet.len() as int) =~= sv);
        assert(xs.take(stylesheet.len() as int) =~= xs);
    }
    let mut s = render_toplevel_vals(&top);
    s.append(rules.as_str());
    s
}

} // verus!
