use vstd::prelude::*;

use crate::classes::Classes;
use crate::num::{fixed_str, Fixed};
use crate::sheet::{bracket, bracket_text, pairs_view, scoped_name};
use crate::style::{Adjustment, Font, FontV};
use crate::text::join;

verus! {

/// Declarations for the parent of a text, then for the text itself.
pub type AdjustmentRule = (Vec<(String, String)>, Vec<(String, String)>);

pub type RuleV = (Seq<(Seq<char>, Seq<char>)>, Seq<(Seq<char>, Seq<char>)>);

pub open spec fn rule_view(r: AdjustmentRule) -> RuleV {
    (pairs_view(r.0@), pairs_view(r.1@))
}

/// Sizes that set a text so that a chosen band of its glyphs fills the
/// line: offset, line height and font size, in em.
#[derive(Debug, PartialEq, Eq, Structural, Clone, Copy)]
pub struct AdjustmentSizes {
    pub vertical: Fixed,
    pub height: Fixed,
    pub size: Fixed,
}

/// The sizes for the band of full height and the band of capitals.
#[derive(Debug, PartialEq, Eq, Structural, Clone, Copy)]
pub struct AdjustmentSizeRules {
    pub full: AdjustmentSizes,
    pub capital: AdjustmentSizes,
}

/// The rules for the band of full height and the band of capitals.
pub struct AdjustmentRules {
    pub full: AdjustmentRule,
    pub capital: AdjustmentRule,
}

/// `v` held to the range of `i64`.
pub open spec fn held(v: int) -> i64 {
    if v < i64::MIN {
        i64::MIN
    } else if v > i64::MAX {
        i64::MAX
    } else {
        v as i64
    }
}

fn hold(v: i128) -> (r: i64)
    ensures
        r == held(v as int),
{
    if v < i64::MIN as i128 {
        i64::MIN
    } else if v > i64::MAX as i128 {
        i64::MAX
    } else {
        v as i64
    }
}

/// `a / b` for positive `b`, four fraction digits kept, rounded toward
/// zero.
pub open spec fn quotient(a: int, b: int) -> int {
    if a >= 0 {
        a * 10000 / b
    } else {
        -((-a) * 10000 / b)
    }
}

pub open spec fn sizes_of(size: int, height: int, vertical: int) -> AdjustmentSizes {
    AdjustmentSizes {
        vertical: Fixed { units: held(vertical) },
        height: Fixed { units: held(quotient(height, size)) },
        size: Fixed { units: held(size) },
    }
}

impl AdjustmentSizes {
    /// Sizes from a font size, a band height and an offset; the line height
    /// is the band height over the font size.
    pub fn new(size: Fixed, height: Fixed, vertical: Fixed) -> (r: Option<Self>)
        ensures
            size.units <= 0 ==> r is None,
            size.units > 0 ==> r == Some(sizes_of(size.units as int, height.units as int, vertical.units as int)),
    {
        if size.units <= 0 {
            None
        } else {
            let q = quotient_i(height.units as i128, size.units as i128);
            Some(AdjustmentSizes { vertical, height: Fixed::from_units(hold(q)), size })
        }
    }

    /// The declarations that set a text in these sizes.
    pub fn font_adjustment_rules(&self) -> (r: AdjustmentRule)
        ensures
            rule_view(r) == sizes_rule(*self),
    {
        let mut va = self.vertical.to_text();
        va.append("em");
        let mut fs = self.size.to_text();
        fs.append("em");
        let parent = vec![(String::from_str("display"), String::from_str("block"))];
        let text = vec![
            (String::from_str("display"), String::from_str("inline-block")),
            (String::from_str("line-height"), self.height.to_text()),
            (String::from_str("vertical-align"), va),
            (String::from_str("font-size"), fs),
        ];
        proof {
            assert(pairs_view(parent@) =~= sizes_rule(*self).0);
            assert(pairs_view(text@) =~= sizes_rule(*self).1);
        }
        (parent, text)
    }
}

pub open spec fn sizes_rule(s: AdjustmentSizes) -> RuleV {
    (
        seq![("display"@, "block"@)],
        seq![
            ("display"@, "inline-block"@),
            ("line-height"@, fixed_str(s.height.units as int)),
            ("vertical-align"@, fixed_str(s.vertical.units as int) + "em"@),
            ("font-size"@, fixed_str(s.size.units as int) + "em"@),
        ],
    )
}

pub open spec fn max2(a: int, b: int) -> int {
    if a >= b {
        a
    } else {
        b
    }
}

pub open spec fn min2(a: int, b: int) -> int {
    if a <= b {
        a
    } else {
        b
    }
}

pub open spec fn lines_of(a: Adjustment) -> (int, int, int, int) {
    (a.capital.units as int, a.baseline.units as int, a.descender.units as int, a.lowercase.units as int)
}

/// The highest metric.
pub open spec fn ascent(a: Adjustment) -> int {
    let (c, b, d, l) = lines_of(a);
    max2(max2(c, b), max2(d, l))
}

/// The lowest metric.
pub open spec fn descent(a: Adjustment) -> int {
    let (c, b, d, l) = lines_of(a);
    min2(min2(c, b), min2(d, l))
}

pub open spec fn above_descent(v: int, dsc: int) -> int {
    if v != dsc {
        v
    } else {
        i64::MAX + 1
    }
}

/// The lowest metric above the descent, or the baseline when all metrics
/// are equal.
pub open spec fn base_line(a: Adjustment) -> int {
    let (c, b, d, l) = lines_of(a);
    let dsc = descent(a);
    let m = min2(
        min2(above_descent(c, dsc), above_descent(b, dsc)),
        min2(above_descent(d, dsc), above_descent(l, dsc)),
    );
    if m == i64::MAX + 1 {
        b
    } else {
        m
    }
}

/// The sizes a typeface's metrics ask for: the full band runs from the
/// descent to the ascent, the capital band from the baseline to the
/// ascent; none when a band or its font size comes to nothing.
pub open spec fn size_rules_of(a: Adjustment) -> Option<AdjustmentSizeRules> {
    let asc = ascent(a);
    let vertical = 10000 - asc;
    let c_diff = asc - base_line(a);
    let f_diff = asc - descent(a);
    if c_diff <= 0 || f_diff <= 0 {
        None
    } else {
        let c_size = quotient(10000, c_diff);
        let f_size = quotient(10000, f_diff);
        if c_size <= 0 || f_size <= 0 {
            None
        } else {
            Some(
                AdjustmentSizeRules {
                    full: sizes_of(held(f_size) as int, held(f_diff) as int, held(vertical) as int),
                    capital: sizes_of(held(c_size) as int, held(c_diff) as int, held(vertical) as int),
                },
            )
        }
    }
}

fn max_i(a: i128, b: i128) -> (r: i128)
    ensures
        r == max2(a as int, b as int),
{
    if a >= b {
        a
    } else {
        b
    }
}

fn min_i(a: i128, b: i128) -> (r: i128)
    ensures
        r == min2(a as int, b as int),
{
    if a <= b {
        a
    } else {
        b
    }
}

fn above_i(v: i128, dsc: i128) -> (r: i128)
    requires
        v <= i64::MAX,
    ensures
        r == above_descent(v as int, dsc as int),
{
    if v != dsc {
        v
    } else {
        i64::MAX as i128 + 1
    }
}

fn quotient_i(a: i128, b: i128) -> (r: i128)
    requires
        b > 0,
        -0x1_0000_0000_0000_0000 <= a <= 0x1_0000_0000_0000_0000,
    ensures
        r == quotient(a as int, b as int),
{
    let neg = a < 0;
    let m: u128 = if neg {
        (-a) as u128
    } else {
        a as u128
    };
    let q: u128 = m * 10000 / (b as u128);
    proof {
        assert(q <= m * 10000) by (nonlinear_arith)
            requires
                b > 0,
                q == (m * 10000) / (b as int),
        ;
    }
    if neg {
        -(q as i128)
    } else {
        q as i128
    }
}

impl Adjustment {
    /// The sizes these metrics ask for, if any.
    pub fn convert_to_size_rules(&self) -> (r: Option<AdjustmentSizeRules>)
        ensures
            r == size_rules_of(*self),
    {
        let c = self.capital.units as i128;
        let b = self.baseline.units as i128;
        let d = self.descender.units as i128;
        let l = self.lowercase.units as i128;
        let asc = max_i(max_i(c, b), max_i(d, l));
        let dsc = min_i(min_i(c, b), min_i(d, l));
        let m = min_i(min_i(above_i(c, dsc), above_i(b, dsc)), min_i(above_i(d, dsc), above_i(l, dsc)));
        let base = if m == i64::MAX as i128 + 1 {
            b
        } else {
            m
        };
        let vertical = 10000 - asc;
        let c_diff = asc - base;
        let f_diff = asc - dsc;
        if c_diff <= 0 || f_diff <= 0 {
            return None;
        }
        let c_size = quotient_i(10000, c_diff);
        let f_size = quotient_i(10000, f_diff);
        if c_size <= 0 || f_size <= 0 {
            return None;
        }
        let full = AdjustmentSizes::new(
            Fixed::from_units(hold(f_size)),
            Fixed::from_units(hold(f_diff)),
            Fixed::from_units(hold(vertical)),
        );
        let capital = AdjustmentSizes::new(
            Fixed::from_units(hold(c_size)),
            Fixed::from_units(hold(c_diff)),
            Fixed::from_units(hold(vertical)),
        );
        match (full, capital) {
            (Some(full), Some(capital)) => Some(AdjustmentSizeRules { full, capital }),
            _ => None,
        }
    }
}

/// The rules of the full band and of the capital band.
pub open spec fn rules_of_sizes(s: AdjustmentSizeRules) -> (RuleV, RuleV) {
    (sizes_rule(s.full), sizes_rule(s.capital))
}

/// The rules of the first typeface that declares usable metrics.
pub open spec fn typeface_rules(fonts: Seq<FontV>) -> Option<(RuleV, RuleV)>
    decreases fonts.len(),
{
    if fonts.len() == 0 {
        None
    } else {
        match fonts[0] {
            FontV::FontWith(_, Some(a), _) => match size_rules_of(a) {
                Some(s) => Some(rules_of_sizes(s)),
                None => typeface_rules(fonts.drop_first()),
            },
            _ => typeface_rules(fonts.drop_first()),
        }
    }
}

/// The adjustment rules of the first typeface that declares usable
/// metrics, if any.
pub fn typeface_adjustment(typefaces: &Vec<Font>) -> (r: Option<AdjustmentRules>)
    ensures
        match (r, typeface_rules(typefaces@.map_values(|f: Font| f@))) {
            (Some(a), Some(b)) => (rule_view(a.full), rule_view(a.capital)) == b,
            (None, None) => true,
            _ => false,
        },
{
    let ghost fv = typefaces@.map_values(|f: Font| f@);
    let mut i: usize = 0;
    proof {
        assert(fv.subrange(0, fv.len() as int) =~= fv);
    }
    while i < typefaces.len()
        invariant
            i <= typefaces.len(),
            fv == typefaces@.map_values(|f: Font| f@),
            typeface_rules(fv) == typeface_rules(fv.subrange(i as int, fv.len() as int)),
        decreases typefaces.len() - i,
    {
        let ghost rest = fv.subrange(i as int, fv.len() as int);
        proof {
            assert(rest.drop_first() =~= fv.subrange(i as int + 1, fv.len() as int));
            assert(rest[0] == typefaces@[i as int]@);
        }
        match &typefaces[i] {
            Font::FontWith(with) => match with.adjustment {
                Some(adj) => match adj.convert_to_size_rules() {
                    Some(ar) => {
                        return Some(
                            AdjustmentRules {
                                full: ar.full.font_adjustment_rules(),
                                capital: ar.capital.font_adjustment_rules(),
                            },
                        );
                    },
                    None => {},
                },
                None => {},
            },
            _ => {},
        }
        i = i + 1;
    }
    proof {
        assert(fv.subrange(fv.len() as int, fv.len() as int) =~= Seq::<FontV>::empty());
    }
    None
}

/// The two rules that set a family's text in a band: one for the parent,
/// one for the text.
pub open spec fn font_rule_texts(name: Seq<char>, modifier: Seq<char>, rule: RuleV) -> Seq<Seq<char>> {
    let t = Classes::Text.name();
    seq![
        bracket_text("."@ + name + "."@ + modifier + ", ."@ + name + " ."@ + modifier, rule.0),
        bracket_text(
            "."@ + name + "."@ + modifier + "> ."@ + t + ", ."@ + name + " ."@ + modifier + " > ."@ + t,
            rule.1,
        ),
    ]
}

pub fn font_rule(name: &String, modifier: &String, adjustments: &AdjustmentRule) -> (r: Vec<String>)
    ensures
        crate::text::views(r@) == font_rule_texts(name@, modifier@, rule_view(*adjustments)),
{
    let t = Classes::Text.to_string();
    let mut s1 = String::from_str(".");
    s1.append(name.as_str());
    s1.append(".");
    s1.append(modifier.as_str());
    s1.append(", .");
    s1.append(name.as_str());
    s1.append(" .");
    s1.append(modifier.as_str());
    let mut s2 = String::from_str(".");
    s2.append(name.as_str());
    s2.append(".");
    s2.append(modifier.as_str());
    s2.append("> .");
    s2.append(t);
    s2.append(", .");
    s2.append(name.as_str());
    s2.append(" .");
    s2.append(modifier.as_str());
    s2.append(" > .");
    s2.append(t);
    let r = vec![bracket(&s1, &adjustments.0), bracket(&s2, &adjustments.1)];
    proof {
        assert(crate::text::views(r@) =~= font_rule_texts(name@, modifier@, rule_view(*adjustments)));
    }
    r
}

/// The rules that set a family with metrics in the band of capitals and
/// in the full band.
pub open spec fn adjustment_text(target: Seq<char>, rules: (RuleV, RuleV), other: Seq<char>) -> Seq<char> {
    let name = scoped_name(target, other);
    join(
        font_rule_texts(name, Classes::SizeByCapital.name(), rules.1) + font_rule_texts(
            name,
            Classes::FullSize.name(),
            rules.0,
        ),
        " "@,
    )
}

pub fn render_font_adjustment_rule(target: &String, adjustment: &AdjustmentRules, other: &String) -> (r:
    String)
    ensures
        r@ == adjustment_text(target@, (rule_view(adjustment.full), rule_view(adjustment.capital)), other@),
{
    let name = if *target == *other {
        target.clone()
    } else {
        let mut s = other.clone();
        s.append(" .");
        s.append(target.as_str());
        s
    };
    let cap = String::from_str(Classes::SizeByCapital.to_string());
    let full = String::from_str(Classes::FullSize.to_string());
    let mut x = font_rule(&name, &cap, &adjustment.capital);
    let ghost xa = x@;
    let mut y = font_rule(&name, &full, &adjustment.full);
    let ghost ya = y@;
    x.append(&mut y);
    proof {
        assert(crate::text::views(x@) =~= crate::text::views(xa) + crate::text::views(ya));
    }
    crate::text::join_strings(&x, " ")
}

/// The line-height rules of a family scoped under another: from its
/// metrics when it declares them, plain otherwise.
pub open spec fn family_adjustment(target: Seq<char>, fonts: Seq<FontV>, other: Seq<char>) -> Seq<char> {
    match typeface_rules(fonts) {
        Some(r) => adjustment_text(target, r, other),
        None => crate::sheet::null_adjustment_text(target, other),
    }
}

} // verus!
