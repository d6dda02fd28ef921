use vstd::prelude::*;

use crate::classes::Classes;
use crate::flag::{lemma_with_has, Field, Flag};
use crate::gather::{gather_step, GatherState};
use crate::length::{grow_value, length_rendering, Length};
use crate::model::AttributeV;
use crate::reduce::{distinct_names, first_seen, lemma_reduce_idempotent, lemma_reduced_names, reduced};
use crate::style::{is_skippable, style_name, Style, StyleV};
use crate::transform::{compose_spec, Transform, TransformComponent};

verus! {

/// A style's name is a function of what the style holds: two styles that
/// hold the same have the same name.
pub proof fn lemma_name_determinism(a: Style, b: Style)
    requires
        a@ == b@,
    ensures
        style_name(a@) == style_name(b@),
{
}

/// Reducing a style list is idempotent, keeps one style per name, and
/// keeps every name.
pub proof fn lemma_reduce_laws(xs: Seq<StyleV>)
    ensures
        reduced(reduced(xs)) == reduced(xs),
        distinct_names(reduced(xs)),
        forall|n: Seq<char>|
            crate::reduce::has_name(reduced(xs), n) <==> crate::reduce::has_name(xs, n),
{
    lemma_reduce_idempotent(xs);
    lemma_reduced_names(xs);
}

/// The indices of the styles that come first under their name, in order.
pub open spec fn first_indices(xs: Seq<StyleV>) -> Seq<int>
    decreases xs.len(),
{
    if xs.len() == 0 {
        Seq::empty()
    } else if first_seen(xs, xs.len() - 1) {
        first_indices(xs.drop_last()).push(xs.len() - 1)
    } else {
        first_indices(xs.drop_last())
    }
}

/// Reducing keeps exactly the first style of each name, in the order in
/// which they come: the k-th style kept is the style at the k-th index
/// that is first under its name, and these indices increase.
pub proof fn lemma_reduce_first_seen_order(xs: Seq<StyleV>)
    ensures
        reduced(xs).len() == first_indices(xs).len(),
        forall|k: int|
            0 <= k < reduced(xs).len() ==> 0 <= #[trigger] first_indices(xs)[k] < xs.len()
                && first_seen(xs, first_indices(xs)[k]) && reduced(xs)[k] == xs[first_indices(xs)[k]],
        forall|k1: int, k2: int|
            0 <= k1 < k2 < first_indices(xs).len() ==> #[trigger] first_indices(xs)[k1]
                < #[trigger] first_indices(xs)[k2],
        forall|i: int| 0 <= i < xs.len() && first_seen(xs, i) ==> exists|k: int|
            0 <= k < first_indices(xs).len() && #[trigger] first_indices(xs)[k] == i,
    decreases xs.len(),
{
    if xs.len() > 0 {
        let p = xs.drop_last();
        lemma_reduce_first_seen_order(p);
        let last = xs.len() - 1;
        assert forall|i: int| 0 <= i < p.len() implies first_seen(p, i) == first_seen(xs, i) by {
            assert forall|j: int| 0 <= j < i implies p[j] == xs[j] by {}
            assert(p[i] == xs[i]);
            if first_seen(p, i) {
                assert forall|j: int| 0 <= j < i implies style_name(#[trigger] xs[j]) != style_name(xs[i]) by {
                    assert(style_name(p[j]) != style_name(p[i]));
                }
            }
            if first_seen(xs, i) {
                assert forall|j: int| 0 <= j < i implies style_name(#[trigger] p[j]) != style_name(p[i]) by {
                    assert(style_name(xs[j]) != style_name(xs[i]));
                }
            }
        }
        let fp = first_indices(p);
        if first_seen(xs, last) {
            assert forall|i: int| 0 <= i < xs.len() && first_seen(xs, i) implies exists|k: int|
                0 <= k < first_indices(xs).len() && #[trigger] first_indices(xs)[k] == i by {
                if i == last {
                    assert(first_indices(xs)[fp.len() as int] == i);
                } else {
                    let k = choose|k: int| 0 <= k < fp.len() && #[trigger] fp[k] == i;
                    assert(first_indices(xs)[k] == i);
                }
            }
        } else {
            assert forall|i: int| 0 <= i < xs.len() && first_seen(xs, i) implies exists|k: int|
                0 <= k < first_indices(xs).len() && #[trigger] first_indices(xs)[k] == i by {
                let k = choose|k: int| 0 <= k < fp.len() && #[trigger] fp[k] == i;
                assert(first_indices(xs)[k] == i);
            }
        }
    }
}

/// Once a flag is set, a later class or style attribute of the same flag
/// changes nothing; the first one to come sets it.
pub proof fn lemma_flag_first_wins(st: GatherState, flag: Flag, c: Seq<char>, s: StyleV)
    ensures
        st.has.has(flag) ==> gather_step(st, AttributeV::Class(flag, c)) == st,
        st.has.has(flag) ==> gather_step(st, AttributeV::Style(flag, s)) == st,
        gather_step(st, AttributeV::Class(flag, c)).has.has(flag),
        gather_step(st, AttributeV::Style(flag, s)).has.has(flag),
{
    lemma_with_has(st.has, flag);
}

/// Once a width is set, a later width changes nothing; the first one to
/// come sets it.
pub proof fn lemma_width_first_wins(st: GatherState, l: Length)
    ensures
        st.has.has(Flag::spec_from(6)) ==> gather_step(st, AttributeV::Width(l)) == st,
        gather_step(st, AttributeV::Width(l)).has.has(Flag::spec_from(6)),
{
    let w = Flag::spec_from(6);
    lemma_with_has(st.has, w);
    if !st.has.has(w) {
        let h = st.has.with(w);
        let f = length_rendering(l, true).0;
        let (a, b) = (h.0, h.1);
        let (fa, fb) = (f.0, f.1);
        assert((1u32 << 6u32) == 64u32) by (bit_vector);
        assert(w == Flag::Flag(64));
        assert((64u32 & a) == 64u32 ==> (64u32 & (a | fa)) == 64u32) by (bit_vector);
    }
}

/// A fill of portion 1 is the plain fill class with no style rule; any
/// other portion is its own class with one flex-grow rule scaled by 100000.
pub proof fn lemma_fill_portion(k: u64)
    ensures
        k == 1 ==> length_rendering(Length::Fill(k), true).1 == Classes::WidthFill.name()
            && length_rendering(Length::Fill(k), true).2.len() == 0,
        k != 1 ==> length_rendering(Length::Fill(k), true).2.len() == 1
            && length_rendering(Length::Fill(k), true).2[0]->Single_1 == "flex-grow"@
            && length_rendering(Length::Fill(k), true).2[0]->Single_2 == grow_value(k as nat),
{
}

/// The part of a transform a component sets: the translation (zero), the
/// rotation (one) or the scale (two).
pub open spec fn component_part(c: TransformComponent) -> nat {
    match c {
        TransformComponent::Rotate(_, _) => 1,
        TransformComponent::Scale(_) => 2,
        _ => 0,
    }
}

/// Components that set different parts of a transform compose to the same
/// transform in either order.
pub proof fn lemma_compose_parts_commute(t: Transform, a: TransformComponent, b: TransformComponent)
    requires
        component_part(a) != component_part(b),
    ensures
        compose_spec(compose_spec(t, a), b) == compose_spec(compose_spec(t, b), a),
{
}

/// A padding whose sides differ is never taken from the base stylesheet.
pub proof fn lemma_nonuniform_padding_not_skippable(
    flag: Flag,
    n: Seq<char>,
    t: crate::num::Fixed,
    r: crate::num::Fixed,
    b: crate::num::Fixed,
    l: crate::num::Fixed,
)
    requires
        !(t == r && t == b && t == l),
    ensures
        !is_skippable(flag, StyleV::Padding(n, t, r, b, l)),
{
}

/// Adding a flag twice is adding it once, and adding flags does not depend
/// on their order.
pub proof fn lemma_add_idempotent_commutative(f: Field, a: Flag, b: Flag)
    ensures
        f.with(a).with(a) == f.with(a),
        f.with(a).with(b) == f.with(b).with(a),
{
    let (x, y) = (f.0, f.1);
    match (a, b) {
        (Flag::Flag(m), Flag::Flag(n)) => {
            assert((x | m) | m == x | m) by (bit_vector);
            assert((x | m) | n == (x | n) | m) by (bit_vector);
        },
        (Flag::Second(m), Flag::Second(n)) => {
            assert((y | m) | m == y | m) by (bit_vector);
            assert((y | m) | n == (y | n) | m) by (bit_vector);
        },
        (Flag::Flag(m), Flag::Second(_)) => {
            assert((x | m) | m == x | m) by (bit_vector);
        },
        (Flag::Second(m), Flag::Flag(_)) => {
            assert((y | m) | m == y | m) by (bit_vector);
        },
    }
}

} // verus!
