use vstd::prelude::*;

use crate::style::{style_name, Style, StyleV};

verus! {

/// Whether the style at `i` is the first of its name.
pub open spec fn first_seen(xs: Seq<StyleV>, i: int) -> bool {
    forall|j: int| 0 <= j < i ==> style_name(#[trigger] xs[j]) != style_name(xs[i])
}

/// The styles with every one whose name came earlier left out: one style per
/// name, the first, in the order first seen.
pub open spec fn reduced(xs: Seq<StyleV>) -> Seq<StyleV>
    decreases xs.len(),
{
    if xs.len() == 0 {
        Seq::empty()
    } else {
        let r = reduced(xs.drop_last());
        if first_seen(xs, xs.len() - 1) {
            r.push(xs.last())
        } else {
            r
        }
    }
}

/// Whether no two styles share a name.
pub open spec fn distinct_names(xs: Seq<StyleV>) -> bool {
    forall|i: int, j: int|
        0 <= i < j < xs.len() ==> style_name(#[trigger] xs[i]) != style_name(#[trigger] xs[j])
}

pub open spec fn has_name(xs: Seq<StyleV>, n: Seq<char>) -> bool {
    exists|i: int| 0 <= i < xs.len() && style_name(#[trigger] xs[i]) == n
}

pub open spec fn style_views(v: Seq<Style>) -> Seq<StyleV> {
    v.map_values(|s: Style| s@)
}

/// What the reduced list holds: every style of it is in the list, and every
/// name of the list is in it.
pub proof fn lemma_reduced_names(xs: Seq<StyleV>)
    ensures
        distinct_names(reduced(xs)),
        forall|n: Seq<char>| has_name(reduced(xs), n) <==> has_name(xs, n),
        forall|k: int|
            0 <= k < reduced(xs).len() ==> exists|i: int|
                0 <= i < xs.len() && xs[i] == #[trigger] reduced(xs)[k],
    decreases xs.len(),
{
    if xs.len() > 0 {
        let p = xs.drop_last();
        lemma_reduced_names(p);
        let r = reduced(p);
        assert forall|n: Seq<char>| has_name(xs, n) <==> (has_name(p, n) || style_name(xs.last()) == n) by {
            if has_name(xs, n) {
                let i = choose|i: int| 0 <= i < xs.len() && style_name(#[trigger] xs[i]) == n;
                if i < xs.len() - 1 {
                    assert(p[i] == xs[i]);
                }
            }
            if has_name(p, n) {
                let i = choose|i: int| 0 <= i < p.len() && style_name(#[trigger] p[i]) == n;
                assert(xs[i] == p[i]);
            }
        }
        if first_seen(xs, xs.len() - 1) {
            let rr = r.push(xs.last());
            assert(!has_name(p, style_name(xs.last()))) by {
                if has_name(p, style_name(xs.last())) {
                    let i = choose|i: int|
                        0 <= i < p.len() && style_name(#[trigger] p[i]) == style_name(xs.last());
                    assert(xs[i] == p[i]);
                }
            }
            assert forall|n: Seq<char>| has_name(rr, n) <==> (has_name(r, n) || style_name(xs.last()) == n) by {
                if has_name(rr, n) {
                    let i = choose|i: int| 0 <= i < rr.len() && style_name(#[trigger] rr[i]) == n;
                    if i < r.len() {
                        assert(rr[i] == r[i]);
                    }
                }
                if has_name(r, n) {
                    let i = choose|i: int| 0 <= i < r.len() && style_name(#[trigger] r[i]) == n;
                    assert(rr[i] == r[i]);
                }
                if style_name(xs.last()) == n {
                    assert(rr[r.len() as int] == xs.last());
                }
            }
            assert forall|i: int, j: int|
                0 <= i < j < rr.len() implies style_name(#[trigger] rr[i]) != style_name(
                #[trigger] rr[j],
            ) by {
                if j == r.len() {
                    assert(rr[i] == r[i]);
                    assert(has_name(r, style_name(r[i])));
                } else {
                    assert(rr[i] == r[i]);
                    assert(rr[j] == r[j]);
                }
            }
            assert forall|k: int| 0 <= k < rr.len() implies exists|i: int|
                0 <= i < xs.len() && xs[i] == #[trigger] rr[k] by {
                if k < r.len() {
                    assert(rr[k] == r[k]);
                    let i = choose|i: int| 0 <= i < p.len() && p[i] == r[k];
                    assert(xs[i] == p[i]);
                } else {
                    assert(xs[xs.len() - 1] == rr[k]);
                }
            }
        } else {
            assert(has_name(p, style_name(xs.last()))) by {
                let j = choose|j: int|
                    0 <= j < xs.len() - 1 && style_name(#[trigger] xs[j]) == style_name(
                        xs[xs.len() - 1],
                    );
                assert(p[j] == xs[j]);
            }
            assert forall|k: int| 0 <= k < r.len() implies exists|i: int|
                0 <= i < xs.len() && xs[i] == #[trigger] r[k] by {
                let i = choose|i: int| 0 <= i < p.len() && p[i] == r[k];
                assert(xs[i] == p[i]);
            }
        }
    }
}

/// A list whose names are all distinct is left as it is.
pub proof fn lemma_reduced_distinct(xs: Seq<StyleV>)
    requires
        distinct_names(xs),
    ensures
        reduced(xs) == xs,
    decreases xs.len(),
{
    if xs.len() > 0 {
        let p = xs.drop_last();
        assert(distinct_names(p)) by {
            assert forall|i: int, j: int|
                0 <= i < j < p.len() implies style_name(#[trigger] p[i]) != style_name(
                #[trigger] p[j],
            ) by {
                assert(p[i] == xs[i] && p[j] == xs[j]);
            }
        }
        lemma_reduced_distinct(p);
        assert(first_seen(xs, xs.len() - 1)) by {
            assert forall|j: int| 0 <= j < xs.len() - 1 implies style_name(#[trigger] xs[j])
                != style_name(xs[xs.len() - 1]) by {
                assert(style_name(xs[j]) != style_name(xs[xs.len() - 1]));
            }
        }
        assert(p.push(xs.last()) =~= xs);
    }
}

/// Reducing twice gives what reducing once gives.
pub proof fn lemma_reduce_idempotent(xs: Seq<StyleV>)
    ensures
        reduced(reduced(xs)) == reduced(xs),
{
    lemma_reduced_names(xs);
    lemma_reduced_distinct(reduced(xs));
}

/// One step of the fold: `style` is added unless a style of its name is
/// already there. `cache` holds the names of `existing`.
pub fn reduce_styles(style: &Style, cache: Vec<String>, existing: Vec<Style>) -> (r: (
    Vec<String>,
    Vec<Style>,
))
    requires
        cache.len() == existing.len(),
        forall|k: int| 0 <= k < cache.len() ==> #[trigger] cache@[k]@ == style_name(existing@[k]@),
    ensures
        r.0.len() == r.1.len(),
        forall|k: int| 0 <= k < r.0.len() ==> #[trigger] r.0@[k]@ == style_name(r.1@[k]@),
        has_name(style_views(existing@), style_name(style@)) ==> style_views(r.1@) == style_views(
            existing@,
        ),
        !has_name(style_views(existing@), style_name(style@)) ==> style_views(r.1@) == style_views(
            existing@,
        ).push(style@),
{
    let mut names = cache;
    let mut kept = existing;
    let name = style.name();
    let ghost e0 = kept@;
    assert(e0 == existing@);
    let mut i: usize = 0;
    while i < names.len()
        invariant
            i <= names.len(),
            kept@ == e0,
            e0 == existing@,
            names.len() == kept.len(),
            forall|k: int| 0 <= k < names.len() ==> #[trigger] names@[k]@ == style_name(kept@[k]@),
            forall|k: int| 0 <= k < i ==> style_name(kept@[k]@) != name@,
            name@ == style_name(style@),
        decreases names.len() - i,
    {
        if names[i] == name {
            proof {
                assert(style_views(e0)[i as int] == kept@[i as int]@);
                assert(style_name(style_views(e0)[i as int]) == style_name(style@));
                assert(has_name(style_views(e0), style_name(style@)));
            }
            return (names, kept);
        }
        i = i + 1;
    }
    proof {
        assert(!has_name(style_views(e0), style_name(style@))) by {
            if has_name(style_views(e0), style_name(style@)) {
                let k = choose|k: int|
                    0 <= k < kept.len() && style_name(#[trigger] style_views(e0)[k])
                        == style_name(style@);
                assert(style_views(e0)[k] == kept@[k]@);
            }
        }
    }
    let ghost before = kept@;
    names.push(name);
    kept.push(style.clone());
    proof {
        assert(style_views(kept@) =~= style_views(before).push(style@));
    }
    (names, kept)
}

/// The styles reduced to one per name, the first of each, in the order first
/// seen, appended to `found`, whose names `cache` holds.
pub fn reduce_styles_recursive(cache: Vec<String>, found: Vec<Style>, styles: &Vec<Style>) -> (r: Vec<
    Style,
>)
    requires
        cache.len() == found.len(),
        forall|k: int| 0 <= k < cache.len() ==> #[trigger] cache@[k]@ == style_name(found@[k]@),
        distinct_names(style_views(found@)),
    ensures
        style_views(r@) == reduced(style_views(found@) + style_views(styles@)),
{
    let ghost f = style_views(found@);
    let ghost xs = style_views(styles@);
    let mut cache = cache;
    let mut found = found;
    proof {
        lemma_reduced_distinct(f);
        assert(f + xs.take(0) =~= f);
    }
    let mut i: usize = 0;
    while i < styles.len()
        invariant
            i <= styles.len(),
            xs == style_views(styles@),
            cache.len() == found.len(),
            forall|k: int| 0 <= k < cache.len() ==> #[trigger] cache@[k]@ == style_name(found@[k]@),
            style_views(found@) == reduced(f + xs.take(i as int)),
        decreases styles.len() - i,
    {
        let ghost all = f + xs.take(i as int + 1);
        proof {
            assert(all.drop_last() =~= f + xs.take(i as int));
            assert(all.last() == styles@[i as int]@);
            lemma_reduced_names(all.drop_last());
            if first_seen(all, all.len() - 1) {
                assert(!has_name(all.drop_last(), style_name(all.last()))) by {
                    if has_name(all.drop_last(), style_name(all.last())) {
                        let j = choose|j: int|
                            0 <= j < all.len() - 1 && style_name(#[trigger] all.drop_last()[j])
                                == style_name(all.last());
                        assert(all.drop_last()[j] == all[j]);
                    }
                }
            } else {
                let j = choose|j: int|
                    0 <= j < all.len() - 1 && style_name(#[trigger] all[j]) == style_name(
                        all[all.len() - 1],
                    );
                assert(all.drop_last()[j] == all[j]);
                assert(has_name(all.drop_last(), style_name(all.last())));
            }
        }
        let (c, e) = reduce_styles(&styles[i], cache, found);
        cache = c;
        found = e;
        i = i + 1;
    }
    proof {
        assert(xs.take(styles.len() as int) =~= xs);
    }
    found
}

/// The styles reduced to one per name: the first of each, in the order first
/// seen.
pub fn reduce(styles: &Vec<Style>) -> (r: Vec<Style>)
    ensures
        style_views(r@) == reduced(style_views(styles@)),
{
    let found: Vec<Style> = Vec::new();
    proof {
        assert(style_views(found@) + style_views(styles@) =~= style_views(styles@));
    }
    reduce_styles_recursive(Vec::new(), found, styles)
}

/// Named styles folded onto `found`: a style followed directly by one of
/// the same name is left out, the others are put first one by one, so that
/// they come out last to first.
pub open spec fn reduced_runs(found: Seq<StyleV>, styles: Seq<(Seq<char>, StyleV)>) -> Seq<StyleV>
    decreases styles.len(),
{
    if styles.len() == 0 {
        found
    } else if styles.len() == 1 {
        seq![styles[0].1] + found
    } else if styles[0].0 != styles[1].0 {
        reduced_runs(seq![styles[0].1] + found, styles.drop_first())
    } else {
        reduced_runs(found, styles.drop_first())
    }
}

pub open spec fn named_views(v: Seq<(String, Style)>) -> Seq<(Seq<char>, StyleV)> {
    v.map_values(|p: (String, Style)| (p.0@, p.1@))
}

/// Named styles, sorted by name, with every run of one name cut to its last
/// style, put first onto `found` one by one.
pub fn reduce_recursive(found: Vec<Style>, styles: Vec<(String, Style)>) -> (r: Vec<Style>)
    ensures
        style_views(r@) == reduced_runs(style_views(found@), named_views(styles@)),
{
    let ghost sv = named_views(styles@);
    let n = styles.len();
    let mut rev = crate::layout::reversed(styles);
    let mut found = found;
    let ghost f0 = style_views(found@);
    proof {
        assert(sv.subrange(0, n as int) =~= sv);
    }
    while rev.len() > 0
        invariant
            rev.len() <= n,
            n == sv.len(),
            forall|j: int|
                0 <= j < rev.len() ==> ((#[trigger] rev@[j]).0@, rev@[j].1@) == sv[n - 1 - j],
            reduced_runs(style_views(found@), sv.subrange(n - rev.len(), n as int)) == reduced_runs(f0, sv),
        decreases rev.len(),
    {
        let ghost i = n - rev.len();
        let ghost rest = sv.subrange(i, n as int);
        let (name, style) = rev.pop().unwrap();
        proof {
            assert((name@, style@) == sv[i]);
            assert(rest.drop_first() =~= sv.subrange(i + 1, n as int));
            assert(rest[0] == sv[i]);
        }
        let keep = if rev.len() == 0 {
            true
        } else {
            let last = rev.len() - 1;
            proof {
                assert(rest[1] == sv[i + 1]);
            }
            name != rev[last].0
        };
        let ghost before = found@;
        if keep {
            found.insert(0, style);
            proof {
                assert(style_views(found@) =~= seq![sv[i].1] + style_views(before));
            }
        }
        proof {
            if rev.len() == 0 {
                assert(sv.subrange(i + 1, n as int) =~= Seq::<(Seq<char>, StyleV)>::empty());
            }
        }
    }
    proof {
        assert(sv.subrange(n as int, n as int) =~= Seq::<(Seq<char>, StyleV)>::empty());
    }
    found
}

} // verus!
