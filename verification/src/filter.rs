//! The coarse capture filter and the refinement suggester.
//!
//! The fixed predicate `outbound and tcp` casts a wide net on purpose: the
//! game's server addresses are unknown until real traffic has been observed.
//! [`analyze_and_suggest_refined_filter`] turns observed destination
//! `(address, port)` pairs into a narrower predicate over the most frequent
//! destinations, in the kernel driver's boolean packet-matching language.

use vstd::prelude::*;

verus! {

/// The fixed coarse predicate: all outbound TCP traffic.
pub open spec fn spec_mtgo_filter() -> Seq<char> {
    "outbound and tcp"@
}

/// The coarse filter string handed to the kernel interception interface at
/// handle-creation time; fixed for the lifetime of a capture run.
pub fn mtgo_filter() -> (r: String)
    ensures
        r@ == spec_mtgo_filter(),
{
    String::from_str("outbound and tcp")
}

/// Observed pairs, as mathematics: each `(String, u16)` seen as its character
/// sequence and port.
pub open spec fn view_pairs(s: Seq<(String, u16)>) -> Seq<(Seq<char>, u16)> {
    Seq::new(s.len(), |i: int| (s[i].0@, s[i].1))
}

/// The position of the first entry keyed `k` in a tally, or `-1`.
pub open spec fn index_of_key(
    t: Seq<((Seq<char>, u16), nat)>,
    k: (Seq<char>, u16),
) -> int
    decreases t.len(),
{
    if t.len() == 0 {
        -1
    } else if t[0].0 == k {
        0
    } else {
        let r = index_of_key(t.drop_first(), k);
        if r == -1 {
            -1
        } else {
            r + 1
        }
    }
}

/// One observation lands in a tally: an existing entry for its key is
/// incremented; a new key is appended with count one.
pub open spec fn bump(
    t: Seq<((Seq<char>, u16), nat)>,
    k: (Seq<char>, u16),
) -> Seq<((Seq<char>, u16), nat)> {
    let i = index_of_key(t, k);
    if i >= 0 {
        t.update(i, (k, (t[i].1 + 1) as nat))
    } else {
        t.push((k, 1nat))
    }
}

/// The tally of a run of observations: distinct keys in order of first
/// occurrence, each with its number of occurrences.
pub open spec fn tally(s: Seq<(Seq<char>, u16)>) -> Seq<((Seq<char>, u16), nat)>
    decreases s.len(),
{
    if s.len() == 0 {
        Seq::empty()
    } else {
        bump(tally(s.drop_last()), s.last())
    }
}

/// Counts never increase along a sequence of tally entries.
pub open spec fn sorted_desc(t: Seq<((Seq<char>, u16), nat)>) -> bool {
    forall|i: int, j: int| 0 <= i <= j < t.len() ==> t[i].1 >= t[j].1
}

/// Where one entry lands in a sequence already sorted by descending count:
/// after every entry counting at least as much (so equal counts keep their
/// relative order — the sort is stable).
pub open spec fn insert_desc(
    t: Seq<((Seq<char>, u16), nat)>,
    x: ((Seq<char>, u16), nat),
) -> Seq<((Seq<char>, u16), nat)>
    decreases t.len(),
{
    if t.len() == 0 {
        seq![x]
    } else if t.last().1 < x.1 {
        insert_desc(t.drop_last(), x).push(t.last())
    } else {
        t.push(x)
    }
}

/// A tally stably sorted by descending count.
pub open spec fn sort_desc(
    t: Seq<((Seq<char>, u16), nat)>,
) -> Seq<((Seq<char>, u16), nat)>
    decreases t.len(),
{
    if t.len() == 0 {
        Seq::empty()
    } else {
        insert_desc(sort_desc(t.drop_last()), t.last())
    }
}

/// The addresses of a run of tally entries, in order.
pub open spec fn ips_of(t: Seq<((Seq<char>, u16), nat)>) -> Seq<Seq<char>> {
    Seq::new(t.len(), |i: int| t[i].0.0)
}

/// One destination condition of the refined predicate.
pub open spec fn clause_of(ip: Seq<char>) -> Seq<char> {
    "ip.DstAddr == "@ + ip
}

/// The destination conditions joined with `or`.
pub open spec fn join_clauses(ips: Seq<Seq<char>>) -> Seq<char>
    decreases ips.len(),
{
    if ips.len() == 0 {
        Seq::empty()
    } else if ips.len() == 1 {
        clause_of(ips[0])
    } else {
        join_clauses(ips.drop_last()) + " or "@ + clause_of(ips.last())
    }
}

/// The refined predicate over the given destination addresses.
pub open spec fn refined_filter_text(ips: Seq<Seq<char>>) -> Seq<char> {
    "outbound and tcp and ("@ + join_clauses(ips) + ")"@
}

/// How many of the most frequent destinations the refined predicate names.
pub const TOP_PAIRS: usize = 5;

/// How many observations the analysis wants before it suggests anything.
pub const MIN_SAMPLE: usize = 100;

/// What the analysis of a run of observations suggests: too small a sample
/// keeps the coarse predicate; otherwise the observations are tallied by
/// `(address, port)` key, sorted stably by descending count, and the
/// addresses of the leading entries name the refined predicate.
pub open spec fn suggested_filter(s: Seq<(Seq<char>, u16)>) -> Seq<char> {
    if s.len() < MIN_SAMPLE {
        spec_mtgo_filter()
    } else {
        let sorted = sort_desc(tally(s));
        let sel = if sorted.len() <= TOP_PAIRS {
            sorted
        } else {
            sorted.take(TOP_PAIRS as int)
        };
        refined_filter_text(ips_of(sel))
    }
}

/// A running tally as the analysis builds it: each `(address, port)` key with
/// its occurrence count so far, seen as mathematics.
pub open spec fn view_counts(v: Seq<(String, u16, u64)>) -> Seq<((Seq<char>, u16), nat)> {
    Seq::new(v.len(), |i: int| ((v[i].0@, v[i].1), v[i].2 as nat))
}

/// Analyze observed destinations and suggest a refined filter.
///
/// Too few observations (fewer than `MIN_SAMPLE`) keep the coarse predicate.
/// Otherwise the `(address, port)` pairs are tallied, the tally is sorted
/// stably by descending count, and the addresses of the `TOP_PAIRS` most
/// frequent pairs — the likely game servers — are joined into
/// `outbound and tcp and (ip.DstAddr == A or ip.DstAddr == B ...)`.
pub fn analyze_and_suggest_refined_filter(captured_ips: Vec<(String, u16)>) -> (r: String)
    ensures
        r@ == suggested_filter(view_pairs(captured_ips@)),
{
    let ghost s = view_pairs(captured_ips@);
    if captured_ips.len() < MIN_SAMPLE {
        return mtgo_filter();
    }
    let mut counts: Vec<(String, u16, u64)> = Vec::new();
    let mut i: usize = 0;
    proof {
        assert(view_counts(counts@) =~= tally(s.take(0)));
    }
    while i < captured_ips.len()
        invariant
            i <= captured_ips@.len(),
            s == view_pairs(captured_ips@),
            view_counts(counts@) == tally(s.take(i as int)),
            forall|k: int| 0 <= k < counts@.len() ==> (#[trigger] counts@[k].2) <= i,
        decreases captured_ips@.len() - i,
    {
        let pair = &captured_ips[i];
        let ghost key = (pair.0@, pair.1);
        let ghost tpre = view_counts(counts@);
        let mut j: usize = 0;
        let mut found: bool = false;
        while j < counts.len() && !found
            invariant
                j <= counts@.len(),
                view_counts(counts@) == tpre,
                forall|k: int| 0 <= k < j ==> (#[trigger] tpre[k]).0 != key,
                found ==> j < counts@.len() && tpre[j as int].0 == key,
                key == (pair.0@, pair.1),
            decreases counts@.len() - j, (if found { 0int } else { 1int }),
        {
            let c = &counts[j];
            if c.0 == pair.0 && c.1 == pair.1 {
                found = true;
            } else {
                j = j + 1;
            }
        }
        if found {
            let cur: u64 = counts[j].2;
            counts[j].2 = cur + 1;
            proof {
                lemma_index_of_key_at(tpre, key, j as int);
                assert(view_counts(counts@) =~= bump(tpre, key));
            }
        } else {
            proof {
                lemma_index_of_key_none(tpre, key);
            }
            counts.push((pair.0.clone(), pair.1, 1));
            proof {
                assert(view_counts(counts@) =~= bump(tpre, key));
            }
        }
        proof {
            assert(s.take(i + 1 as int).drop_last() =~= s.take(i as int));
            assert(s.take(i + 1 as int).last() == key);
            assert(tally(s.take(i + 1 as int)) == bump(tally(s.take(i as int)), key));
        }
        i = i + 1;
    }
    proof {
        assert(s.take(i as int) =~= s);
    }
    let ghost base = tally(s);
    let mut k: usize = 1;
    if counts.len() > 1 {
        proof {
            assert(base.take(1).drop_last() =~= Seq::<((Seq<char>, u16), nat)>::empty());
            assert(sort_desc(base.take(1)) == insert_desc(
                sort_desc(base.take(1).drop_last()),
                base.take(1).last(),
            ));
            assert(sort_desc(Seq::<((Seq<char>, u16), nat)>::empty())
                == Seq::<((Seq<char>, u16), nat)>::empty());
            assert(insert_desc(Seq::<((Seq<char>, u16), nat)>::empty(), base.take(1).last())
                == seq![base.take(1).last()]);
            assert(sort_desc(base.take(1)) =~= base.take(1));
            assert(sort_desc(base.take(1)) + base.skip(1) =~= base);
        }
        while k < counts.len()
            invariant
                1 <= k <= counts@.len(),
                counts@.len() == base.len(),
                view_counts(counts@) == sort_desc(base.take(k as int)) + base.skip(k as int),
                base == tally(s),
            decreases counts@.len() - k,
        {
            let ghost sorted_pre = sort_desc(base.take(k as int));
            proof {
                lemma_sort_desc_sorted(base.take(k as int));
                assert(view_counts(counts@)[k as int] == base[k as int]);
            }
            let ghost cpre = counts@;
            let x = counts.remove(k);
            let ghost xs = ((x.0@, x.1), x.2 as nat);
            proof {
                assert(xs == base[k as int]);
                cpre.remove_ensures(k as int);
                assert forall|m: int| 0 <= m < counts@.len() implies view_counts(
                    counts@,
                )[m] == (sorted_pre + base.skip(k + 1 as int))[m] by {
                    if m < k {
                        assert(counts@[m] == cpre[m]);
                        assert(view_counts(cpre)[m] == sorted_pre[m]);
                    } else {
                        assert(counts@[m] == cpre[m + 1]);
                        assert(view_counts(cpre)[m + 1] == base.skip(k as int)[m + 1 - k]);
                    }
                }
                assert(view_counts(counts@) =~= sorted_pre + base.skip(k + 1 as int));
            }
            let mut j: usize = 0;
            while j < k && counts[j].2 >= x.2
                invariant
                    j <= k,
                    k < base.len(),
                    counts@.len() == base.len() - 1,
                    view_counts(counts@) == sorted_pre + base.skip(k + 1 as int),
                    sorted_pre.len() == k,
                    forall|m: int| 0 <= m < j ==> (#[trigger] sorted_pre[m]).1 >= xs.1,
                    xs == ((x.0@, x.1), x.2 as nat),
                decreases k - j,
            {
                proof {
                    assert(view_counts(counts@)[j as int] == sorted_pre[j as int]);
                    assert(sorted_pre[j as int].1 >= xs.1);
                }
                j = j + 1;
            }
            proof {
                if j < k {
                    assert(view_counts(counts@)[j as int] == sorted_pre[j as int]);
                    assert(sorted_pre[j as int].1 < xs.1);
                }
            }
            let ghost cmid = counts@;
            counts.insert(j, x);
            proof {
                cmid.insert_ensures(j as int, x);
                lemma_insert_desc_split(sorted_pre, xs, j as int);
                assert forall|m: int| 0 <= m < counts@.len() implies view_counts(
                    counts@,
                )[m] == (insert_desc(sorted_pre, xs) + base.skip(k + 1 as int))[m] by {
                    if m < j {
                        assert(counts@[m] == cmid[m]);
                        assert(view_counts(cmid)[m] == sorted_pre[m]);
                        assert((sorted_pre.take(j as int) + seq![xs] + sorted_pre.skip(
                            j as int,
                        ))[m] == sorted_pre[m]);
                    } else if m == j {
                        assert(counts@[m] == x);
                    } else {
                        assert(counts@[m] == cmid[m - 1]);
                        if m - 1 < sorted_pre.len() {
                            assert(view_counts(cmid)[m - 1] == sorted_pre[m - 1]);
                            assert((sorted_pre.take(j as int) + seq![xs] + sorted_pre.skip(
                                j as int,
                            ))[m] == sorted_pre[m - 1]);
                        } else {
                            assert(view_counts(cmid)[m - 1] == base.skip(k + 1 as int)[m - 1
                                - sorted_pre.len()]);
                        }
                    }
                }
                assert(base.take(k + 1 as int).drop_last() =~= base.take(k as int));
                assert(base.take(k + 1 as int).last() == base[k as int]);
                assert(sort_desc(base.take(k + 1 as int)) == insert_desc(sorted_pre, xs));
                assert(view_counts(counts@) =~= sort_desc(base.take(k + 1 as int)) + base.skip(
                    k + 1 as int,
                ));
            }
            k = k + 1;
        }
        proof {
            assert(base.take(counts@.len() as int) =~= base);
            assert(base.skip(counts@.len() as int) =~= Seq::<((Seq<char>, u16), nat)>::empty());
            assert(view_counts(counts@) =~= sort_desc(base));
        }
    } else {
        proof {
            if base.len() == 0 {
                assert(view_counts(counts@) =~= sort_desc(base));
            } else {
                assert(base.drop_last() =~= Seq::<((Seq<char>, u16), nat)>::empty());
                assert(sort_desc(base) == insert_desc(sort_desc(base.drop_last()), base.last()));
                assert(view_counts(counts@) =~= sort_desc(base));
            }
        }
    }
    let ghost sorted = sort_desc(base);
    if counts.len() > TOP_PAIRS {
        counts.truncate(TOP_PAIRS);
        proof {
            assert(view_counts(counts@) =~= sorted.take(TOP_PAIRS as int));
        }
    }
    let ghost sel = if sorted.len() <= TOP_PAIRS {
        sorted
    } else {
        sorted.take(TOP_PAIRS as int)
    };
    proof {
        assert(view_counts(counts@) == sel);
    }
    let ghost ips = ips_of(sel);
    let mut result = String::from_str("outbound and tcp and (");
    let mut k2: usize = 0;
    proof {
        assert(join_clauses(ips.take(0)) =~= Seq::<char>::empty());
        assert(result@ =~= "outbound and tcp and ("@ + join_clauses(ips.take(0)));
    }
    while k2 < counts.len()
        invariant
            k2 <= counts@.len(),
            view_counts(counts@) == sel,
            ips == ips_of(sel),
            ips.len() == counts@.len(),
            result@ == "outbound and tcp and ("@ + join_clauses(ips.take(k2 as int)),
        decreases counts@.len() - k2,
    {
        if k2 > 0 {
            result.append(" or ");
        }
        result.append("ip.DstAddr == ");
        result.append(counts[k2].0.as_str());
        proof {
            assert(ips.take(k2 + 1 as int).drop_last() =~= ips.take(k2 as int));
            assert(ips.take(k2 + 1 as int).last() == ips[k2 as int]);
            assert(ips[k2 as int] == counts@[k2 as int].0@);
            if k2 == 0 {
                assert(join_clauses(ips.take(1)) == clause_of(ips[0]));
            }
            assert(result@ =~= "outbound and tcp and ("@ + join_clauses(
                ips.take(k2 + 1 as int),
            ));
        }
        k2 = k2 + 1;
    }
    result.append(")");
    proof {
        assert(ips.take(counts@.len() as int) =~= ips);
        assert(result@ =~= refined_filter_text(ips));
    }
    result
}

/// A key's first position is where a scan that saw no earlier match stops.
proof fn lemma_index_of_key_at(
    t: Seq<((Seq<char>, u16), nat)>,
    k: (Seq<char>, u16),
    j: int,
)
    requires
        0 <= j < t.len(),
        t[j].0 == k,
        forall|i: int| 0 <= i < j ==> t[i].0 != k,
    ensures
        index_of_key(t, k) == j,
    decreases j,
{
    if j > 0 {
        lemma_index_of_key_at(t.drop_first(), k, j - 1);
    }
}

/// A scan that matches nowhere reports no position.
proof fn lemma_index_of_key_none(t: Seq<((Seq<char>, u16), nat)>, k: (Seq<char>, u16))
    requires
        forall|i: int| 0 <= i < t.len() ==> t[i].0 != k,
    ensures
        index_of_key(t, k) == -1,
    decreases t.len(),
{
    if t.len() > 0 {
        lemma_index_of_key_none(t.drop_first(), k);
    }
}

/// Inserting into a sequence sorted by descending count keeps it sorted.
proof fn lemma_insert_desc_sorted(
    t: Seq<((Seq<char>, u16), nat)>,
    x: ((Seq<char>, u16), nat),
)
    requires
        sorted_desc(t),
    ensures
        sorted_desc(insert_desc(t, x)),
        insert_desc(t, x).len() == t.len() + 1,
    decreases t.len(),
{
    if t.len() == 0 {
    } else if t.last().1 < x.1 {
        assert(sorted_desc(t.drop_last()));
        lemma_insert_desc_sorted(t.drop_last(), x);
        let r = insert_desc(t.drop_last(), x).push(t.last());
        assert forall|i: int, j: int| 0 <= i <= j < r.len() implies r[i].1 >= r[j].1 by {
            lemma_insert_desc_elements(t.drop_last(), x);
            if j < r.len() - 1 {
            } else {
                if i < r.len() - 1 {
                    let e = insert_desc(t.drop_last(), x)[i];
                    assert(e == x || exists|m: int|
                        0 <= m < t.len() - 1 && e == t.drop_last()[m]);
                }
            }
        }
    }
}

/// Every entry of an insertion's result is the inserted entry or one of the
/// originals.
proof fn lemma_insert_desc_elements(
    t: Seq<((Seq<char>, u16), nat)>,
    x: ((Seq<char>, u16), nat),
)
    ensures
        insert_desc(t, x).len() == t.len() + 1,
        forall|i: int|
            0 <= i < insert_desc(t, x).len() ==> (insert_desc(t, x)[i] == x || exists|m: int|
                0 <= m < t.len() && insert_desc(t, x)[i] == t[m]),
    decreases t.len(),
{
    if t.len() == 0 {
    } else if t.last().1 < x.1 {
        lemma_insert_desc_elements(t.drop_last(), x);
        let r = insert_desc(t, x);
        assert forall|i: int| 0 <= i < r.len() implies (r[i] == x || exists|m: int|
            0 <= m < t.len() && r[i] == t[m]) by {
            if i < r.len() - 1 {
                assert(r[i] == insert_desc(t.drop_last(), x)[i]);
                if r[i] != x {
                    let m = choose|m: int|
                        0 <= m < t.drop_last().len() && insert_desc(t.drop_last(), x)[i]
                            == t.drop_last()[m];
                    assert(t.drop_last()[m] == t[m]);
                }
            } else {
                assert(r[i] == t.last());
                assert(t.last() == t[t.len() - 1]);
            }
        }
    }
}

/// Sorting yields a sequence sorted by descending count, of the same length.
proof fn lemma_sort_desc_sorted(t: Seq<((Seq<char>, u16), nat)>)
    ensures
        sorted_desc(sort_desc(t)),
        sort_desc(t).len() == t.len(),
    decreases t.len(),
{
    if t.len() > 0 {
        lemma_sort_desc_sorted(t.drop_last());
        lemma_insert_desc_sorted(sort_desc(t.drop_last()), t.last());
    }
}

/// In a sequence sorted by descending count, an entry inserted stably lands
/// exactly before the first entry counting strictly less.
proof fn lemma_insert_desc_split(
    t: Seq<((Seq<char>, u16), nat)>,
    x: ((Seq<char>, u16), nat),
    j: int,
)
    requires
        sorted_desc(t),
        0 <= j <= t.len(),
        forall|i: int| 0 <= i < j ==> t[i].1 >= x.1,
        j < t.len() ==> t[j].1 < x.1,
    ensures
        insert_desc(t, x) == t.take(j) + seq![x] + t.skip(j),
    decreases t.len(),
{
    if t.len() == 0 {
        assert(insert_desc(t, x) =~= t.take(j) + seq![x] + t.skip(j));
    } else if t.last().1 < x.1 {
        assert(j < t.len());
        assert(j <= t.len() - 1) by {
            if j == t.len() {
                assert(t[j - 1].1 >= x.1);
            }
        }
        assert(sorted_desc(t.drop_last()));
        lemma_insert_desc_split(t.drop_last(), x, j);
        assert(insert_desc(t, x) =~= t.take(j) + seq![x] + t.skip(j)) by {
            assert(insert_desc(t, x) == (t.drop_last().take(j) + seq![x] + t.drop_last().skip(
                j,
            )).push(t.last()));
            assert(t.drop_last().take(j) =~= t.take(j));
        }
    } else {
        assert(j == t.len()) by {
            if j < t.len() {
                assert(t[j].1 < x.1);
                assert(t[j].1 >= t[t.len() - 1].1);
            }
        }
        assert(insert_desc(t, x) =~= t.take(j) + seq![x] + t.skip(j));
    }
}

} // verus!
