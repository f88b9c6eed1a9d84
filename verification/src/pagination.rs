//! Pagination over the store's ordered key ranges.
//!
//! Every paginated query takes an optional exclusive-start cursor and an
//! optional limit. The effective limit is the requested one capped at 30,
//! or 10 when none is requested; results come back in ascending key order,
//! starting at the smallest key beyond the cursor.

use vstd::prelude::*;

use crate::order::{str_lt, strict_sorted, views_of};
use crate::types::{ApprovalRecord, ApprovalView, BlockInfo, Expiry, spec_expired};

verus! {

/// Default page size when no limit is requested.
pub const DEFAULT_LIMIT: u32 = 10;

/// Largest page size any request is granted.
pub const MAX_LIMIT: u32 = 30;

/// The smaller of two naturals.
pub open spec fn min_nat(a: nat, b: nat) -> nat {
    if a < b {
        a
    } else {
        b
    }
}

/// The page size a request with limit `limit` is granted.
pub open spec fn spec_eff_limit(limit: Option<u32>) -> nat {
    match limit {
        Some(l) => min_nat(l as nat, MAX_LIMIT as nat),
        None => DEFAULT_LIMIT as nat,
    }
}

/// The effective page size of a request.
pub fn eff_limit(limit: Option<u32>) -> (r: u32)
    ensures
        r as nat == spec_eff_limit(limit),
{
    match limit {
        Some(l) => if l < MAX_LIMIT {
            l
        } else {
            MAX_LIMIT
        },
        None => DEFAULT_LIMIT,
    }
}

/// Whether key `k` lies beyond the exclusive-start cursor.
pub open spec fn after_start(k: Seq<char>, start: Option<Seq<char>>) -> bool {
    match start {
        None => true,
        Some(s) => str_lt(s, k),
    }
}

/// The view of an optional borrowed cursor.
pub open spec fn opt_view(o: Option<&String>) -> Option<Seq<char>> {
    match o {
        Some(s) => Some(s@),
        None => None,
    }
}

/// The view of an optional owned cursor.
pub open spec fn opt_string_view(o: Option<String>) -> Option<Seq<char>> {
    match o {
        Some(s) => Some(s@),
        None => None,
    }
}

/// Whether key `k` lies beyond the cursor, executably.
pub fn after_start_exec(start_after: Option<&String>, k: &String) -> (r: bool)
    ensures
        r == after_start(k@, opt_view(start_after)),
{
    match start_after {
        None => true,
        Some(s) => crate::order::str_lt_exec(s.as_str(), k.as_str()),
    }
}

/// The first `lim` keys of `keys` that lie beyond the cursor, in order.
pub open spec fn spec_page(keys: Seq<Seq<char>>, start: Option<Seq<char>>, lim: nat) -> Seq<Seq<char>>
    decreases keys.len(),
{
    if lim == 0 || keys.len() == 0 {
        Seq::empty()
    } else if after_start(keys.first(), start) {
        seq![keys.first()] + spec_page(keys.drop_first(), start, (lim - 1) as nat)
    } else {
        spec_page(keys.drop_first(), start, lim)
    }
}

/// One page of ids: the first `limit` of `ids` beyond the cursor.
pub fn page_ids(ids: &Vec<String>, start_after: Option<&String>, limit: u32) -> (r: Vec<String>)
    ensures
        views_of(r@) == spec_page(views_of(ids@), opt_view(start_after), limit as nat),
{
    let ghost keys = views_of(ids@);
    let ghost startv = opt_view(start_after);
    let mut out: Vec<String> = Vec::new();
    let mut i: usize = 0;
    proof {
        assert(keys.skip(0) =~= keys);
        assert(views_of(out@) =~= Seq::<Seq<char>>::empty());
    }
    while i < ids.len() && out.len() < limit as usize
        invariant
            0 <= i <= ids.len(),
            out@.len() <= limit as nat,
            keys == views_of(ids@),
            startv == opt_view(start_after),
            views_of(out@) + spec_page(keys.skip(i as int), startv, (limit as nat - out@.len()) as nat)
                =~= spec_page(keys, startv, limit as nat),
        decreases ids.len() - i,
    {
        let ghost rest = keys.skip(i as int);
        proof {
            assert(rest.len() > 0);
            assert(rest.first() == keys[i as int]);
            assert(rest.drop_first() =~= keys.skip(i as int + 1));
        }
        if after_start_exec(start_after, &ids[i]) {
            let ghost before = views_of(out@);
            out.push(ids[i].clone());
            proof {
                assert(views_of(out@) =~= before.push(keys[i as int]));
                assert(before.push(keys[i as int])
                    =~= before + seq![keys[i as int]]);
                assert(views_of(out@)
                    + spec_page(keys.skip(i as int + 1), startv, (limit as nat - out@.len()) as nat)
                    =~= spec_page(keys, startv, limit as nat));
            }
        }
        i += 1;
    }
    proof {
        if out@.len() == limit as nat {
            assert(spec_page(keys.skip(i as int), startv, 0) =~= Seq::<Seq<char>>::empty());
        } else {
            assert(i == ids.len());
            assert(keys.skip(i as int).len() == 0);
        }
        assert(views_of(out@) =~= spec_page(keys, startv, limit as nat));
    }
    out
}

/// LAW. The granted page size never exceeds [`MAX_LIMIT`], whatever limit
/// was requested (and is [`DEFAULT_LIMIT`] when none was).
pub proof fn lemma_effective_limit_cap(limit: Option<u32>)
    ensures
        spec_eff_limit(limit) <= MAX_LIMIT as nat,
        limit.is_none() ==> spec_eff_limit(limit) == DEFAULT_LIMIT as nat,
{
}

/// LAW. A page never holds more entries than its limit.
pub proof fn lemma_page_len(keys: Seq<Seq<char>>, start: Option<Seq<char>>, lim: nat)
    ensures
        spec_page(keys, start, lim).len() <= lim,
    decreases keys.len(),
{
    if lim != 0 && keys.len() != 0 {
        if after_start(keys.first(), start) {
            lemma_page_len(keys.drop_first(), start, (lim - 1) as nat);
        } else {
            lemma_page_len(keys.drop_first(), start, lim);
        }
    }
}

/// When every key lies beyond the cursor, a page is simply the first `lim`
/// keys.
proof fn lemma_page_all_after(keys: Seq<Seq<char>>, start: Option<Seq<char>>, lim: nat)
    requires
        forall|i: int| 0 <= i < keys.len() ==> after_start(#[trigger] keys[i], start),
    ensures
        spec_page(keys, start, lim) == keys.take(min_nat(lim, keys.len()) as int),
    decreases keys.len(),
{
    if lim == 0 || keys.len() == 0 {
        assert(spec_page(keys, start, lim) =~= keys.take(min_nat(lim, keys.len()) as int));
    } else {
        let rest = keys.drop_first();
        assert(after_start(keys.first(), start));
        assert(forall|i: int| 0 <= i < rest.len() ==> after_start(#[trigger] rest[i], start));
        lemma_page_all_after(rest, start, (lim - 1) as nat);
        assert(spec_page(keys, start, lim)
            =~= keys.take(min_nat(lim, keys.len()) as int));
    }
}

/// LAW. A query without a cursor pages from the lexicographically smallest
/// key onward: the page is exactly the first `lim` keys of the ordered set,
/// and its first entry is the minimum of all keys.
pub proof fn lemma_page_no_cursor(keys: Seq<Seq<char>>, lim: nat)
    requires
        strict_sorted(keys),
    ensures
        spec_page(keys, None, lim) == keys.take(min_nat(lim, keys.len()) as int),
        lim > 0 && keys.len() > 0 ==> spec_page(keys, None, lim)[0] == keys[0],
        forall|i: int| 0 < i < keys.len() ==> str_lt(keys[0], #[trigger] keys[i]),
{
    lemma_page_all_after(keys, None, lim);
    if lim > 0 && keys.len() > 0 {
        assert(spec_page(keys, None, lim)[0] == keys.take(min_nat(lim, keys.len()) as int)[0]);
    }
}

/// Paging from the key at index `idx` of a sorted set yields exactly the
/// next `lim` keys after that index.
pub proof fn lemma_page_cursor(keys: Seq<Seq<char>>, idx: int, lim: nat)
    requires
        strict_sorted(keys),
        0 <= idx < keys.len(),
    ensures
        spec_page(keys, Some(keys[idx]), lim)
            == keys.skip(idx + 1).take(min_nat(lim, (keys.len() - idx - 1) as nat) as int),
    decreases keys.len(),
{
    let start = Some(keys[idx]);
    let goal = keys.skip(idx + 1).take(min_nat(lim, (keys.len() - idx - 1) as nat) as int);
    if lim == 0 {
        assert(spec_page(keys, start, lim) =~= goal);
    } else {
        let rest = keys.drop_first();
        assert(forall|i: int, j: int| 0 <= i < j < rest.len()
            ==> str_lt(#[trigger] rest[i], #[trigger] rest[j]));
        if idx == 0 {
            crate::order::lemma_str_lt_irrefl(keys[0]);
            assert(!after_start(keys.first(), start));
            assert(forall|i: int| 0 <= i < rest.len()
                ==> after_start(#[trigger] rest[i], start));
            lemma_page_all_after(rest, start, lim);
            assert(rest =~= keys.skip(1));
            assert(spec_page(keys, start, lim) =~= goal);
        } else {
            assert(str_lt(keys[0], keys[idx]));
            crate::order::lemma_str_lt_asym(keys[0], keys[idx]);
            assert(!after_start(keys.first(), start));
            assert(rest[idx - 1] == keys[idx]);
            lemma_page_cursor(rest, idx - 1, lim);
            assert(rest.skip(idx) =~= keys.skip(idx + 1));
            assert(spec_page(keys, start, lim) =~= goal);
        }
    }
}

/// LAW. Two consecutive pages of a sorted key set — the second starting
/// after the last entry of the first — fit together with no overlap and no
/// gap: laid end to end they are exactly the first `2 * lim` keys of the
/// set (all of it, when fewer remain), still in strictly ascending order.
pub proof fn lemma_pages_partition(keys: Seq<Seq<char>>, lim: nat)
    requires
        strict_sorted(keys),
        spec_page(keys, None, lim).len() > 0,
    ensures
        spec_page(keys, None, lim)
            + spec_page(keys, Some(spec_page(keys, None, lim).last()), lim)
            == keys.take(min_nat(2 * lim, keys.len()) as int),
        strict_sorted(keys.take(min_nat(2 * lim, keys.len()) as int)),
{
    let p1 = spec_page(keys, None, lim);
    lemma_page_no_cursor(keys, lim);
    let m1 = min_nat(lim, keys.len()) as int;
    assert(p1 == keys.take(m1));
    assert(p1.len() == m1);
    assert(p1.last() == keys[m1 - 1]);
    lemma_page_cursor(keys, m1 - 1, lim);
    let p2 = spec_page(keys, Some(keys[m1 - 1]), lim);
    let m2 = min_nat(lim, (keys.len() - m1) as nat) as int;
    assert(p2 == keys.skip(m1).take(m2));
    assert(m1 + m2 == min_nat(2 * lim, keys.len()) as int);
    assert(p1 + p2 =~= keys.take(m1 + m2));
    assert(strict_sorted(keys.take(m1 + m2)));
}
/// filter, in order.
pub open spec fn spec_page_operators(
    entries: Seq<(Seq<char>, Expiry)>,
    start: Option<Seq<char>>,
    include_expired: bool,
    b: BlockInfo,
    lim: nat,
) -> Seq<ApprovalView>
    decreases entries.len(),
{
    if lim == 0 || entries.len() == 0 {
        Seq::empty()
    } else {
        let e = entries.first();
        if after_start(e.0, start) && (include_expired || !spec_expired(e.1, b)) {
            seq![ApprovalView { spender: e.0, expires: e.1 }]
                + spec_page_operators(entries.drop_first(), start, include_expired, b, (lim - 1) as nat)
        } else {
            spec_page_operators(entries.drop_first(), start, include_expired, b, lim)
        }
    }
}

/// The views of a vector of operator entries.
pub open spec fn entry_views(v: Seq<(String, Expiry)>) -> Seq<(Seq<char>, Expiry)> {
    v.map_values(|e: (String, Expiry)| (e.0@, e.1))
}

/// One page of an owner's operators: the first `limit` entries beyond the
/// cursor that pass the expiry filter.
pub fn page_operators(
    entries: &Vec<(String, Expiry)>,
    start_after: Option<&String>,
    include_expired: bool,
    block: &BlockInfo,
    limit: u32,
) -> (r: Vec<ApprovalRecord>)
    ensures
        r@.map_values(|a: ApprovalRecord| a@)
            == spec_page_operators(entry_views(entries@), opt_view(start_after), include_expired, *block, limit as nat),
{
    let ghost keys = entry_views(entries@);
    let ghost startv = opt_view(start_after);
    let ghost goal = spec_page_operators(keys, startv, include_expired, *block, limit as nat);
    let mut out: Vec<ApprovalRecord> = Vec::new();
    let mut i: usize = 0;
    proof {
        assert(keys.skip(0) =~= keys);
        assert(out@.map_values(|a: ApprovalRecord| a@) =~= Seq::<ApprovalView>::empty());
    }
    while i < entries.len() && out.len() < limit as usize
        invariant
            0 <= i <= entries.len(),
            out@.len() <= limit as nat,
            keys == entry_views(entries@),
            startv == opt_view(start_after),
            goal == spec_page_operators(keys, startv, include_expired, *block, limit as nat),
            out@.map_values(|a: ApprovalRecord| a@)
                + spec_page_operators(keys.skip(i as int), startv, include_expired, *block, (limit as nat - out@.len()) as nat)
                =~= goal,
        decreases entries.len() - i,
    {
        let ghost rest = keys.skip(i as int);
        proof {
            assert(rest.len() > 0);
            assert(rest.first() == keys[i as int]);
            assert(rest.drop_first() =~= keys.skip(i as int + 1));
        }
        let keep = after_start_exec(start_after, &entries[i].0)
            && (include_expired || !entries[i].1.is_expired(block));
        if keep {
            let ghost before = out@.map_values(|a: ApprovalRecord| a@);
            let rec = ApprovalRecord { spender: entries[i].0.clone(), expires: entries[i].1 };
            proof {
                assert(rec@ == (ApprovalView { spender: keys[i as int].0, expires: keys[i as int].1 }));
            }
            out.push(rec);
            proof {
                assert(out@.map_values(|a: ApprovalRecord| a@) =~= before.push(rec@));
                assert(before.push(rec@) =~= before + seq![rec@]);
                assert(out@.map_values(|a: ApprovalRecord| a@)
                    + spec_page_operators(keys.skip(i as int + 1), startv, include_expired, *block, (limit as nat - out@.len()) as nat)
                    =~= goal);
            }
        }
        i += 1;
    }
    proof {
        if out@.len() == limit as nat {
            assert(spec_page_operators(keys.skip(i as int), startv, include_expired, *block, 0)
                =~= Seq::<ApprovalView>::empty());
        } else {
            assert(i == entries.len());
            assert(keys.skip(i as int).len() == 0);
        }
        assert(out@.map_values(|a: ApprovalRecord| a@) =~= goal);
    }
    out
}

} // verus!
