//! The canonical ascending enumeration of a table's keys.
//!
//! A range scan hands a table's keys out in strictly ascending order, each
//! exactly once. Such an enumeration is unique, so it can serve as a
//! mathematical function of the table: `sorted_keys` names it, and
//! `lemma_sorted_keys_canonical` lets any concrete scan result be recognised
//! as it.

use vstd::prelude::*;

use crate::order::{str_lt, strict_sorted};

verus! {

/// `ks` enumerates the keys of `m`: strictly ascending, all from `m`, and
/// none of `m` missing.
pub open spec fn is_sorted_keys<V>(m: Map<Seq<char>, V>, ks: Seq<Seq<char>>) -> bool {
    &&& strict_sorted(ks)
    &&& forall|i: int| 0 <= i < ks.len() ==> m.dom().contains(#[trigger] ks[i])
    &&& forall|k: Seq<char>| #[trigger] m.dom().contains(k) ==> ks.contains(k)
}

/// The ascending enumeration of `m`'s keys. Meaningful wherever some
/// enumeration is shown to exist; unique by
/// [`lemma_sorted_keys_unique`].
pub open spec fn sorted_keys<V>(m: Map<Seq<char>, V>) -> Seq<Seq<char>> {
    choose|ks: Seq<Seq<char>>| is_sorted_keys(m, ks)
}

/// Two ascending enumerations of the same table are the same sequence.
pub proof fn lemma_sorted_keys_unique<V>(m: Map<Seq<char>, V>, a: Seq<Seq<char>>, b: Seq<Seq<char>>)
    requires
        is_sorted_keys(m, a),
        is_sorted_keys(m, b),
    ensures
        a == b,
    decreases a.len(),
{
    if a.len() == 0 && b.len() == 0 {
        assert(a =~= b);
    } else if a.len() == 0 {
        assert(m.dom().contains(b[0]));
        assert(a.contains(b[0]));
    } else if b.len() == 0 {
        assert(m.dom().contains(a[0]));
        assert(b.contains(a[0]));
    } else {
        // The heads agree: each head is the least element of m's keys.
        assert(b.contains(a[0]));
        let j = choose|j: int| 0 <= j < b.len() && b[j] == a[0];
        assert(a.contains(b[0]));
        let i = choose|i: int| 0 <= i < a.len() && a[i] == b[0];
        if j > 0 {
            assert(str_lt(b[0], b[j]));
            if i > 0 {
                assert(str_lt(a[0], a[i]));
                crate::order::lemma_str_lt_asym(b[0], a[0]);
                assert(false);
            } else {
                crate::order::lemma_str_lt_irrefl(a[0]);
                assert(false);
            }
        }
        assert(a[0] == b[0]);

        // The tails enumerate m without the shared head.
        let m2 = m.remove(a[0]);
        let a2 = a.drop_first();
        let b2 = b.drop_first();
        assert forall|i2: int| 0 <= i2 < a2.len() implies m2.dom().contains(#[trigger] a2[i2]) by {
            assert(a2[i2] == a[i2 + 1]);
            assert(str_lt(a[0], a[i2 + 1]));
            crate::order::lemma_str_lt_irrefl(a[0]);
        }
        assert forall|i2: int| 0 <= i2 < b2.len() implies m2.dom().contains(#[trigger] b2[i2]) by {
            assert(b2[i2] == b[i2 + 1]);
            assert(str_lt(b[0], b[i2 + 1]));
            crate::order::lemma_str_lt_irrefl(b[0]);
        }
        assert forall|k: Seq<char>| #[trigger] m2.dom().contains(k) implies a2.contains(k) by {
            assert(m.dom().contains(k));
            let ik = choose|ik: int| 0 <= ik < a.len() && a[ik] == k;
            assert(ik != 0);
            assert(a2[ik - 1] == k);
        }
        assert forall|k: Seq<char>| #[trigger] m2.dom().contains(k) implies b2.contains(k) by {
            assert(m.dom().contains(k));
            let ik = choose|ik: int| 0 <= ik < b.len() && b[ik] == k;
            assert(ik != 0);
            assert(b2[ik - 1] == k);
        }
        assert(strict_sorted(a2)) by {
            assert(forall|x: int, y: int| 0 <= x < y < a2.len()
                ==> str_lt(#[trigger] a2[x], #[trigger] a2[y]));
        }
        assert(strict_sorted(b2)) by {
            assert(forall|x: int, y: int| 0 <= x < y < b2.len()
                ==> str_lt(#[trigger] b2[x], #[trigger] b2[y]));
        }
        lemma_sorted_keys_unique(m2, a2, b2);
        assert(a.len() == b.len());
        assert forall|p: int| 0 <= p < a.len() implies a[p] == b[p] by {
            if p > 0 {
                assert(a[p] == a2[p - 1]);
                assert(b[p] == b2[p - 1]);
            }
        }
        assert(a =~= b);
    }
}

/// Any concrete enumeration of `m` is the canonical one.
pub proof fn lemma_sorted_keys_canonical<V>(m: Map<Seq<char>, V>, ks: Seq<Seq<char>>)
    requires
        is_sorted_keys(m, ks),
    ensures
        sorted_keys(m) == ks,
{
    assert(is_sorted_keys(m, sorted_keys(m))) by {
        assert(is_sorted_keys(m, ks));
    }
    lemma_sorted_keys_unique(m, sorted_keys(m), ks);
}

} // verus!
