//! The order of texts, and the arrangement of a list of texts in that order.
//!
//! Texts are ordered by the first character in which they differ, characters
//! by their code points, and a text comes before each of its extensions.

use vstd::prelude::*;

verus! {

/// Whether `a` comes before `b` in the order of texts, or equals it.
pub open spec fn text_le(a: Seq<char>, b: Seq<char>) -> bool
    decreases a.len(),
{
    if a.len() == 0 {
        true
    } else if b.len() == 0 {
        false
    } else if a[0] == b[0] {
        text_le(a.drop_first(), b.drop_first())
    } else {
        (a[0] as int) < (b[0] as int)
    }
}

/// Of two texts one comes before the other, or they are equal.
pub proof fn lemma_text_le_total(a: Seq<char>, b: Seq<char>)
    ensures
        text_le(a, b) || text_le(b, a),
    decreases a.len(),
{
    if a.len() > 0 && b.len() > 0 {
        if a[0] == b[0] {
            lemma_text_le_total(a.drop_first(), b.drop_first());
        }
    }
}

/// What comes before a text comes before everything that the text comes
/// before.
pub proof fn lemma_text_le_transitive(a: Seq<char>, b: Seq<char>, c: Seq<char>)
    requires
        text_le(a, b),
        text_le(b, c),
    ensures
        text_le(a, c),
    decreases a.len(),
{
    if a.len() > 0 {
        if a[0] == b[0] && b[0] == c[0] {
            lemma_text_le_transitive(a.drop_first(), b.drop_first(), c.drop_first());
        }
    }
}

/// Whether `order` names each of the first `n` indices once.
pub open spec fn is_arrangement(order: Seq<usize>, n: nat) -> bool {
    &&& order.len() == n
    &&& order.no_duplicates()
    &&& forall|i: int| 0 <= i < order.len() ==> #[trigger] order[i] < n
}

/// Whether the texts of `keys`, taken in the order `order`, never go down.
pub open spec fn ascending(order: Seq<usize>, keys: Seq<String>) -> bool {
    forall|i: int, j: int|
        0 <= i < j < order.len() ==> text_le(
            #[trigger] keys[order[i] as int]@,
            #[trigger] keys[order[j] as int]@,
        )
}

/// Whether `a` comes before `b` in the order of texts, or equals it.
pub fn precedes(a: &str, b: &str) -> (r: bool)
    ensures
        r == text_le(a@, b@),
{
    let n = a.unicode_len();
    let m = b.unicode_len();
    let mut i: usize = 0;
    assert(a@.subrange(0, n as int) =~= a@);
    assert(b@.subrange(0, m as int) =~= b@);
    while i < n && i < m
        invariant
            n == a@.len(),
            m == b@.len(),
            i <= n,
            i <= m,
            text_le(a@, b@) == text_le(a@.subrange(i as int, n as int), b@.subrange(i as int, m as int)),
        decreases n - i,
    {
        let x = a.get_char(i);
        let y = b.get_char(i);
        proof {
            let ra = a@.subrange(i as int, n as int);
            let rb = b@.subrange(i as int, m as int);
            assert(ra[0] == x && rb[0] == y);
            assert(ra.drop_first() =~= a@.subrange(i + 1, n as int));
            assert(rb.drop_first() =~= b@.subrange(i + 1, m as int));
        }
        if x != y {
            return (x as u32) < (y as u32);
        }
        i = i + 1;
    }
    i == n
}

/// Whether texts that are equal stand in `order` as they stand in `keys`.
pub open spec fn stable(order: Seq<usize>, keys: Seq<String>) -> bool {
    forall|i: int, j: int|
        0 <= i < j < order.len() && text_le(
            #[trigger] keys[order[j] as int]@,
            #[trigger] keys[order[i] as int]@,
        ) ==> order[i] < order[j]
}

/// The indices of `keys` arranged so that the texts never go down; texts
/// that are equal keep the order in which they stand in `keys`.
pub fn sorted_order(keys: &Vec<String>) -> (order: Vec<usize>)
    ensures
        is_arrangement(order@, keys@.len()),
        ascending(order@, keys@),
        stable(order@, keys@),
{
    let mut order: Vec<usize> = Vec::new();
    let mut k: usize = 0;
    while k < keys.len()
        invariant
            k <= keys.len(),
            is_arrangement(order@, k as nat),
            ascending(order@, keys@),
            stable(order@, keys@),
        decreases keys.len() - k,
    {
        let mut p: usize = 0;
        while p < order.len() && precedes(keys[order[p]].as_str(), keys[k].as_str())
            invariant
                k < keys.len(),
                p <= order.len(),
                is_arrangement(order@, k as nat),
                forall|q: int|
                    0 <= q < p ==> text_le(#[trigger] keys[order[q] as int]@, keys[k as int]@),
            decreases order.len() - p,
        {
            p = p + 1;
        }
        let ghost before = order@;
        order.insert(p, k);
        proof {
            let after = order@;
            assert(after.len() == before.len() + 1);
            assert forall|i: int| 0 <= i < after.len() implies (if i < p {
                after[i] == before[i]
            } else if i == p {
                after[i] == k
            } else {
                after[i] == before[i - 1]
            }) by {}
            assert forall|i: int, j: int| 0 <= i < j < after.len() implies text_le(
                #[trigger] keys[after[i] as int]@,
                #[trigger] keys[after[j] as int]@,
            ) by {
                if j < p {
                } else if j == p {
                } else if i < p {
                    assert(text_le(keys[before[i] as int]@, keys[before[j - 1] as int]@));
                } else if i == p {
                    lemma_text_le_total(keys[before[p as int] as int]@, keys[k as int]@);
                    if j - 1 > p {
                        assert(text_le(keys[before[p as int] as int]@, keys[before[j - 1] as int]@));
                        lemma_text_le_transitive(
                            keys[k as int]@,
                            keys[before[p as int] as int]@,
                            keys[before[j - 1] as int]@,
                        );
                    }
                } else {
                    assert(text_le(keys[before[i - 1] as int]@, keys[before[j - 1] as int]@));
                }
            }
            assert forall|i: int, j: int|
                0 <= i < j < after.len() && text_le(
                    #[trigger] keys[after[j] as int]@,
                    #[trigger] keys[after[i] as int]@,
                ) implies after[i] < after[j] by {
                if j < p {
                } else if j == p {
                    assert(before[i] < k);
                } else if i < p {
                    assert(text_le(keys[before[j - 1] as int]@, keys[before[i] as int]@));
                } else if i == p {
                    if j - 1 > p {
                        assert(text_le(keys[before[p as int] as int]@, keys[before[j - 1] as int]@));
                        lemma_text_le_transitive(
                            keys[before[p as int] as int]@,
                            keys[before[j - 1] as int]@,
                            keys[k as int]@,
                        );
                    }
                } else {
                    assert(text_le(keys[before[j - 1] as int]@, keys[before[i - 1] as int]@));
                }
            }
            assert forall|i: int, j: int|
                0 <= i < after.len() && 0 <= j < after.len() && i != j implies after[i]
                != after[j] by {
                let oi = if i < p { i } else { i - 1 };
                let oj = if j < p { j } else { j - 1 };
                if i != p && j != p {
                    assert(before[oi] != before[oj]);
                } else if i == p {
                    assert(before[oj] < k);
                } else {
                    assert(before[oi] < k);
                }
            }
        }
        k = k + 1;
    }
    order
}

} // verus!
