//! Lexicographic order on texts and the alphabetical pair selection.
use vstd::prelude::*;
use crate::text::chars_of;

verus! {

/// Strict lexicographic order on texts by Unicode scalar value. Because
/// UTF-8 preserves scalar order, this is the order `String`'s `Ord` uses.
pub open spec fn text_lt(a: Seq<char>, b: Seq<char>) -> bool
    decreases a.len(),
{
    if a.len() == 0 {
        b.len() > 0
    } else if b.len() == 0 {
        false
    } else if a[0] != b[0] {
        (a[0] as int) < (b[0] as int)
    } else {
        text_lt(a.drop_first(), b.drop_first())
    }
}

/// No text is below itself.
pub proof fn lemma_text_lt_irreflexive(a: Seq<char>)
    ensures
        !text_lt(a, a),
    decreases a.len(),
{
    if a.len() > 0 {
        lemma_text_lt_irreflexive(a.drop_first());
    }
}

/// The order is transitive.
pub proof fn lemma_text_lt_transitive(a: Seq<char>, b: Seq<char>, c: Seq<char>)
    requires
        text_lt(a, b),
        text_lt(b, c),
    ensures
        text_lt(a, c),
    decreases a.len(),
{
    if a.len() > 0 && b.len() > 0 && c.len() > 0 {
        if a[0] == b[0] && b[0] == c[0] {
            lemma_text_lt_transitive(a.drop_first(), b.drop_first(), c.drop_first());
        }
    }
}

/// Any two different texts are ordered one way or the other.
pub proof fn lemma_text_lt_total(a: Seq<char>, b: Seq<char>)
    requires
        a != b,
    ensures
        text_lt(a, b) || text_lt(b, a),
    decreases a.len(),
{
    if a.len() > 0 && b.len() > 0 {
        if a[0] == b[0] {
            if a.drop_first() == b.drop_first() {
                assert(a =~= seq![a[0]] + a.drop_first());
                assert(b =~= seq![b[0]] + b.drop_first());
            }
            lemma_text_lt_total(a.drop_first(), b.drop_first());
        } else {
        }
    } else if a.len() == 0 && b.len() == 0 {
        assert(a =~= b);
    }
}

/// The order is asymmetric.
pub proof fn lemma_text_lt_asymmetric(a: Seq<char>, b: Seq<char>)
    requires
        text_lt(a, b),
    ensures
        !text_lt(b, a),
{
    if text_lt(b, a) {
        lemma_text_lt_transitive(a, b, a);
        lemma_text_lt_irreflexive(a);
    }
}

/// Lexicographic comparison of two character sequences.
pub fn text_less(a: &[char], b: &[char]) -> (r: bool)
    ensures
        r == text_lt(a@, b@),
{
    let mut i: usize = 0;
    assert(a@.skip(0) =~= a@);
    assert(b@.skip(0) =~= b@);
    loop
        invariant
            i <= a@.len(),
            i <= b@.len(),
            text_lt(a@, b@) == text_lt(a@.skip(i as int), b@.skip(i as int)),
        decreases a@.len() - i,
    {
        if i == a.len() {
            return i < b.len();
        }
        if i == b.len() {
            return false;
        }
        if a[i] != b[i] {
            return a[i] < b[i];
        }
        assert(a@.skip(i as int).drop_first() =~= a@.skip(i + 1));
        assert(b@.skip(i as int).drop_first() =~= b@.skip(i + 1));
        i = i + 1;
    }
}

/// The name (first component) of a pair entry.
pub open spec fn entry_key(e: (String, String)) -> Seq<char> {
    e.0@
}

/// Two entries hold the same texts.
pub open spec fn same_entry(x: (String, String), y: (String, String)) -> bool {
    x.0@ == y.0@ && x.1@ == y.1@
}

/// `e` holds the same texts as some entry of `s`.
pub open spec fn appears_in(e: (String, String), s: Seq<(String, String)>) -> bool {
    exists|j: int| 0 <= j < s.len() && same_entry(e, s[j])
}

/// No two entries share a name (the entries come from a map keyed by name).
pub open spec fn distinct_keys(s: Seq<(String, String)>) -> bool {
    forall|i: int, j: int| 0 <= i < j < s.len() ==> entry_key(s[i]) != entry_key(s[j])
}

/// `idx` lists entries of `keys` in strictly increasing key order.
pub open spec fn sorted_by_keys(keys: Seq<Seq<char>>, idx: Seq<usize>) -> bool {
    &&& forall|t: int| 0 <= t < idx.len() ==> (#[trigger] idx[t] as int) < keys.len()
    &&& forall|a: int, b: int|
        0 <= a < b < idx.len() ==> text_lt(keys[#[trigger] idx[a] as int], keys[#[trigger] idx[b] as int])
}

proof fn lemma_sorted_chain(keys: Seq<Seq<char>>, idx: Seq<usize>, p: int, x: Seq<char>)
    requires
        sorted_by_keys(keys, idx),
        0 <= p < idx.len(),
        text_lt(x, keys[idx[p] as int]),
    ensures
        forall|t: int| p <= t < idx.len() ==> text_lt(x, keys[#[trigger] idx[t] as int]),
{
    assert forall|t: int| p <= t < idx.len() implies text_lt(x, keys[#[trigger] idx[t] as int]) by {
        if t > p {
            lemma_text_lt_transitive(x, keys[idx[p] as int], keys[idx[t] as int]);
        }
    }
}

/// Up to `count` entries, in alphabetical order of their names: the
/// fallback pair selection used when the liquidity ranking is unavailable.
/// `entries` are the (display name, exchange pair) entries of the pair map.
pub fn top_liquid_pairs(entries: &Vec<(String, String)>, count: usize) -> (r: Vec<(String, String)>)
    requires
        distinct_keys(entries@),
    ensures
        r@.len() == if count < entries@.len() { count as int } else { entries@.len() as int },
        forall|i: int, j: int|
            0 <= i < j < r@.len() ==> text_lt(entry_key(r@[i]), entry_key(r@[j])),
        forall|i: int| 0 <= i < r@.len() ==> #[trigger] appears_in(r@[i], entries@),
        forall|j: int, i: int|
            0 <= j < entries@.len() && !appears_in(entries@[j], r@) && 0 <= i < r@.len()
                ==> text_lt(entry_key(#[trigger] r@[i]), entry_key(#[trigger] entries@[j])),
{
    let n = entries.len();
    let ghost keys_spec: Seq<Seq<char>> = entries@.map_values(|e: (String, String)| e.0@);
    let mut keys: Vec<Vec<char>> = Vec::new();
    for k in 0..n
        invariant
            n == entries@.len(),
            keys_spec == entries@.map_values(|e: (String, String)| e.0@),
            keys@.len() == k,
            forall|t: int| 0 <= t < k ==> (#[trigger] keys@[t])@ == keys_spec[t],
    {
        keys.push(chars_of(entries[k].0.as_str()));
    }
    // Insertion sort of entry indices by name.
    let mut idx: Vec<usize> = Vec::new();
    for k in 0..n
        invariant
            n == entries@.len(),
            keys_spec.len() == n,
            keys@.len() == n,
            forall|t: int| 0 <= t < n ==> (#[trigger] keys@[t])@ == keys_spec[t],
            forall|a: int, b: int| 0 <= a < b < n ==> keys_spec[a] != keys_spec[b],
            idx@.len() == k,
            sorted_by_keys(keys_spec, idx@),
            forall|t: int| 0 <= t < idx@.len() ==> (#[trigger] idx@[t]) < k,
            forall|m: int| 0 <= m < k ==> #[trigger] idx@.contains(m as usize),
    {
        let mut p: usize = 0;
        loop
            invariant
                p <= idx@.len(),
                k < n,
                keys@.len() == n,
                keys_spec.len() == n,
                forall|t: int| 0 <= t < n ==> (#[trigger] keys@[t])@ == keys_spec[t],
                sorted_by_keys(keys_spec, idx@),
                forall|t: int| 0 <= t < idx@.len() ==> (#[trigger] idx@[t]) < k,
                forall|t: int| 0 <= t < p ==> text_lt(keys_spec[#[trigger] idx@[t] as int], keys_spec[k as int]),
            ensures
                p <= idx@.len(),
                forall|t: int| 0 <= t < p ==> text_lt(keys_spec[#[trigger] idx@[t] as int], keys_spec[k as int]),
                p < idx@.len() ==> !text_lt(keys_spec[idx@[p as int] as int], keys_spec[k as int]),
            decreases idx@.len() - p,
        {
            if p == idx.len() {
                break;
            }
            let j = idx[p];
            if !text_less(keys[j].as_slice(), keys[k].as_slice()) {
                break;
            }
            p = p + 1;
        }
        proof {
            if p < idx@.len() {
                let j = idx@[p as int];
                assert(j < k);
                assert(keys_spec[j as int] != keys_spec[k as int]);
                lemma_text_lt_total(keys_spec[j as int], keys_spec[k as int]);
                lemma_sorted_chain(keys_spec, idx@, p as int, keys_spec[k as int]);
            }
        }
        let ghost old_idx = idx@;
        idx.insert(p, k);
        proof {
            assert(idx@ == old_idx.insert(p as int, k));
            assert forall|a: int, b: int| 0 <= a < b < idx@.len() implies text_lt(
                keys_spec[#[trigger] idx@[a] as int],
                keys_spec[#[trigger] idx@[b] as int],
            ) by {
                if b < p {
                } else if b == p {
                } else if a < p {
                    lemma_text_lt_transitive(
                        keys_spec[old_idx[a] as int],
                        keys_spec[k as int],
                        keys_spec[old_idx[b - 1] as int],
                    );
                } else if a == p {
                } else {
                }
            }
            assert forall|m: int| 0 <= m < k + 1 implies #[trigger] idx@.contains(m as usize) by {
                if m == k {
                    assert(idx@[p as int] == m as usize);
                } else {
                    assert(old_idx.contains(m as usize));
                    let t = choose|t: int| 0 <= t < old_idx.len() && old_idx[t] == m as usize;
                    if t < p {
                        assert(idx@[t] == m as usize);
                    } else {
                        assert(idx@[t + 1] == m as usize);
                    }
                }
            }
        }
    }
    let m = if count < n { count } else { n };
    let mut r: Vec<(String, String)> = Vec::new();
    for t in 0..m
        invariant
            m <= n,
            n == entries@.len(),
            idx@.len() == n,
            keys_spec == entries@.map_values(|e: (String, String)| e.0@),
            sorted_by_keys(keys_spec, idx@),
            r@.len() == t,
            forall|s: int| 0 <= s < t ==> same_entry(#[trigger] r@[s], entries@[idx@[s] as int]),
    {
        let e = &entries[idx[t]];
        let a = e.0.clone();
        let b = e.1.clone();
        r.push((a, b));
    }
    proof {
        assert forall|i: int, j: int| 0 <= i < j < r@.len() implies text_lt(
            entry_key(r@[i]),
            entry_key(r@[j]),
        ) by {
            assert(keys_spec[idx@[i] as int] == entry_key(entries@[idx@[i] as int]));
            assert(keys_spec[idx@[j] as int] == entry_key(entries@[idx@[j] as int]));
        }
        assert forall|i: int| 0 <= i < r@.len() implies #[trigger] appears_in(r@[i], entries@) by {
            let j = idx@[i] as int;
            assert(j < keys_spec.len());
            assert(same_entry(r@[i], entries@[j]));
        }
        assert forall|j: int, i: int|
            0 <= j < entries@.len() && !appears_in(entries@[j], r@) && 0 <= i < r@.len() implies text_lt(
            entry_key(#[trigger] r@[i]),
            entry_key(#[trigger] entries@[j]),
        ) by {
            assert(idx@.contains(j as usize));
            let t = choose|t: int| 0 <= t < idx@.len() && idx@[t] == j as usize;
            if t < r@.len() {
                assert(same_entry(entries@[j], r@[t]));
            }
            assert(i < t);
            assert(keys_spec[idx@[i] as int] == entry_key(entries@[idx@[i] as int]));
            assert(keys_spec[idx@[t] as int] == entry_key(entries@[j]));
        }
    }
    r
}

} // verus!
