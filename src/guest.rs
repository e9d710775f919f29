use vstd::prelude::*;
use std::collections::HashMap;

verus! {

broadcast use vstd::std_specs::hash::group_hash_axioms;

/// How often each character occurs in `s`, keyed by the character's scalar value.
pub open spec fn histogram(s: Seq<char>) -> Map<u32, i32>
    decreases s.len(),
{
    if s.len() == 0 {
        Map::empty()
    } else {
        let h = histogram(s.drop_last());
        let k = s.last() as u32;
        h.insert(k, if h.contains_key(k) { (h[k] + 1) as i32 } else { 1i32 })
    }
}

/// How many characters of `s` have the scalar value `k`.
pub open spec fn occurrences(s: Seq<char>, k: u32) -> nat
    decreases s.len(),
{
    if s.len() == 0 {
        0
    } else {
        occurrences(s.drop_last(), k) + if s.last() as u32 == k {
            1nat
        } else {
            0nat
        }
    }
}

/// No character occurs in `s` more often than a guest `i32` can count.
pub open spec fn counts_fit(s: Seq<char>) -> bool {
    forall|k: u32| #[trigger] occurrences(s, k) <= i32::MAX
}

/// A prefix of `s` holds each character at most as often as `s` does.
proof fn lemma_occurrences_prefix(s: Seq<char>, i: int, k: u32)
    requires
        0 <= i <= s.len(),
    ensures
        occurrences(s.take(i), k) <= occurrences(s, k),
    decreases s.len(),
{
    if i < s.len() {
        assert(s.drop_last().take(i) =~= s.take(i));
        lemma_occurrences_prefix(s.drop_last(), i, k);
    } else {
        assert(s.take(i) =~= s);
    }
}

/// The histogram of `s` counts exactly the occurrences of each character.
proof fn lemma_histogram_counts(s: Seq<char>)
    requires
        counts_fit(s),
    ensures
        forall|k: u32| #[trigger] histogram(s).contains_key(k) <==> occurrences(s, k) > 0,
        forall|k: u32| #[trigger] histogram(s).contains_key(k) ==> histogram(s)[k] == occurrences(
            s,
            k,
        ),
    decreases s.len(),
{
    if s.len() > 0 {
        let t = s.drop_last();
        assert forall|k: u32| #[trigger] occurrences(t, k) <= i32::MAX by {
            assert(occurrences(s, k) <= i32::MAX);
        }
        lemma_histogram_counts(t);
        let key = s.last() as u32;
        assert(occurrences(s, key) <= i32::MAX);
        assert forall|k: u32| #[trigger] histogram(s).contains_key(k) implies histogram(s)[k]
            == occurrences(s, k) by {
            if k != key {
                assert(histogram(t).contains_key(k));
            }
        }
        assert forall|k: u32| occurrences(s, k) > 0 implies #[trigger] histogram(s).contains_key(
            k,
        ) by {
            if k != key {
                assert(occurrences(t, k) > 0);
            }
        }
    }
}

/// Counting a concatenation adds up the counts of its parts.
pub proof fn occurrences_concat(a: Seq<char>, b: Seq<char>, k: u32)
    ensures
        occurrences(a + b, k) == occurrences(a, k) + occurrences(b, k),
    decreases b.len(),
{
    if b.len() == 0 {
        assert(a + b =~= a);
    } else {
        assert((a + b).drop_last() =~= a + b.drop_last());
        occurrences_concat(a, b.drop_last(), k);
    }
}

/// The counts in `s` of the characters listed in `keys`, added up.
pub open spec fn sum_counts(s: Seq<char>, keys: Seq<u32>) -> int
    decreases keys.len(),
{
    if keys.len() == 0 {
        0
    } else {
        sum_counts(s, keys.drop_last()) + occurrences(s, keys.last())
    }
}

/// Adding one character to a text adds one to the sum over a key list that holds it
/// once, and nothing to one that does not hold it.
proof fn lemma_sum_counts_push(t: Seq<char>, c: char, keys: Seq<u32>)
    requires
        keys.no_duplicates(),
    ensures
        sum_counts(t.push(c), keys) == sum_counts(t, keys) + if keys.contains(c as u32) {
            1int
        } else {
            0int
        },
    decreases keys.len(),
{
    if keys.len() > 0 {
        let ks = keys.drop_last();
        let l = keys.last();
        assert(ks.no_duplicates());
        lemma_sum_counts_push(t, c, ks);
        assert(t.push(c).drop_last() =~= t);
        if keys.contains(c as u32) {
            let i = choose|i: int| 0 <= i < keys.len() && keys[i] == c as u32;
            if i < keys.len() - 1 {
                assert(ks[i] == c as u32);
                assert(l != c as u32);
            } else {
                assert(!ks.contains(c as u32));
            }
        } else {
            assert(!ks.contains(c as u32));
        }
    }
}

/// The counts add up to the length of the text: summed over any list of distinct keys
/// that holds every character of `s`, they give `s.len()`.
pub proof fn counts_sum_to_length(s: Seq<char>, keys: Seq<u32>)
    requires
        keys.no_duplicates(),
        forall|k: u32| occurrences(s, k) > 0 ==> #[trigger] keys.contains(k),
    ensures
        sum_counts(s, keys) == s.len(),
    decreases s.len(),
{
    if s.len() == 0 {
        lemma_sum_counts_empty(s, keys);
    } else {
        let t = s.drop_last();
        let c = s.last();
        assert forall|k: u32| occurrences(t, k) > 0 implies #[trigger] keys.contains(k) by {
            assert(occurrences(s, k) > 0);
        }
        counts_sum_to_length(t, keys);
        assert(t.push(c) =~= s);
        assert(occurrences(s, c as u32) > 0);
        assert(keys.contains(c as u32));
        lemma_sum_counts_push(t, c, keys);
    }
}

/// Nothing is counted in an empty text.
proof fn lemma_sum_counts_empty(s: Seq<char>, keys: Seq<u32>)
    requires
        s.len() == 0,
    ensures
        sum_counts(s, keys) == 0,
    decreases keys.len(),
{
    if keys.len() > 0 {
        lemma_sum_counts_empty(s, keys.drop_last());
    }
}

/// Counts the occurrences of each character of `input`, keyed by its scalar value.
pub fn count_chars(input: &str) -> (r: HashMap<u32, i32>)
    requires
        counts_fit(input@),
    ensures
        r@ == histogram(input@),
        forall|k: u32| #[trigger] r@.contains_key(k) <==> occurrences(input@, k) > 0,
        forall|k: u32| #[trigger] r@.contains_key(k) ==> r@[k] == occurrences(input@, k),
{
    let n = input.unicode_len();
    let mut acc: HashMap<u32, i32> = HashMap::new();
    let mut i: usize = 0;
    while i < n
        invariant
            n == input@.len(),
            counts_fit(input@),
            i <= n,
            acc@ == histogram(input@.take(i as int)),
        decreases n - i,
    {
        let c = input.get_char(i);
        let k = c as u32;
        proof {
            let pre = input@.take(i as int);
            assert(input@.take(i + 1).drop_last() =~= pre);
            assert(input@.take(i + 1).last() == c);
            lemma_occurrences_prefix(input@, i + 1, k);
            assert(occurrences(input@, k) <= i32::MAX);
            assert forall|q: u32| #[trigger] occurrences(pre, q) <= i32::MAX by {
                lemma_occurrences_prefix(input@, i as int, q);
                assert(occurrences(input@, q) <= i32::MAX);
            }
            lemma_histogram_counts(pre);
        }
        let next = match acc.get(&k) {
            Some(v) => *v + 1,
            None => 1,
        };
        acc.insert(k, next);
        i += 1;
    }
    proof {
        assert(input@.take(n as int) =~= input@);
        lemma_histogram_counts(input@);
    }
    acc
}

/// The histogram depends on nothing but how often each character occurs: texts with
/// the same counts, such as one text counted twice or a text and a reordering of it,
/// have equal histograms.
pub proof fn histogram_determined_by_counts(a: Seq<char>, b: Seq<char>)
    requires
        counts_fit(a),
        forall|k: u32| #[trigger] occurrences(a, k) == occurrences(b, k),
    ensures
        histogram(a) == histogram(b),
{
    assert forall|k: u32| #[trigger] occurrences(b, k) <= i32::MAX by {
        assert(occurrences(a, k) == occurrences(b, k));
    }
    lemma_histogram_counts(a);
    lemma_histogram_counts(b);
    assert forall|k: u32| #[trigger] histogram(a).contains_key(k) == histogram(b).contains_key(k) by {
        assert(occurrences(a, k) == occurrences(b, k));
    }
    assert forall|k: u32| #[trigger] histogram(a).contains_key(k) implies histogram(a)[k] == histogram(
        b,
    )[k] by {
        assert(occurrences(a, k) == occurrences(b, k));
    }
    assert(histogram(a) =~= histogram(b));
}

/// The example submission of the standalone runner: the list 3, 2, 1.
pub fn execute() -> (r: Vec<i32>)
    ensures
        r@ == seq![3i32, 2, 1],
{
    vec![3, 2, 1]
}

} // verus!
