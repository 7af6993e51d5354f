//! Occurrences per status code: the model, its laws, and the two updates of
//! the map that holds them.

use std::collections::HashMap;
use vstd::prelude::*;

verus! {

/// The occurrences that a map of counters stands for.
pub open spec fn counts_of(m: Map<u16, u64>) -> Map<u16, nat> {
    Map::new(|code: u16| m.contains_key(code), |code: u16| m[code] as nat)
}

/// How often `code` occurred: 0 for a code that has no entry.
pub open spec fn count_at(m: Map<u16, nat>, code: u16) -> nat {
    if m.contains_key(code) {
        m[code]
    } else {
        0
    }
}

/// The occurrences of the codes below `bound`, added up.
pub open spec fn total_below(m: Map<u16, nat>, bound: nat) -> nat
    decreases bound,
{
    if bound == 0 {
        0
    } else {
        total_below(m, (bound - 1) as nat) + count_at(m, (bound - 1) as u16)
    }
}

/// The occurrences of all codes, added up.
pub open spec fn total_of(m: Map<u16, nat>) -> nat {
    total_below(m, 0x1_0000)
}

/// The occurrences after one more of `code`.
pub open spec fn bumped(m: Map<u16, nat>, code: u16) -> Map<u16, nat> {
    m.insert(code, count_at(m, code) + 1)
}

/// The occurrences of two maps together: a code has an entry where either map
/// has one, and its count is the sum of the two.
pub open spec fn merged(a: Map<u16, nat>, b: Map<u16, nat>) -> Map<u16, nat> {
    Map::new(
        |code: u16| a.contains_key(code) || b.contains_key(code),
        |code: u16| count_at(a, code) + count_at(b, code),
    )
}

/// `a` together with the entries of `b` whose codes are in `done`.
spec fn merged_within(a: Map<u16, nat>, b: Map<u16, nat>, done: Set<u16>) -> Map<
    u16,
    nat,
> {
    merged(a, b.restrict(done))
}

proof fn lemma_total_below_empty(bound: nat)
    ensures
        total_below(Map::<u16, nat>::empty(), bound) == 0,
    decreases bound,
{
    if bound > 0 {
        lemma_total_below_empty((bound - 1) as nat);
    }
}

/// No entries, no occurrences.
pub proof fn lemma_total_empty()
    ensures
        total_of(Map::<u16, nat>::empty()) == 0,
{
    lemma_total_below_empty(0x1_0000);
}

proof fn lemma_total_below_insert(m: Map<u16, nat>, code: u16, n: nat, bound: nat)
    requires
        bound <= 0x1_0000,
    ensures
        total_below(m.insert(code, n), bound) == if code < bound {
            total_below(m, bound) - count_at(m, code) + n
        } else {
            total_below(m, bound) as int
        },
        code < bound ==> count_at(m, code) <= total_below(m, bound),
    decreases bound,
{
    if bound > 0 {
        lemma_total_below_insert(m, code, n, (bound - 1) as nat);
    }
}

/// Setting the count of one code moves the total by the difference.
pub proof fn lemma_total_insert(m: Map<u16, nat>, code: u16, n: nat)
    ensures
        total_of(m.insert(code, n)) == total_of(m) - count_at(m, code) + n,
        count_at(m, code) <= total_of(m),
{
    lemma_total_below_insert(m, code, n, 0x1_0000);
}

proof fn lemma_total_below_merged(a: Map<u16, nat>, b: Map<u16, nat>, bound: nat)
    requires
        bound <= 0x1_0000,
    ensures
        total_below(merged(a, b), bound) == total_below(a, bound) + total_below(b, bound),
    decreases bound,
{
    if bound > 0 {
        lemma_total_below_merged(a, b, (bound - 1) as nat);
    }
}

/// The total of two maps together is the sum of their totals.
pub proof fn lemma_total_merged(a: Map<u16, nat>, b: Map<u16, nat>)
    ensures
        total_of(merged(a, b)) == total_of(a) + total_of(b),
{
    lemma_total_below_merged(a, b, 0x1_0000);
}

/// Counts one more occurrence of `code`.
pub fn bump(counts: &mut HashMap<u16, u64>, code: u16)
    requires
        total_of(counts_of(old(counts)@)) < u64::MAX,
    ensures
        counts_of(final(counts)@) == bumped(counts_of(old(counts)@), code),
{
    broadcast use vstd::std_specs::hash::group_hash_axioms;

    let ghost before = counts_of(counts@);
    proof {
        lemma_total_insert(before, code, 0);
    }
    let seen: u64 = match counts.get(&code) {
        Some(n) => *n,
        None => 0,
    };
    counts.insert(code, seen + 1);
    assert(counts_of(counts@) =~= bumped(before, code));
}

/// Adds every count of `other` to the count of the same code in `counts`.
pub fn absorb(counts: &mut HashMap<u16, u64>, other: &HashMap<u16, u64>)
    requires
        total_of(counts_of(old(counts)@)) + total_of(counts_of(other@)) <= u64::MAX,
    ensures
        counts_of(final(counts)@) == merged(counts_of(old(counts)@), counts_of(other@)),
{
    broadcast use vstd::std_specs::hash::group_hash_axioms;

    let ghost before = counts_of(counts@);
    let ghost theirs = counts_of(other@);
    let ghost mut done: Set<u16> = Set::empty();
    assert(counts_of(counts@) =~= merged_within(before, theirs, done));
    for entry in it: other.iter()
        invariant
            before == counts_of(old(counts)@),
            theirs == counts_of(other@),
            total_of(before) + total_of(theirs) <= u64::MAX,
            it.seq().no_duplicates(),
            forall|i: int|
                0 <= i < it.seq().len() ==> other@.contains_key(*(#[trigger] it.seq()[i]).0)
                    && other@[*it.seq()[i].0] == *it.seq()[i].1,
            forall|code: u16| #[trigger]
                other@.contains_key(code) ==> exists|i: int|
                    0 <= i < it.seq().len() && *(#[trigger] it.seq()[i]).0 == code,
            forall|i: int| 0 <= i < it.index() ==> done.contains(*(#[trigger] it.seq()[i]).0),
            forall|i: int|
                it.index() <= i < it.seq().len() ==> !done.contains(*(#[trigger] it.seq()[i]).0),
            counts_of(counts@) == merged_within(before, theirs, done),
    {
        let (code, n) = entry;
        proof {
            assert(entry == it.seq()[it.index()]);
            assert(other@[*code] == *n && !done.contains(*code));
            assert(count_at(merged_within(before, theirs, done), *code) == count_at(before, *code));
            lemma_total_insert(before, *code, 0);
            lemma_total_insert(theirs, *code, 0);
        }
        let seen: u64 = match counts.get(code) {
            Some(m) => *m,
            None => 0,
        };
        counts.insert(*code, seen + *n);
        proof {
            let wider = done.insert(*code);
            let earlier = merged_within(before, theirs, done);
            let later = merged_within(before, theirs, wider);
            assert forall|k: u16| counts_of(counts@).contains_key(k) == later.contains_key(k) by {
                assert(earlier.contains_key(k) == (before.contains_key(k) || (theirs.contains_key(k)
                    && done.contains(k))));
            }
            assert forall|k: u16| counts_of(counts@).contains_key(k) implies counts_of(counts@)[k]
                == later[k] by {
                assert(count_at(theirs.restrict(wider), k) == if k == *code {
                    *n as nat
                } else {
                    count_at(theirs.restrict(done), k)
                });
                if k != *code {
                    assert(earlier.contains_key(k));
                    assert(earlier[k] == count_at(before, k) + count_at(theirs.restrict(done), k));
                }
            }
            assert(counts_of(counts@) =~= later);
            done = wider;
        }
    }
    assert(counts_of(counts@) =~= merged(before, theirs));
}

} // verus!
