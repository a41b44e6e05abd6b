//! The observation-account resolver. A protocol instruction must carry the
//! read-only accounts the on-chain program needs to witness solvency: the
//! position's bank exposures, in first-exposure order, with no repeats, and
//! minus any bank being fully exited. The on-chain program indexes these
//! accounts positionally, so the resolution is a pure function of its inputs
//! and is proved to keep the exposure order.

use vstd::prelude::*;

use crate::types::{AccountReference, Address};

verus! {

/// The resolved observation set: the first occurrence of every exposure not
/// excluded, in exposure order.
pub open spec fn observation_set_spec(exposures: Seq<Address>, exclusions: Seq<Address>) -> Seq<
    Address,
>
    decreases exposures.len(),
{
    if exposures.len() == 0 {
        Seq::empty()
    } else {
        let prefix = exposures.drop_last();
        let last = exposures.last();
        let rest = observation_set_spec(prefix, exclusions);
        if exclusions.contains(last) || prefix.contains(last) {
            rest
        } else {
            rest.push(last)
        }
    }
}

/// `a` and `b` both occur in `e`, and `a`'s first occurrence comes first.
pub open spec fn observed_before(e: Seq<Address>, a: Address, b: Address) -> bool {
    e.index_of_first(a) matches Some(ia) && e.index_of_first(b) matches Some(ib) && ia < ib
}

proof fn lemma_contains_push(s: Seq<Address>, w: Address, a: Address)
    ensures
        s.push(w).contains(a) <==> (s.contains(a) || a == w),
{
    if s.contains(a) {
        let k = choose|k: int| 0 <= k < s.len() && s[k] == a;
        assert(s.push(w)[k] == a);
    }
    assert(s.push(w)[s.len() as int] == w);
    if s.push(w).contains(a) {
        let k = choose|k: int| 0 <= k < s.push(w).len() && s.push(w)[k] == a;
        if k < s.len() {
            assert(s[k] == a);
        }
    }
}

proof fn lemma_index_of_first_push_present(s: Seq<Address>, w: Address, v: Address)
    requires
        s.contains(v),
    ensures
        s.push(w).index_of_first(v) == s.index_of_first(v),
{
    s.index_of_first_ensures(v);
    s.push(w).index_of_first_ensures(v);
    lemma_contains_push(s, w, v);
    match (s.index_of_first(v), s.push(w).index_of_first(v)) {
        (Some(fi), Some(pi)) => {
            assert(s.push(w)[fi] == v);
            if pi < fi {
                assert(s[pi] == v);
            }
        },
        _ => {},
    }
}

proof fn lemma_index_of_first_push_new(s: Seq<Address>, w: Address)
    requires
        !s.contains(w),
    ensures
        s.push(w).index_of_first(w) == Some(s.len() as int),
{
    s.push(w).index_of_first_ensures(w);
    lemma_contains_push(s, w, w);
    match s.push(w).index_of_first(w) {
        Some(pi) => {
            if pi < s.len() {
                assert(s[pi] == w);
            }
        },
        None => {},
    }
}

/// An address is observed exactly when it is an exposure and not excluded.
pub proof fn lemma_observation_membership(exposures: Seq<Address>, exclusions: Seq<Address>)
    ensures
        forall|a: Address|
            #[trigger] observation_set_spec(exposures, exclusions).contains(a) <==> (
            exposures.contains(a) && !exclusions.contains(a)),
    decreases exposures.len(),
{
    if exposures.len() == 0 {
    } else {
        let prefix = exposures.drop_last();
        let last = exposures.last();
        let rest = observation_set_spec(prefix, exclusions);
        lemma_observation_membership(prefix, exclusions);
        assert(exposures =~= prefix.push(last));
        assert forall|a: Address|
            #[trigger] observation_set_spec(exposures, exclusions).contains(a) <==> (
            exposures.contains(a) && !exclusions.contains(a)) by {
            lemma_contains_push(prefix, last, a);
            if !(exclusions.contains(last) || prefix.contains(last)) {
                lemma_contains_push(rest, last, a);
            }
        }
    }
}

/// The observation set never repeats an address.
pub proof fn lemma_observation_no_duplicates(exposures: Seq<Address>, exclusions: Seq<Address>)
    ensures
        observation_set_spec(exposures, exclusions).no_duplicates(),
    decreases exposures.len(),
{
    if exposures.len() == 0 {
    } else {
        let prefix = exposures.drop_last();
        let last = exposures.last();
        let rest = observation_set_spec(prefix, exclusions);
        lemma_observation_no_duplicates(prefix, exclusions);
        if !(exclusions.contains(last) || prefix.contains(last)) {
            lemma_observation_membership(prefix, exclusions);
            assert(!rest.contains(last));
            assert forall|i: int, j: int|
                0 <= i < j < rest.push(last).len() implies rest.push(last)[i] != rest.push(
                last,
            )[j] by {
                if j == rest.len() {
                    if rest[i] == last {
                        assert(rest.contains(last));
                    }
                }
            }
        }
    }
}

/// The observation set preserves the relative order of first exposures.
pub proof fn lemma_observation_order(exposures: Seq<Address>, exclusions: Seq<Address>)
    ensures
        forall|i: int, j: int|
            0 <= i < j < observation_set_spec(exposures, exclusions).len()
                ==> #[trigger] observed_before(
                exposures,
                observation_set_spec(exposures, exclusions)[i],
                observation_set_spec(exposures, exclusions)[j],
            ),
    decreases exposures.len(),
{
    let r = observation_set_spec(exposures, exclusions);
    if exposures.len() == 0 {
    } else {
        let prefix = exposures.drop_last();
        let last = exposures.last();
        let rest = observation_set_spec(prefix, exclusions);
        lemma_observation_order(prefix, exclusions);
        lemma_observation_membership(prefix, exclusions);
        assert(exposures =~= prefix.push(last));
        assert forall|i: int, j: int|
            0 <= i < j < r.len() implies #[trigger] observed_before(exposures, r[i], r[j]) by {
            let pushed = !(exclusions.contains(last) || prefix.contains(last));
            if pushed && j == rest.len() {
                // `r[j]` is the newly appended address; everything before it
                // was first exposed strictly earlier.
                assert(r[i] == rest[i]);
                assert(rest.contains(r[i]));
                assert(prefix.contains(r[i]));
                prefix.index_of_first_ensures(r[i]);
                lemma_index_of_first_push_present(prefix, last, r[i]);
                lemma_index_of_first_push_new(prefix, last);
            } else {
                // Both addresses already stood in the prior observation set.
                assert(r[i] == rest[i]);
                assert(r[j] == rest[j]);
                assert(observed_before(prefix, rest[i], rest[j]));
                assert(rest.contains(r[i]));
                assert(rest.contains(r[j]));
                assert(prefix.contains(r[i]));
                assert(prefix.contains(r[j]));
                lemma_index_of_first_push_present(prefix, last, r[i]);
                lemma_index_of_first_push_present(prefix, last, r[j]);
            }
        }
    }
}

/// An excluded bank never appears in the resolved observation set; in
/// particular a bank being fully withdrawn from never witnesses itself.
pub proof fn lemma_excluded_bank_never_observed(
    exposures: Seq<Address>,
    exclusions: Seq<Address>,
    bank: Address,
)
    requires
        exclusions.contains(bank),
    ensures
        !observation_set_spec(exposures, exclusions).contains(bank),
{
    lemma_observation_membership(exposures, exclusions);
}

/// Linear scan for an address.
pub fn contains_address(haystack: &Vec<Address>, needle: Address) -> (r: bool)
    ensures
        r == haystack@.contains(needle),
{
    let n = haystack.len();
    let mut i: usize = 0;
    while i < n
        invariant
            i <= n,
            n == haystack@.len(),
            forall|k: int| 0 <= k < i ==> haystack@[k] != needle,
        decreases n - i,
    {
        if haystack[i] == needle {
            return true;
        }
        i = i + 1;
    }
    false
}

/// Resolves the observation set for the given exposures and exclusions.
pub fn resolve_observation_set(exposures: &Vec<Address>, exclusions: &Vec<Address>) -> (r: Vec<
    Address,
>)
    ensures
        r@ == observation_set_spec(exposures@, exclusions@),
{
    let n = exposures.len();
    let mut r: Vec<Address> = Vec::new();
    let mut i: usize = 0;
    while i < n
        invariant
            i <= n,
            n == exposures@.len(),
            r@ == observation_set_spec(exposures@.take(i as int), exclusions@),
        decreases n - i,
    {
        let a = exposures[i];
        let excluded = contains_address(exclusions, a);
        let seen = contains_address(&r, a);
        proof {
            lemma_observation_membership(exposures@.take(i as int), exclusions@);
            assert(exposures@.take(i as int + 1).drop_last() =~= exposures@.take(i as int));
            assert(exposures@.take(i as int + 1).last() == exposures@[i as int]);
        }
        if !excluded && !seen {
            r.push(a);
        }
        i = i + 1;
    }
    proof {
        assert(exposures@.take(n as int) =~= exposures@);
    }
    r
}

impl AccountReference {
    /// The observation block this account must witness for one instruction:
    /// current exposures first, then the prospective banks in `prospective`,
    /// first occurrences only, minus `exclude`.
    pub fn observation_addresses(&self, prospective: &Vec<Address>, exclude: &Vec<Address>) -> (r: Vec<
        Address,
    >)
        ensures
            r@ == observation_set_spec(self.exposures@ + prospective@, exclude@),
    {
        let mut all: Vec<Address> = Vec::new();
        let n = self.exposures.len();
        let mut i: usize = 0;
        while i < n
            invariant
                i <= n,
                n == self.exposures@.len(),
                all@ == self.exposures@.take(i as int),
            decreases n - i,
        {
            all.push(self.exposures[i]);
            proof {
                assert(all@ =~= self.exposures@.take(i as int + 1));
            }
            i = i + 1;
        }
        proof {
            assert(self.exposures@.take(n as int) =~= self.exposures@);
        }
        let m = prospective.len();
        let mut j: usize = 0;
        while j < m
            invariant
                j <= m,
                m == prospective@.len(),
                all@ == self.exposures@ + prospective@.take(j as int),
            decreases m - j,
        {
            all.push(prospective[j]);
            proof {
                assert(all@ =~= self.exposures@ + prospective@.take(j as int + 1));
            }
            j = j + 1;
        }
        proof {
            assert(self.exposures@ + prospective@.take(m as int) =~= self.exposures@ + prospective@);
        }
        resolve_observation_set(&all, exclude)
    }
}

} // verus!
