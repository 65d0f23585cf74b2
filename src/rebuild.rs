//! Rebuilder answers and the confirmation quorum.

use vstd::prelude::*;
use crate::text::{chars_of, same_chars};

verus! {

/// The status a rebuilder reports for one release.
#[derive(Debug, Clone, Copy, PartialEq, Eq, Structural)]
pub enum RebuildStatus {
    /// The rebuild reproduced the published package.
    Good,
    /// The rebuild differs from the published package.
    Bad,
    /// Not rebuilt yet, or the result is unknown.
    Unknown,
}

/// One record of a rebuilder's package list.
#[derive(Debug, Clone)]
pub struct Release {
    pub name: String,
    pub version: String,
    pub status: RebuildStatus,
}

/// Whether some record confirms a good rebuild of exactly `name` at `version`.
pub open spec fn confirms_release(rs: Seq<Release>, name: Seq<char>, version: Seq<char>) -> bool {
    exists|i: int|
        0 <= i < rs.len() && #[trigger] rs[i].name@ == name && rs[i].version@ == version
            && rs[i].status == RebuildStatus::Good
}

/// Whether a rebuilder's answer confirms `name` at `version`; records of
/// other packages, versions or statuses are ignored.
pub fn release_confirmed(releases: &Vec<Release>, name: &str, version: &str) -> (r: bool)
    ensures
        r == confirms_release(releases@, name@, version@),
{
    let n = chars_of(name);
    let v = chars_of(version);
    let mut i: usize = 0;
    while i < releases.len()
        invariant
            0 <= i <= releases@.len(),
            n@ == name@,
            v@ == version@,
            forall|j: int|
                0 <= j < i ==> !(#[trigger] releases@[j].name@ == name@ && releases@[j].version@
                    == version@ && releases@[j].status == RebuildStatus::Good),
        decreases releases.len() - i,
    {
        let rel = &releases[i];
        if rel.status == RebuildStatus::Good && same_chars(&chars_of(rel.name.as_str()), &n)
            && same_chars(&chars_of(rel.version.as_str()), &v) {
            assert(releases@[i as int].name@ == name@);
            return true;
        }
        i += 1;
    }
    false
}

/// The number of rebuilders that confirmed, given each one's outcome.
pub open spec fn count_confirms(outcomes: Seq<bool>) -> nat
    decreases outcomes.len(),
{
    if outcomes.len() == 0 {
        0
    } else {
        count_confirms(outcomes.drop_last()) + if outcomes.last() { 1nat } else { 0nat }
    }
}

pub proof fn lemma_count_confirms_concat(a: Seq<bool>, b: Seq<bool>)
    ensures
        count_confirms(a + b) == count_confirms(a) + count_confirms(b),
    decreases b.len(),
{
    if b.len() == 0 {
        assert(a + b =~= a);
    } else {
        assert((a + b).drop_last() =~= a + b.drop_last());
        lemma_count_confirms_concat(a, b.drop_last());
    }
}

pub proof fn lemma_count_confirms_bound(a: Seq<bool>)
    ensures
        count_confirms(a) <= a.len(),
    decreases a.len(),
{
    if a.len() > 0 {
        lemma_count_confirms_bound(a.drop_last());
    }
}

/// The number of confirmations is the number of `true` outcomes, counted
/// with multiplicity.
pub proof fn lemma_count_confirms_multiset(a: Seq<bool>)
    ensures
        count_confirms(a) == a.to_multiset().count(true),
    decreases a.len(),
{
    if a.len() == 0 {
        a.to_multiset_ensures();
        assert(!a.contains(true));
    } else {
        lemma_count_confirms_multiset(a.drop_last());
        a.drop_last().to_multiset_ensures();
        assert(a.drop_last().push(a.last()) =~= a);
    }
}

/// The quorum decision does not depend on the order in which rebuilders are
/// asked: outcomes that are a permutation of each other give the same count,
/// hence the same decision.
pub proof fn lemma_quorum_permutation(a: Seq<bool>, b: Seq<bool>, required: nat)
    requires
        a.to_multiset() == b.to_multiset(),
    ensures
        count_confirms(a) == count_confirms(b),
        (count_confirms(a) >= required) == (count_confirms(b) >= required),
{
    lemma_count_confirms_multiset(a);
    lemma_count_confirms_multiset(b);
}

/// The quorum decision does not depend on the order in which rebuilders are
/// asked: swapping two groups of outcomes leaves the count unchanged.
pub proof fn lemma_quorum_order_free(a: Seq<bool>, b: Seq<bool>, required: nat)
    ensures
        count_confirms(a + b) == count_confirms(b + a),
        (count_confirms(a + b) >= required) == (count_confirms(b + a) >= required),
{
    lemma_count_confirms_concat(a, b);
    lemma_count_confirms_concat(b, a);
}

} // verus!
