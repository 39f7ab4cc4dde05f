//! The domain set and the admission policy. The set is an immutable list
//! of hostnames, each with any leading `www.` stripped at load time; one
//! boolean flag (`restrict`) flips its meaning between a blocklist
//! (restrict: members are denied, everything else allowed) and an
//! allowlist (non-restrict: members are allowed, everything else denied).

use vstd::prelude::*;
use crate::normalize::strip_www;
use crate::normalize::strip_www_prefix;

verus! {

/// An immutable set of normalized hostnames, loaded once at startup and
/// read concurrently (without further synchronization) by every dispatch.
pub struct DomainSet {
    pub names: Vec<String>,
}

impl DomainSet {
    /// The hostnames held, as character sequences.
    pub open spec fn names_seq(&self) -> Seq<Seq<char>> {
        Seq::new(self.names@.len(), |i: int| self.names@[i]@)
    }

    /// Membership of a target in the set.
    pub open spec fn spec_contains(&self, t: Seq<char>) -> bool {
        exists|i: int| 0 <= i < self.names_seq().len() && self.names_seq()[i] == t
    }

    /// A set with no members: every target is absent.
    pub fn empty() -> (d: DomainSet)
        ensures
            d.names_seq() =~= Seq::<Seq<char>>::empty(),
            forall|t: Seq<char>| !d.spec_contains(t),
    {
        DomainSet { names: Vec::new() }
    }

    /// Builds the set from the lines of the domain list, one hostname per
    /// line, stripping a leading `www.` from each.
    pub fn load(lines: &Vec<String>) -> (d: DomainSet)
        ensures
            d.names_seq().len() == lines@.len(),
            forall|i: int|
                0 <= i < lines@.len() ==> d.names_seq()[i] == strip_www_prefix(lines@[i]@),
    {
        let mut names: Vec<String> = Vec::new();
        let mut k: usize = 0;
        while k < lines.len()
            invariant
                k <= lines@.len(),
                names@.len() == k,
                forall|i: int| 0 <= i < k ==> names@[i]@ == strip_www_prefix(lines@[i]@),
            decreases lines@.len() - k,
        {
            names.push(strip_www(lines[k].as_str()));
            k += 1;
        }
        let d = DomainSet { names };
        assert forall|i: int| 0 <= i < lines@.len() implies d.names_seq()[i] == strip_www_prefix(
            lines@[i]@,
        ) by {
            assert(d.names_seq()[i] == d.names@[i]@);
        }
        d
    }

    /// How many hostnames the set holds.
    pub fn len(&self) -> (n: usize)
        ensures
            n == self.names_seq().len(),
    {
        self.names.len()
    }
}

/// The admission policy on a normalized target: a member of the set is
/// denied when `restrict` is set (blocklist) and allowed when it is not
/// (allowlist); a non-member is allowed when `restrict` is set and denied
/// when it is not.
pub open spec fn allow_spec(d: &DomainSet, restrict: bool, t: Seq<char>) -> bool {
    restrict != d.spec_contains(t)
}

/// Decides whether a normalized target is admitted, per `allow_spec`.
pub fn check_allow(domains: &DomainSet, restrict: bool, target: &String) -> (r: bool)
    ensures
        r == allow_spec(domains, restrict, target@),
{
    let mut k: usize = 0;
    while k < domains.names.len()
        invariant
            k <= domains.names@.len(),
            forall|i: int| 0 <= i < k ==> domains.names_seq()[i] != target@,
        decreases domains.names@.len() - k,
    {
        if domains.names[k] == *target {
            assert(domains.spec_contains(target@)) by {
                assert(domains.names_seq()[k as int] == target@);
            }
            return !restrict;
        }
        assert(domains.names_seq()[k as int] != target@);
        k += 1;
    }
    restrict
}

/// The policy truth table: in restrict mode the set is a blocklist
/// (allowed exactly when the target is absent); otherwise it is an
/// allowlist (allowed exactly when the target is present).
pub proof fn lemma_allow_policy(d: &DomainSet, t: Seq<char>)
    ensures
        allow_spec(d, true, t) == !d.spec_contains(t),
        allow_spec(d, false, t) == d.spec_contains(t),
{
}

} // verus!
