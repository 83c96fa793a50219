//! The allowlist matcher: a pure predicate deciding whether a hostname may
//! be routed, given the configured set of allowed root domains.
//!
//! Hostnames and rules are kept as raw bytes and compared byte-exactly (no
//! case folding) by design.  An empty rule set means "allow all".

use vstd::prelude::*;

verus! {

/// The byte `'.'`, which separates a subdomain from an allowed root domain.
pub const DOT: u8 = 46;

/// A hostname matches one rule when it equals the rule exactly, or when it
/// is a strict subdomain of it: it ends with `"."` followed by the rule.
pub open spec fn rule_matches(host: Seq<u8>, rule: Seq<u8>) -> bool {
    ||| host == rule
    ||| (host.len() > rule.len() && host.subrange(
        host.len() - rule.len() - 1,
        host.len() as int,
    ) == seq![DOT].add(rule))
}

/// A hostname is allowed when the rule set is empty, or when some rule
/// matches it.
pub open spec fn spec_is_allowed(host: Seq<u8>, rules: Seq<Seq<u8>>) -> bool {
    ||| rules.len() == 0
    ||| exists|i: int| 0 <= i < rules.len() && rule_matches(host, rules[i])
}

/// Law: an empty rule set allows every hostname.
pub proof fn lemma_empty_rules_allow_all(host: Seq<u8>)
    ensures
        spec_is_allowed(host, Seq::<Seq<u8>>::empty()),
{
}

/// Byte-exact equality of two byte slices.
fn bytes_eq(a: &[u8], b: &[u8]) -> (r: bool)
    ensures
        r == (a@ == b@),
{
    if a.len() != b.len() {
        return false;
    }
    let mut i: usize = 0;
    while i < a.len()
        invariant
            i <= a@.len(),
            a@.len() == b@.len(),
            forall|j: int| 0 <= j < i ==> a@[j] == b@[j],
        decreases a@.len() - i,
    {
        if a[i] != b[i] {
            return false;
        }
        i += 1;
    }
    proof {
        assert(a@ =~= b@);
    }
    true
}

/// Whether `host` matches the single rule `rule`: equal, or a strict
/// subdomain of it.
fn host_matches_rule(host: &[u8], rule: &[u8]) -> (r: bool)
    ensures
        r == rule_matches(host@, rule@),
{
    if host.len() == rule.len() {
        bytes_eq(host, rule)
    } else if host.len() > rule.len() {
        let start: usize = host.len() - rule.len() - 1;
        if host[start] != DOT {
            proof {
                assert(host@.subrange(start as int, host@.len() as int)[0] == host@[start as int]);
                assert(seq![DOT].add(rule@)[0] == DOT);
            }
            return false;
        }
        let mut i: usize = 0;
        while i < rule.len()
            invariant
                i <= rule@.len(),
                host@.len() > rule@.len(),
                host@.len() <= usize::MAX,
                start == host@.len() - rule@.len() - 1,
                host@[start as int] == DOT,
                forall|j: int| 0 <= j < i ==> host@[start + 1 + j] == rule@[j],
            decreases rule@.len() - i,
        {
            if host[start + 1 + i] != rule[i] {
                proof {
                    assert(host@.subrange(start as int, host@.len() as int)[1 + i] == host@[start
                        + 1 + i]);
                    assert(seq![DOT].add(rule@)[1 + i] == rule@[i as int]);
                }
                return false;
            }
            i += 1;
        }
        proof {
            assert(host@.subrange(start as int, host@.len() as int) =~= seq![DOT].add(rule@));
        }
        true
    } else {
        false
    }
}

/// Decides whether `host` may be routed under the configured `rules`.
///
/// Returns true when `rules` is empty, and otherwise exactly when some rule
/// equals `host` or `host` is a strict subdomain of that rule.  Pure; its
/// only failure mode is returning false.
pub fn is_allowed(host: &Vec<u8>, rules: &Vec<Vec<u8>>) -> (r: bool)
    ensures
        r == spec_is_allowed(host@, rules.deep_view()),
{
    if rules.len() == 0 {
        return true;
    }
    let mut i: usize = 0;
    while i < rules.len()
        invariant
            i <= rules@.len(),
            rules.deep_view().len() == rules@.len(),
            forall|j: int| 0 <= j < i ==> !rule_matches(host@, rules.deep_view()[j]),
        decreases rules@.len() - i,
    {
        proof {
            assert(rules.deep_view()[i as int] =~= rules@[i as int]@);
        }
        let hit = host_matches_rule(host.as_slice(), rules[i].as_slice());
        if hit {
            proof {
                assert(rule_matches(host@, rules.deep_view()[i as int]));
            }
            return true;
        }
        i += 1;
    }
    false
}

} // verus!
