//! Platforms and the conditional-inclusion rules of library entries.
//!
//! A library entry carries an ordered list of rules. Folding the rules in
//! document order decides whether the entry's generic artifact is included on
//! a given platform: an `Allow` rule that applies turns inclusion on, a
//! `Disallow` rule that applies turns it off, and a rule naming another
//! platform leaves the prior state untouched. An entry with no rules at all
//! is included everywhere.

use vstd::prelude::*;

verus! {

/// An operating system a rule or a native classifier can name.
#[derive(Clone, Copy, PartialEq, Eq, Structural, Debug)]
pub enum Platform {
    Windows,
    Linux,
    Mac,
}

/// What a rule does when it applies.
#[derive(Clone, Copy, PartialEq, Eq, Structural, Debug)]
pub enum RuleAction {
    Allow,
    Disallow,
}

/// One conditional-inclusion rule. A rule with no platform applies on every
/// platform.
#[derive(Clone, Copy, Debug)]
pub struct PlatformRule {
    pub action: RuleAction,
    pub platform: Option<Platform>,
}

/// Whether `rule` applies on platform `p`.
pub open spec fn rule_applies(rule: PlatformRule, p: Platform) -> bool {
    match rule.platform {
        Option::None => true,
        Option::Some(q) => q == p,
    }
}

/// One fold step: the inclusion state after seeing `rule` with prior state
/// `allowed`.
pub open spec fn rule_step(allowed: bool, rule: PlatformRule, p: Platform) -> bool {
    match rule.action {
        RuleAction::Allow => if rule_applies(rule, p) { true } else { allowed },
        RuleAction::Disallow => if rule_applies(rule, p) { false } else { allowed },
    }
}

/// Folds `rules` in order starting from state `allowed`.
pub open spec fn rules_fold(rules: Seq<PlatformRule>, p: Platform, allowed: bool) -> bool
    decreases rules.len(),
{
    if rules.len() == 0 {
        allowed
    } else {
        rules_fold(rules.drop_first(), p, rule_step(allowed, rules.first(), p))
    }
}

/// The inclusion decision for a whole rule list: start from `true` exactly
/// when the list is empty, then fold the rules in document order.
pub open spec fn rules_allow(rules: Seq<PlatformRule>, p: Platform) -> bool {
    rules_fold(rules, p, rules.len() == 0)
}

/// Decides whether a library entry with rule list `rules` is included on
/// `current`, by folding the rules in document order.
pub fn is_library_applicable(rules: &Vec<PlatformRule>, current: Platform) -> (allowed: bool)
    ensures
        allowed == rules_allow(rules@, current),
{
    let mut allowed = rules.len() == 0;
    let mut i: usize = 0;
    proof {
        assert(rules@.skip(0) =~= rules@);
    }
    while i < rules.len()
        invariant
            i <= rules@.len(),
            rules_allow(rules@, current) == rules_fold(rules@.skip(i as int), current, allowed),
        decreases rules@.len() - i,
    {
        let rule = rules[i];
        let applies = match rule.platform {
            Option::None => true,
            Option::Some(q) => platform_eq(q, current),
        };
        match rule.action {
            RuleAction::Allow => {
                if applies {
                    allowed = true;
                }
            },
            RuleAction::Disallow => {
                if applies {
                    allowed = false;
                }
            },
        }
        proof {
            assert(rules@.skip(i as int).drop_first() =~= rules@.skip(i + 1));
        }
        i = i + 1;
    }
    allowed
}

/// Platform equality, written out so that verified code never leans on a
/// derived `PartialEq`.
pub fn platform_eq(a: Platform, b: Platform) -> (r: bool)
    ensures
        r == (a == b),
{
    match (a, b) {
        (Platform::Windows, Platform::Windows) => true,
        (Platform::Linux, Platform::Linux) => true,
        (Platform::Mac, Platform::Mac) => true,
        _ => false,
    }
}

/// A library entry with an empty rule list is included on every platform.
pub proof fn lemma_empty_rules_always_allow(p: Platform)
    ensures
        rules_allow(Seq::<PlatformRule>::empty(), p),
{
}

} // verus!
