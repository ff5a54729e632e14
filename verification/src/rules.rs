//! Rule evaluation: the four condition axes and first-match-wins.
use vstd::prelude::*;
use crate::config::{is_mute_rule_for, Action, Conditions, Config, Rule};
use crate::github::Notification;
use crate::text::{contains_seq, contains_text};

verus! {

/// The reason axis: one of the listed reasons (any-of).
pub open spec fn reason_matches(reasons: Option<Vec<String>>, n: Notification) -> bool {
    match reasons {
        Some(rs) => exists|i: int| 0 <= i < rs@.len() && #[trigger] rs@[i]@ == n.reason@,
        None => true,
    }
}

/// The repository axis: exactly this `owner/repo`.
pub open spec fn repository_matches(repo: Option<String>, n: Notification) -> bool {
    match repo {
        Some(r) => r@ == n.repository.full_name@,
        None => true,
    }
}

/// The subject-type axis: exactly this type.
pub open spec fn subject_type_matches(stype: Option<String>, n: Notification) -> bool {
    match stype {
        Some(t) => t@ == n.subject.subject_type@,
        None => true,
    }
}

/// The title axis: the title contains this text, case-sensitively.
pub open spec fn title_matches(pat: Option<String>, n: Notification) -> bool {
    match pat {
        Some(p) => contains_seq(n.subject.title@, p@),
        None => true,
    }
}

/// All present conditions hold of `n`.
pub open spec fn conditions_hold(c: Conditions, n: Notification) -> bool {
    &&& reason_matches(c.reason, n)
    &&& repository_matches(c.repository, n)
    &&& subject_type_matches(c.subject_type, n)
    &&& title_matches(c.title_contains, n)
}

/// A rule matches a notification when its conditions hold of it.
pub open spec fn rule_matches(r: Rule, n: Notification) -> bool {
    conditions_hold(r.conditions, n)
}

/// `i` is the first rule, in file order, that matches `n`.
pub open spec fn is_first_match(rules: Seq<Rule>, n: Notification, i: int) -> bool {
    &&& 0 <= i < rules.len()
    &&& rule_matches(rules[i], n)
    &&& forall|j: int| 0 <= j < i ==> !rule_matches(#[trigger] rules[j], n)
}

/// Some rule matches `n`.
pub open spec fn some_rule_matches(rules: Seq<Rule>, n: Notification) -> bool {
    exists|i: int| 0 <= i < rules.len() && rule_matches(#[trigger] rules[i], n)
}

/// The action decided for `n` by `rules` tried in order: that of the first
/// matching rule, or `default` when no rule matches.
pub open spec fn decide(rules: Seq<Rule>, default: Action, n: Notification) -> Action {
    if exists|i: int| is_first_match(rules, n, i) {
        rules[choose|i: int| is_first_match(rules, n, i)].action
    } else {
        default
    }
}

/// The action that the configuration decides for `n`.
pub open spec fn decided_action(config: Config, n: Notification) -> Action {
    decide(config.rules@, config.default, n)
}

/// Whether the conditions of a rule all hold of `notif`.
pub fn matches_conditions(cond: &Conditions, notif: &Notification) -> (res: bool)
    ensures
        res == conditions_hold(*cond, *notif),
{
    if let Some(reasons) = &cond.reason {
        let mut found = false;
        let mut i: usize = 0;
        while i < reasons.len()
            invariant
                i <= reasons@.len(),
                found == exists|k: int| 0 <= k < i && #[trigger] reasons@[k]@ == notif.reason@,
            decreases reasons.len() - i,
        {
            if reasons[i] == notif.reason {
                found = true;
            }
            i = i + 1;
        }
        if !found {
            return false;
        }
    }
    if let Some(repo) = &cond.repository {
        if !(*repo == notif.repository.full_name) {
            return false;
        }
    }
    if let Some(stype) = &cond.subject_type {
        if !(*stype == notif.subject.subject_type) {
            return false;
        }
    }
    if let Some(contains) = &cond.title_contains {
        if !contains_text(notif.subject.title.as_str(), contains.as_str()) {
            return false;
        }
    }
    true
}

/// The action for `notif`: the first rule, in file order, whose conditions
/// match decides; when none matches, the configured default applies.
pub fn apply(config: &Config, notif: &Notification) -> (res: Action)
    ensures
        res == decided_action(*config, *notif),
        forall|i: int| is_first_match(config.rules@, *notif, i) ==> res == config.rules@[i].action,
        !some_rule_matches(config.rules@, *notif) ==> res == config.default,
{
    let mut i: usize = 0;
    while i < config.rules.len()
        invariant
            i <= config.rules@.len(),
            forall|j: int| 0 <= j < i ==> !rule_matches(#[trigger] config.rules@[j], *notif),
        decreases config.rules.len() - i,
    {
        let rule = &config.rules[i];
        if matches_conditions(&rule.conditions, notif) {
            proof {
                assert(is_first_match(config.rules@, *notif, i as int));
                lemma_first_match_unique(config.rules@, *notif, i as int);
            }
            return rule.action;
        }
        i = i + 1;
    }
    proof {
        assert forall|k: int| !is_first_match(config.rules@, *notif, k) by {}
    }
    config.default
}

/// There is at most one first match.
pub proof fn lemma_first_match_unique(rules: Seq<Rule>, n: Notification, i: int)
    requires
        is_first_match(rules, n, i),
    ensures
        forall|k: int| is_first_match(rules, n, k) ==> k == i,
{
    assert forall|k: int| is_first_match(rules, n, k) implies k == i by {
        if k < i {
            assert(!rule_matches(rules[k], n));
        } else if k > i {
            assert(!rule_matches(rules[i], n));
        }
    }
}

/// A rule without conditions matches every notification (an empty `match`
/// is a catch-all).
pub proof fn law_empty_match_matches_all(c: Conditions, n: Notification)
    requires
        c.reason is None,
        c.repository is None,
        c.subject_type is None,
        c.title_contains is None,
    ensures
        conditions_hold(c, n),
{
}

/// The conditions of a rule hold of a notification exactly when each present
/// condition does: its reason is equal to one of the listed reasons (a reason
/// that merely contains a listed one does not count), its repository is the
/// named one, its subject type is the named one, and its title contains the
/// given text.
pub proof fn law_conditions_are_exact(c: Conditions, n: Notification)
    ensures
        conditions_hold(c, n) <==> {
            &&& (c.reason matches Some(rs) ==> exists|i: int|
                0 <= i < rs@.len() && #[trigger] rs@[i]@ == n.reason@)
            &&& (c.repository matches Some(r) ==> r@ == n.repository.full_name@)
            &&& (c.subject_type matches Some(t) ==> t@ == n.subject.subject_type@)
            &&& (c.title_contains matches Some(p) ==> exists|k: int|
                0 <= k && k + p@.len() <= n.subject.title@.len()
                    && #[trigger] n.subject.title@.subrange(k, k + p@.len()) == p@)
        },
{
    if let Some(p) = c.title_contains {
        let t = n.subject.title@;
        if contains_seq(t, p@) {
            let k = choose|k: int| crate::text::occurs_at(t, p@, k);
            assert(t.subrange(k, k + p@.len()) == p@);
        }
        if exists|k: int| 0 <= k && k + p@.len() <= t.len() && #[trigger] t.subrange(k, k + p@.len()) == p@ {
            let k = choose|k: int| 0 <= k && k + p@.len() <= t.len() && #[trigger] t.subrange(k, k + p@.len()) == p@;
            assert(crate::text::occurs_at(t, p@, k));
        }
    }
}

/// A notification whose reason is none of the listed reasons never meets
/// the conditions, even when its reason contains a listed one (as
/// `team_mention` contains `mention`).
pub proof fn law_reason_list_needs_equal_reason(c: Conditions, n: Notification)
    requires
        c.reason matches Some(rs) && forall|i: int|
            0 <= i < rs@.len() ==> !(#[trigger] rs@[i]@ == n.reason@),
    ensures
        !conditions_hold(c, n),
{
}

/// First match wins: when rule `i` matches and no earlier rule does, rule
/// `i` decides, whatever the rules after it say.
pub proof fn law_first_match_wins(rules: Seq<Rule>, default: Action, n: Notification, i: int)
    requires
        0 <= i < rules.len(),
        rule_matches(rules[i], n),
        forall|j: int| 0 <= j < i ==> !rule_matches(#[trigger] rules[j], n),
    ensures
        decide(rules, default, n) == rules[i].action,
{
    assert(is_first_match(rules, n, i));
    lemma_first_match_unique(rules, n, i);
}

/// When no rule matches, the default action applies.
pub proof fn law_no_match_gives_default(rules: Seq<Rule>, default: Action, n: Notification)
    requires
        !some_rule_matches(rules, n),
    ensures
        decide(rules, default, n) == default,
{
    assert forall|k: int| !is_first_match(rules, n, k) by {
        if is_first_match(rules, n, k) {
            assert(rule_matches(rules[k], n));
        }
    }
}

/// A rule appended at the end never changes the action for a notification
/// that one of the existing rules already matches.
pub proof fn law_appended_rule_keeps_matched(
    rules: Seq<Rule>,
    r: Rule,
    default: Action,
    n: Notification,
)
    requires
        some_rule_matches(rules, n),
    ensures
        decide(rules.push(r), default, n) == decide(rules, default, n),
{
    let w = choose|i: int| 0 <= i < rules.len() && rule_matches(#[trigger] rules[i], n);
    let f = first_matching_index(rules, n, w);
    assert(is_first_match(rules, n, f));
    lemma_first_match_unique(rules, n, f);
    let ext = rules.push(r);
    assert(is_first_match(ext, n, f)) by {
        assert forall|j: int| 0 <= j < f implies !rule_matches(#[trigger] ext[j], n) by {
            assert(ext[j] == rules[j]);
        }
    }
    lemma_first_match_unique(ext, n, f);
}

/// A rule appended at the end decides for a notification that no existing
/// rule matches, when the appended rule matches it.
pub proof fn law_appended_rule_catches_unmatched(
    rules: Seq<Rule>,
    r: Rule,
    default: Action,
    n: Notification,
)
    requires
        !some_rule_matches(rules, n),
        rule_matches(r, n),
    ensures
        decide(rules.push(r), default, n) == r.action,
{
    let ext = rules.push(r);
    assert forall|j: int| 0 <= j < rules.len() implies !rule_matches(#[trigger] ext[j], n) by {
        assert(ext[j] == rules[j]);
    }
    law_first_match_wins(ext, default, n, rules.len() as int);
}

/// After the mute rule for a repository is appended, a notification of that
/// repository that no earlier rule matched is ignored.
pub proof fn law_mute_silences_unmatched(rules: Seq<Rule>, r: Rule, default: Action, n: Notification)
    requires
        is_mute_rule_for(r, n.repository.full_name@),
        !some_rule_matches(rules, n),
    ensures
        decide(rules.push(r), default, n) == Action::Ignore,
{
    law_appended_rule_catches_unmatched(rules, r, default, n);
}

/// The smallest index at or below `w` whose rule matches `n`.
proof fn first_matching_index(rules: Seq<Rule>, n: Notification, w: int) -> (f: int)
    requires
        0 <= w < rules.len(),
        rule_matches(rules[w], n),
    ensures
        is_first_match(rules, n, f),
    decreases w,
{
    if exists|j: int| 0 <= j < w && rule_matches(#[trigger] rules[j], n) {
        let j = choose|j: int| 0 <= j < w && rule_matches(#[trigger] rules[j], n);
        first_matching_index(rules, n, j)
    } else {
        w
    }
}

} // verus!
