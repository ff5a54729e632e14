//! The configuration schema (rules, actions, defaults), the mute rule that a
//! toast appends, and how a reloaded configuration replaces the running one.
use vstd::prelude::*;
use crate::text::{push_text, text_eq};

verus! {

/// What to do with a notification.
#[derive(Clone, Copy, Debug, PartialEq, Eq, Structural)]
pub enum Action {
    /// Show a toast.
    Notify,
    /// Do nothing; the notification stays unread on GitHub.
    Ignore,
    /// Mark the thread read on GitHub (only when destructive actions are allowed).
    MarkRead,
    /// Mark the thread read and unsubscribe (only when destructive actions are allowed).
    MarkDone,
}

/// The conditions of one rule. An absent condition does not constrain;
/// a rule with no condition at all matches every notification.
#[derive(Debug)]
pub struct Conditions {
    /// Any of these reasons.
    pub reason: Option<Vec<String>>,
    /// Exactly this `owner/repo`.
    pub repository: Option<String>,
    /// Exactly this subject type (`Issue`, `PullRequest`, ...).
    pub subject_type: Option<String>,
    /// The title contains this text (case-sensitive).
    pub title_contains: Option<String>,
}

/// A named rule: when its conditions match, its action applies.
#[derive(Debug)]
pub struct Rule {
    pub name: String,
    pub conditions: Conditions,
    pub action: Action,
}

/// The whole configuration file.
#[derive(Debug)]
pub struct Config {
    /// Lower bound of the polling interval, in seconds.
    pub poll_interval: u64,
    /// From this many toasts on in one poll, they are bundled into one.
    pub bundle_threshold: usize,
    /// Whether `mark_read` / `mark_done` really act on GitHub.
    pub allow_destructive: bool,
    /// The action for a notification that no rule matches.
    pub default: Action,
    /// The rules, tried from first to last.
    pub rules: Vec<Rule>,
}

impl Default for Action {
    /// Ignoring is the default action.
    fn default() -> (a: Action)
        ensures
            a == Action::Ignore,
    {
        Action::Ignore
    }
}

impl Default for Conditions {
    /// No condition at all: matches every notification.
    fn default() -> (c: Conditions)
        ensures
            c.reason is None,
            c.repository is None,
            c.subject_type is None,
            c.title_contains is None,
    {
        Conditions { reason: None, repository: None, subject_type: None, title_contains: None }
    }
}

/// The configuration used when there is no usable file.
pub open spec fn default_config(c: Config) -> bool {
    &&& c.poll_interval == 60
    &&& c.bundle_threshold == 3
    &&& !c.allow_destructive
    &&& c.default == Action::Ignore
    &&& c.rules@.len() == 0
}

impl Default for Config {
    fn default() -> (c: Config)
        ensures
            default_config(c),
    {
        Config {
            poll_interval: 60,
            bundle_threshold: 3,
            allow_destructive: false,
            default: Action::Ignore,
            rules: Vec::new(),
        }
    }
}

/// The configuration to run with, given the outcome of loading the file:
/// the loaded one, or the defaults when it could not be loaded.
pub fn load_or_default(loaded: Option<Config>) -> (c: Config)
    ensures
        loaded matches Some(l) ==> c == l,
        loaded is None ==> default_config(c),
{
    match loaded {
        Some(c) => c,
        None => Config::default(),
    }
}

/// `r` is the mute rule for `repo`: it ignores notifications of exactly that
/// repository and has no other condition.
pub open spec fn is_mute_rule_for(r: Rule, repo: Seq<char>) -> bool {
    &&& r.action == Action::Ignore
    &&& r.conditions.repository matches Some(x) && x@ == repo
    &&& r.conditions.reason is None
    &&& r.conditions.subject_type is None
    &&& r.conditions.title_contains is None
}

/// Some rule of `rules` is the mute rule for `repo`.
pub open spec fn has_mute_rule(rules: Seq<Rule>, repo: Seq<char>) -> bool {
    exists|i: int| 0 <= i < rules.len() && is_mute_rule_for(#[trigger] rules[i], repo)
}

/// The name given to the mute rule for `repo`.
pub open spec fn mute_rule_name(repo: Seq<char>) -> Seq<char> {
    "mute "@ + repo
}

/// Everything but the rules is the same in `a` and `b`.
pub open spec fn same_settings(a: Config, b: Config) -> bool {
    &&& a.poll_interval == b.poll_interval
    &&& a.bundle_threshold == b.bundle_threshold
    &&& a.allow_destructive == b.allow_destructive
    &&& a.default == b.default
}

fn is_mute_rule(r: &Rule, repo: &str) -> (res: bool)
    ensures
        res == is_mute_rule_for(*r, repo@),
{
    if r.action != Action::Ignore {
        return false;
    }
    if r.conditions.reason.is_some() || r.conditions.subject_type.is_some()
        || r.conditions.title_contains.is_some() {
        return false;
    }
    match &r.conditions.repository {
        Some(x) => text_eq(x.as_str(), repo),
        None => false,
    }
}

/// Appends to `config` the rule that ignores every notification of `repo`,
/// unless that very rule is already there. Returns whether it was appended.
pub fn add_ignore_rule(config: &mut Config, repo: &str) -> (added: bool)
    ensures
        added == !has_mute_rule(old(config).rules@, repo@),
        !added ==> *final(config) == *old(config),
        added ==> {
            &&& same_settings(*final(config), *old(config))
            &&& final(config).rules@.len() == old(config).rules@.len() + 1
            &&& final(config).rules@.drop_last() == old(config).rules@
            &&& is_mute_rule_for(final(config).rules@.last(), repo@)
            &&& final(config).rules@.last().name@ == mute_rule_name(repo@)
        },
{
    let mut i: usize = 0;
    while i < config.rules.len()
        invariant
            i <= config.rules@.len(),
            forall|j: int| 0 <= j < i ==> !is_mute_rule_for(#[trigger] config.rules@[j], repo@),
        decreases config.rules.len() - i,
    {
        if is_mute_rule(&config.rules[i], repo) {
            return false;
        }
        i = i + 1;
    }
    let mut name = String::from_str("mute ");
    push_text(&mut name, repo);
    let rule = Rule {
        name,
        conditions: Conditions { repository: Some(String::from_str(repo)), ..Conditions::default() },
        action: Action::Ignore,
    };
    config.rules.push(rule);
    assert(config.rules@.drop_last() =~= old(config).rules@);
    true
}

/// What muting a repository does to the configuration file.
#[derive(Debug)]
pub enum MuteDecision {
    /// Write this configuration: the loaded one with the mute rule appended.
    Write { config: Config },
    /// The file already holds the mute rule: leave it as it is.
    Unchanged,
    /// The file could not be loaded: leave it as it is and report why,
    /// rather than replace the user's file.
    Refuse { message: String },
}

/// `added` is `before` with the mute rule for `repo` appended.
pub open spec fn is_muted_version(added: Config, before: Config, repo: Seq<char>) -> bool {
    &&& same_settings(added, before)
    &&& added.rules@.len() == before.rules@.len() + 1
    &&& added.rules@.drop_last() == before.rules@
    &&& is_mute_rule_for(added.rules@.last(), repo)
    &&& added.rules@.last().name@ == mute_rule_name(repo)
}

/// Decides what muting `repo` does, given the outcome of loading the
/// configuration file.
pub fn mute_repository(loaded: Result<Config, String>, repo: &str) -> (d: MuteDecision)
    ensures
        loaded matches Err(m) ==> d == (MuteDecision::Refuse { message: m }),
        loaded matches Ok(c) ==> (if has_mute_rule(c.rules@, repo@) {
            d is Unchanged
        } else {
            d matches MuteDecision::Write { config } && is_muted_version(config, c, repo@)
        }),
{
    match loaded {
        Err(message) => MuteDecision::Refuse { message },
        Ok(c) => {
            let mut config = c;
            if add_ignore_rule(&mut config, repo) {
                MuteDecision::Write { config }
            } else {
                MuteDecision::Unchanged
            }
        },
    }
}

/// Adding the mute rule for `repo` to rules that now hold it adds nothing:
/// muting a repository twice leaves the configuration as muting it once.
pub proof fn law_mute_is_idempotent(rules: Seq<Rule>, r: Rule, repo: Seq<char>)
    requires
        is_mute_rule_for(r, repo),
    ensures
        has_mute_rule(rules.push(r), repo),
{
    assert(is_mute_rule_for(rules.push(r)[rules.len() as int], repo));
}

/// The text written to the configuration file: a comment line, then the
/// serialized configuration.
pub fn config_file_text(yaml: &str) -> (text: String)
    ensures
        text@ == "# github-notifier-ws config\n"@ + yaml@,
{
    let mut text = String::from_str("# github-notifier-ws config\n");
    push_text(&mut text, yaml);
    text
}

/// What a (re)load of the configuration file led to.
pub enum ReloadOutcome {
    /// The new configuration is in force; it has this many rules.
    Reloaded { rule_count: usize },
    /// The file was rejected; the previous configuration stays in force.
    Rejected { message: String },
}

/// Takes a freshly loaded configuration into use, or keeps the running one
/// when loading failed (last-good fallback).
pub fn apply_reload(current: &mut Config, loaded: Result<Config, String>) -> (outcome: ReloadOutcome)
    ensures
        loaded matches Ok(c) ==> *final(current) == c && outcome == (ReloadOutcome::Reloaded {
            rule_count: c.rules@.len() as usize,
        }),
        loaded matches Err(m) ==> *final(current) == *old(current) && outcome == (
        ReloadOutcome::Rejected { message: m }),
{
    match loaded {
        Ok(c) => {
            let rule_count = c.rules.len();
            *current = c;
            ReloadOutcome::Reloaded { rule_count }
        },
        Err(message) => ReloadOutcome::Rejected { message },
    }
}

} // verus!
