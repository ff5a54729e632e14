use github_notifier_ws::config::{
    add_ignore_rule, apply_reload, config_file_text, load_or_default, mute_repository, Action,
    Conditions, Config, MuteDecision, ReloadOutcome, Rule,
};
use github_notifier_ws::github::{Notification, Repository, Subject};
use github_notifier_ws::rules::{apply, matches_conditions};

fn notif(reason: &str, repo: &str, stype: &str, title: &str) -> Notification {
    Notification {
        id: "1".to_string(),
        reason: reason.to_string(),
        unread: true,
        url: "https://api.github.com/notifications/threads/1".to_string(),
        repository: Repository { full_name: repo.to_string() },
        subject: Subject {
            title: title.to_string(),
            subject_type: stype.to_string(),
            url: "https://api.github.com/repos/o/r/issues/1".to_string(),
        },
    }
}

fn no_conditions() -> Conditions {
    Conditions { reason: None, repository: None, subject_type: None, title_contains: None }
}

fn rule(name: &str, conditions: Conditions, action: Action) -> Rule {
    Rule { name: name.to_string(), conditions, action }
}

/// The example configuration of the README.
fn readme_config() -> Config {
    let mut c = Config::default();
    c.rules.push(rule(
        "direct",
        Conditions {
            reason: Some(vec![
                "mention".to_string(),
                "review_requested".to_string(),
                "assign".to_string(),
            ]),
            ..no_conditions()
        },
        Action::Notify,
    ));
    c.rules.push(rule(
        "active-repo PRs",
        Conditions {
            repository: Some("octocat/api-server".to_string()),
            subject_type: Some("PullRequest".to_string()),
            ..no_conditions()
        },
        Action::Notify,
    ));
    c.rules.push(rule(
        "ci-noise",
        Conditions { reason: Some(vec!["ci_activity".to_string()]), ..no_conditions() },
        Action::MarkRead,
    ));
    c.rules.push(rule(
        "urgent-by-title",
        Conditions {
            subject_type: Some("Issue".to_string()),
            title_contains: Some("[urgent]".to_string()),
            ..no_conditions()
        },
        Action::Notify,
    ));
    c
}

#[test]
fn default_config_values() {
    let c = Config::default();
    assert_eq!(c.poll_interval, 60);
    assert_eq!(c.bundle_threshold, 3);
    assert!(!c.allow_destructive);
    assert_eq!(c.default, Action::Ignore);
    assert!(c.rules.is_empty());
}

#[test]
fn load_or_default_keeps_loaded_config() {
    let mut loaded = Config::default();
    loaded.poll_interval = 120;
    loaded.default = Action::Notify;
    let c = load_or_default(Some(loaded));
    assert_eq!(c.poll_interval, 120);
    assert_eq!(c.default, Action::Notify);
}

#[test]
fn load_or_default_falls_back_to_defaults() {
    let c = load_or_default(None);
    assert_eq!(c.poll_interval, 60);
    assert_eq!(c.bundle_threshold, 3);
    assert_eq!(c.default, Action::Ignore);
}

#[test]
fn reason_is_any_of() {
    let c = readme_config();
    assert_eq!(apply(&c, &notif("review_requested", "x/y", "PullRequest", "t")), Action::Notify);
    assert_eq!(apply(&c, &notif("assign", "x/y", "Issue", "t")), Action::Notify);
}

#[test]
fn repository_and_subject_type_must_both_hold() {
    let c = readme_config();
    assert_eq!(
        apply(&c, &notif("subscribed", "octocat/api-server", "PullRequest", "t")),
        Action::Notify
    );
    assert_eq!(apply(&c, &notif("subscribed", "octocat/api-server", "Issue", "t")), Action::Ignore);
    assert_eq!(apply(&c, &notif("subscribed", "octocat/other", "PullRequest", "t")), Action::Ignore);
}

#[test]
fn title_contains_is_case_sensitive() {
    let c = readme_config();
    assert_eq!(
        apply(&c, &notif("subscribed", "x/y", "Issue", "Fix it [urgent] now")),
        Action::Notify
    );
    assert_eq!(apply(&c, &notif("subscribed", "x/y", "Issue", "Fix it [URGENT] now")), Action::Ignore);
}

#[test]
fn first_match_wins() {
    let mut c = readme_config();
    c.rules.insert(
        0,
        rule(
            "mute-first",
            Conditions { repository: Some("x/y".to_string()), ..no_conditions() },
            Action::Ignore,
        ),
    );
    // "direct" would notify, but the earlier rule decides.
    assert_eq!(apply(&c, &notif("mention", "x/y", "Issue", "t")), Action::Ignore);
    assert_eq!(apply(&c, &notif("mention", "a/b", "Issue", "t")), Action::Notify);
    assert_eq!(apply(&c, &notif("ci_activity", "a/b", "CheckSuite", "t")), Action::MarkRead);
}

#[test]
fn no_match_gives_default() {
    let mut c = readme_config();
    assert_eq!(apply(&c, &notif("subscribed", "a/b", "Release", "t")), Action::Ignore);
    c.default = Action::Notify;
    assert_eq!(apply(&c, &notif("subscribed", "a/b", "Release", "t")), Action::Notify);
}

#[test]
fn empty_match_is_catch_all() {
    let n = notif("whatever", "a/b", "Discussion", "");
    assert!(matches_conditions(&no_conditions(), &n));
    let mut c = Config::default();
    c.rules.push(rule("all", no_conditions(), Action::MarkDone));
    assert_eq!(apply(&c, &n), Action::MarkDone);
}

#[test]
fn empty_title_pattern_matches_every_title() {
    let cond = Conditions { title_contains: Some(String::new()), ..no_conditions() };
    assert!(matches_conditions(&cond, &notif("r", "a/b", "Issue", "")));
}

#[test]
fn mute_rule_is_appended_once() {
    let mut c = readme_config();
    assert!(add_ignore_rule(&mut c, "octocat/noisy"));
    assert_eq!(c.rules.len(), 5);
    let last = c.rules.last().unwrap();
    assert_eq!(last.name, "mute octocat/noisy");
    assert_eq!(last.action, Action::Ignore);
    assert_eq!(last.conditions.repository.as_deref(), Some("octocat/noisy"));
    assert!(last.conditions.reason.is_none());
    assert!(last.conditions.subject_type.is_none());
    assert!(last.conditions.title_contains.is_none());
    assert!(!add_ignore_rule(&mut c, "octocat/noisy"));
    assert_eq!(c.rules.len(), 5);
    assert_eq!(apply(&c, &notif("subscribed", "octocat/noisy", "Issue", "t")), Action::Ignore);
    // The earlier "direct" rule still wins for mentions.
    assert_eq!(apply(&c, &notif("mention", "octocat/noisy", "Issue", "t")), Action::Notify);
}

#[test]
fn mute_rule_with_extra_condition_is_not_a_duplicate() {
    let mut c = Config::default();
    c.rules.push(rule(
        "partial",
        Conditions {
            repository: Some("o/r".to_string()),
            subject_type: Some("Issue".to_string()),
            ..no_conditions()
        },
        Action::Ignore,
    ));
    assert!(add_ignore_rule(&mut c, "o/r"));
    assert_eq!(c.rules.len(), 2);
}

#[test]
fn reload_replaces_config() {
    let mut current = Config::default();
    let loaded = readme_config();
    match apply_reload(&mut current, Ok(loaded)) {
        ReloadOutcome::Reloaded { rule_count } => assert_eq!(rule_count, 4),
        ReloadOutcome::Rejected { .. } => panic!("expected a reload"),
    }
    assert_eq!(current.rules.len(), 4);
}

#[test]
fn reload_error_keeps_last_good_config() {
    let mut current = readme_config();
    match apply_reload(&mut current, Err("bad yaml at line 3 column 1".to_string())) {
        ReloadOutcome::Rejected { message } => assert_eq!(message, "bad yaml at line 3 column 1"),
        ReloadOutcome::Reloaded { .. } => panic!("expected a rejection"),
    }
    assert_eq!(current.rules.len(), 4);
    assert_eq!(current.rules[0].name, "direct");
}

#[test]
fn config_file_has_comment_header() {
    assert_eq!(config_file_text("rules: []\n"), "# github-notifier-ws config\nrules: []\n");
}

#[test]
fn defaults_of_action_and_conditions() {
    assert_eq!(Action::default(), Action::Ignore);
    let c = Conditions::default();
    assert!(c.reason.is_none() && c.repository.is_none());
    assert!(c.subject_type.is_none() && c.title_contains.is_none());
    assert!(matches_conditions(&c, &notif("any", "a/b", "Issue", "x")));
}

#[test]
fn muting_a_file_that_does_not_load_is_refused() {
    match mute_repository(Err("bad yaml".to_string()), "o/r") {
        MuteDecision::Refuse { message } => assert_eq!(message, "bad yaml"),
        other => panic!("unexpected {:?}", other),
    }
}

#[test]
fn muting_a_loaded_file_appends_once() {
    let config = match mute_repository(Ok(readme_config()), "o/r") {
        MuteDecision::Write { config } => config,
        other => panic!("unexpected {:?}", other),
    };
    assert_eq!(config.rules.len(), 5);
    assert_eq!(config.rules[4].name, "mute o/r");
    assert!(matches!(mute_repository(Ok(config), "o/r"), MuteDecision::Unchanged));
}
