use github_notifier_ws::config::{Action, Conditions, Config, Rule};
use github_notifier_ws::github::{
    subject_url_to_html_url, subscription_api_url, thread_api_url, Notification, Repository,
    Subject,
};
use github_notifier_ws::poll::{
    effective_action, interpret_poll_response, parse_poll_interval, parse_rate_remaining,
    plan_notifications, poll_step, Delivery, PollEvent, PollResponse, PollResult, PollState,
};

fn notif(id: &str, reason: &str, unread: bool) -> Notification {
    Notification {
        id: id.to_string(),
        reason: reason.to_string(),
        unread,
        url: format!("https://api.github.com/notifications/threads/{}", id),
        repository: Repository { full_name: "o/r".to_string() },
        subject: Subject {
            title: format!("title {}", id),
            subject_type: "Issue".to_string(),
            url: format!("https://api.github.com/repos/o/r/issues/{}", id),
        },
    }
}

fn config(allow_destructive: bool, bundle_threshold: usize) -> Config {
    let mut c = Config::default();
    c.allow_destructive = allow_destructive;
    c.bundle_threshold = bundle_threshold;
    c.rules.push(Rule {
        name: "direct".to_string(),
        conditions: Conditions {
            reason: Some(vec!["mention".to_string()]),
            repository: None,
            subject_type: None,
            title_contains: None,
        },
        action: Action::Notify,
    });
    c.rules.push(Rule {
        name: "ci".to_string(),
        conditions: Conditions {
            reason: Some(vec!["ci_activity".to_string()]),
            repository: None,
            subject_type: None,
            title_contains: None,
        },
        action: Action::MarkRead,
    });
    c.rules.push(Rule {
        name: "done".to_string(),
        conditions: Conditions {
            reason: Some(vec!["state_change".to_string()]),
            repository: None,
            subject_type: None,
            title_contains: None,
        },
        action: Action::MarkDone,
    });
    c
}

#[test]
fn thread_id_is_last_url_segment() {
    let n = notif("4711", "mention", true);
    assert_eq!(n.thread_id(), "4711");
    let mut bare = notif("x", "mention", true);
    bare.url = "no-slash".to_string();
    assert_eq!(bare.thread_id(), "no-slash");
    bare.url = "trailing/".to_string();
    assert_eq!(bare.thread_id(), "");
}

#[test]
fn html_url_of_pull_request() {
    let mut n = notif("1", "mention", true);
    n.subject.url = "https://api.github.com/repos/owner/repo/pulls/1".to_string();
    assert_eq!(n.html_url(), "https://github.com/owner/repo/pull/1");
    assert_eq!(
        subject_url_to_html_url("https://api.github.com/repos/o/r/issues/2"),
        "https://github.com/o/r/issues/2"
    );
}

#[test]
fn thread_and_subscription_urls() {
    assert_eq!(thread_api_url("42"), "https://api.github.com/notifications/threads/42");
    assert_eq!(
        subscription_api_url("42"),
        "https://api.github.com/notifications/threads/42/subscription"
    );
}

#[test]
fn destructive_actions_fall_back_to_notify() {
    assert_eq!(effective_action(Action::MarkRead, false), Action::Notify);
    assert_eq!(effective_action(Action::MarkDone, false), Action::Notify);
    assert_eq!(effective_action(Action::MarkRead, true), Action::MarkRead);
    assert_eq!(effective_action(Action::MarkDone, true), Action::MarkDone);
    assert_eq!(effective_action(Action::Ignore, false), Action::Ignore);
    assert_eq!(effective_action(Action::Notify, true), Action::Notify);
}

#[test]
fn plan_without_destructive_notifies_instead() {
    let c = config(false, 3);
    let ns = vec![notif("1", "ci_activity", true), notif("2", "subscribed", true)];
    let plan = plan_notifications(&c, &ns);
    assert_eq!(plan.to_notify.len(), 1);
    assert_eq!(plan.to_notify[0].id, "1");
    assert!(plan.remote_actions.is_empty());
    assert_eq!(plan.delivery, Delivery::Individual);
}

#[test]
fn plan_with_destructive_calls_github() {
    let c = config(true, 3);
    let ns = vec![
        notif("1", "ci_activity", true),
        notif("2", "mention", true),
        notif("3", "state_change", true),
    ];
    let plan = plan_notifications(&c, &ns);
    assert_eq!(plan.to_notify.len(), 1);
    assert_eq!(plan.to_notify[0].id, "2");
    assert_eq!(plan.remote_actions.len(), 2);
    assert_eq!(plan.remote_actions[0].kind, Action::MarkRead);
    assert_eq!(plan.remote_actions[0].thread_id, "1");
    assert_eq!(plan.remote_actions[1].kind, Action::MarkDone);
    assert_eq!(plan.remote_actions[1].thread_id, "3");
}

#[test]
fn plan_skips_read_notifications() {
    let c = config(true, 3);
    let ns = vec![notif("1", "mention", false), notif("2", "ci_activity", false)];
    let plan = plan_notifications(&c, &ns);
    assert!(plan.to_notify.is_empty());
    assert!(plan.remote_actions.is_empty());
    assert_eq!(plan.delivery, Delivery::Idle);
}

#[test]
fn plan_bundles_from_threshold_on() {
    let c = config(false, 3);
    let two = vec![notif("1", "mention", true), notif("2", "mention", true)];
    assert_eq!(plan_notifications(&c, &two).delivery, Delivery::Individual);
    let three = vec![
        notif("1", "mention", true),
        notif("2", "mention", true),
        notif("3", "mention", true),
    ];
    let plan = plan_notifications(&c, &three);
    assert_eq!(plan.delivery, Delivery::Bundle);
    assert_eq!(plan.to_notify.len(), 3);
    assert_eq!(plan.to_notify[2].subject.title, "title 3");
}

#[test]
fn not_modified_response() {
    assert!(matches!(
        interpret_poll_response(304, None, Some("120".to_string()), None),
        PollResponse::NotModified
    ));
}

#[test]
fn error_status_fails() {
    assert!(matches!(
        interpret_poll_response(401, None, None, None),
        PollResponse::Failed { status: 401 }
    ));
    assert!(matches!(
        interpret_poll_response(503, None, None, None),
        PollResponse::Failed { status: 503 }
    ));
}

#[test]
fn content_response_reads_headers() {
    match interpret_poll_response(
        200,
        Some("Thu, 01 Jan 2025 00:00:00 GMT".to_string()),
        Some("120".to_string()),
        Some("4832".to_string()),
    ) {
        PollResponse::Content { last_modified, server_poll_interval, rate_remaining } => {
            assert_eq!(last_modified.as_deref(), Some("Thu, 01 Jan 2025 00:00:00 GMT"));
            assert_eq!(server_poll_interval, 120);
            assert_eq!(rate_remaining, Some(4832));
        }
        other => panic!("unexpected {:?}", other),
    }
}

#[test]
fn unreadable_headers_use_defaults() {
    assert_eq!(parse_poll_interval(&None), 60);
    assert_eq!(parse_poll_interval(&Some("sixty".to_string())), 60);
    assert_eq!(parse_poll_interval(&Some("+90".to_string())), 90);
    assert_eq!(parse_poll_interval(&Some(" 90".to_string())), 60);
    assert_eq!(parse_rate_remaining(&Some("4294967296".to_string())), None);
    assert_eq!(parse_rate_remaining(&Some("4294967295".to_string())), Some(4294967295));
    assert_eq!(parse_rate_remaining(&Some("".to_string())), None);
    assert_eq!(parse_rate_remaining(&None), None);
}

#[test]
fn poll_state_keeps_rate_when_header_missing() {
    let mut s = PollState::new();
    assert_eq!(s.server_poll_interval, 60);
    let r1 = PollResult {
        notifications: Vec::new(),
        last_modified: Some("a".to_string()),
        server_poll_interval: 90,
        rate_remaining: Some(10),
    };
    s.record_poll(&r1);
    assert_eq!(s.api_rate_remaining, Some(10));
    assert_eq!(s.server_poll_interval, 90);
    let r2 = PollResult {
        notifications: Vec::new(),
        last_modified: None,
        server_poll_interval: 60,
        rate_remaining: None,
    };
    s.record_poll(&r2);
    assert_eq!(s.api_rate_remaining, Some(10));
    assert_eq!(s.last_modified, None);
    s.last_modified = Some("b".to_string());
    s.force_refresh();
    assert_eq!(s.last_modified, None);
}

#[test]
fn wait_is_the_larger_interval() {
    let mut s = PollState::new();
    let mut c = Config::default();
    c.poll_interval = 120;
    assert_eq!(s.poll_wait_secs(&c), 120);
    s.server_poll_interval = 300;
    assert_eq!(s.poll_wait_secs(&c), 300);
}

#[test]
fn poll_step_when_snoozed_or_unchanged() {
    let mut s = PollState::new();
    let mut c = config(false, 3);
    c.poll_interval = 90;
    let step = poll_step(&mut s, &c, PollEvent::Snoozed);
    assert!(step.plan.is_none() && step.error.is_none() && !step.synced);
    assert_eq!(step.sleep_secs, 90);
    let step = poll_step(&mut s, &c, PollEvent::NotModified);
    assert!(step.plan.is_none() && step.error.is_none() && step.synced);
    assert_eq!(step.sleep_secs, 90);
}

#[test]
fn poll_step_without_token() {
    let mut s = PollState::new();
    let c = config(false, 3);
    let step = poll_step(&mut s, &c, PollEvent::TokenMissing);
    assert_eq!(step.error.as_deref(), Some("認証エラー: トークンが設定されていません"));
    assert_eq!(step.sleep_secs, 60);
    assert!(!step.synced);
}

#[test]
fn poll_step_on_failure_keeps_state() {
    let mut s = PollState::new();
    s.last_modified = Some("x".to_string());
    let c = config(false, 3);
    let step = poll_step(&mut s, &c, PollEvent::Failed { message: "boom".to_string() });
    assert_eq!(step.error.as_deref(), Some("boom"));
    assert_eq!(s.last_modified.as_deref(), Some("x"));
    assert_eq!(step.sleep_secs, 60);
}

#[test]
fn poll_step_with_notifications() {
    let mut s = PollState::new();
    let c = config(false, 3);
    let result = PollResult {
        notifications: vec![notif("1", "mention", true), notif("2", "subscribed", true)],
        last_modified: Some("lm".to_string()),
        server_poll_interval: 300,
        rate_remaining: Some(4999),
    };
    let step = poll_step(&mut s, &c, PollEvent::Fetched { result });
    let plan = step.plan.unwrap();
    assert_eq!(plan.to_notify.len(), 1);
    assert_eq!(plan.delivery, Delivery::Individual);
    assert_eq!(s.unread_count, 1);
    assert_eq!(s.last_modified.as_deref(), Some("lm"));
    assert_eq!(s.api_rate_remaining, Some(4999));
    assert!(step.synced && step.error.is_none());
    assert_eq!(step.sleep_secs, 300);
}
