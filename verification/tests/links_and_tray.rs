use github_notifier_ws::actions::{
    deep_link_from_parts, inbox_command, parse_deep_link, query_value, resolve_thread_html_url,
    thread_command, DeepLink, InboxCommand, ThreadCommand, ThreadUrlCache,
};
use github_notifier_ws::decimal::{decimal_string, parse_unsigned};
use github_notifier_ws::text::{contains_text, join_texts, replace_text, text_eq};
use github_notifier_ws::tray::{
    format_last_sync, menu_command, menu_layout, snooze_label, EntryKind, snooze_until_morning_secs, sync_status_text,
    tooltip_text, unread_status_text, MenuCommand, TrayStatus,
};

#[test]
fn thread_link_with_mute() {
    match parse_deep_link("github-notifier-ws://thread/123?do=mute&repo=octo%2Fcat") {
        Some(DeepLink::Thread { thread_id, action, repo }) => {
            assert_eq!(thread_id, "123");
            assert_eq!(action, "mute");
            assert_eq!(repo.as_deref(), Some("octo/cat"));
        }
        other => panic!("unexpected {:?}", other),
    }
}

#[test]
fn inbox_link() {
    match parse_deep_link("github-notifier-ws://inbox?do=mark_all_read") {
        Some(DeepLink::Inbox { action }) => assert_eq!(action, "mark_all_read"),
        other => panic!("unexpected {:?}", other),
    }
}

#[test]
fn link_without_do_has_empty_action() {
    match parse_deep_link("github-notifier-ws://thread/5") {
        Some(DeepLink::Thread { thread_id, action, repo }) => {
            assert_eq!(thread_id, "5");
            assert_eq!(action, "");
            assert!(repo.is_none());
        }
        other => panic!("unexpected {:?}", other),
    }
}

#[test]
fn unknown_host_and_invalid_url() {
    match parse_deep_link("github-notifier-ws://elsewhere?do=open") {
        Some(DeepLink::UnknownHost { host }) => assert_eq!(host.as_deref(), Some("elsewhere")),
        other => panic!("unexpected {:?}", other),
    }
    assert!(parse_deep_link("not a url").is_none());
}

#[test]
fn parts_to_link() {
    let pairs = vec![
        ("do".to_string(), "open".to_string()),
        ("do".to_string(), "mark_read".to_string()),
    ];
    match deep_link_from_parts(Some("thread".to_string()), "//42", &pairs) {
        DeepLink::Thread { thread_id, action, repo } => {
            assert_eq!(thread_id, "42");
            assert_eq!(action, "open");
            assert!(repo.is_none());
        }
        other => panic!("unexpected {:?}", other),
    }
    assert!(matches!(
        deep_link_from_parts(None, "/", &pairs),
        DeepLink::UnknownHost { host: None }
    ));
    assert_eq!(query_value(&pairs, "missing"), None);
}

#[test]
fn thread_commands() {
    assert!(matches!(
        thread_command("1".to_string(), "open", None),
        ThreadCommand::Open { thread_id } if thread_id == "1"
    ));
    assert!(matches!(
        thread_command("1".to_string(), "mark_read", None),
        ThreadCommand::MarkRead { thread_id } if thread_id == "1"
    ));
    assert!(matches!(
        thread_command("1".to_string(), "mute", Some("o/r".to_string())),
        ThreadCommand::Mute { repo } if repo == "o/r"
    ));
    assert!(matches!(thread_command("1".to_string(), "mute", None), ThreadCommand::MuteWithoutRepo));
    assert!(matches!(
        thread_command("1".to_string(), "zap", None),
        ThreadCommand::Unknown { action } if action == "zap"
    ));
}

#[test]
fn mark_all_read_needs_allow_destructive() {
    assert!(matches!(inbox_command("mark_all_read", true), InboxCommand::MarkAllRead));
    assert!(matches!(inbox_command("mark_all_read", false), InboxCommand::OpenInboxInstead));
    assert!(matches!(inbox_command("open", false), InboxCommand::OpenInbox));
    assert!(matches!(inbox_command("zap", true), InboxCommand::Unknown { action } if action == "zap"));
}

#[test]
fn thread_url_from_cache_or_inbox() {
    let mut cache = ThreadUrlCache::new();
    cache.remember("7".to_string(), "https://api.github.com/repos/o/r/pulls/3".to_string());
    assert_eq!(resolve_thread_html_url(&cache, "7"), "https://github.com/o/r/pull/3");
    assert_eq!(resolve_thread_html_url(&cache, "8"), "https://github.com/notifications");
}

#[test]
fn last_sync_texts() {
    assert_eq!(format_last_sync(None), "未同期");
    assert_eq!(format_last_sync(Some(30)), "30秒前に同期");
    assert_eq!(format_last_sync(Some(59)), "59秒前に同期");
    assert_eq!(format_last_sync(Some(125)), "2分前に同期");
}

#[test]
fn menu_status_lines() {
    assert_eq!(unread_status_text(0), "  未読なし");
    assert_eq!(unread_status_text(4), "  ● 4 件の未読");
    assert_eq!(sync_status_text(Some(30), Some(4832)), "  30秒前に同期  ·  API残 4,832");
    assert_eq!(sync_status_text(None, None), "  未同期");
    assert_eq!(sync_status_text(Some(125), Some(999)), "  2分前に同期  ·  API残 999");
    assert_eq!(sync_status_text(None, Some(1000)), "  未同期  ·  API残 1,000");
    assert_eq!(sync_status_text(None, Some(1_005_007)), "  未同期  ·  API残 1,005,007");
    assert_eq!(sync_status_text(None, Some(u32::MAX)), "  未同期  ·  API残 4,294,967,295");
    assert_eq!(sync_status_text(None, Some(0)), "  未同期  ·  API残 0");
}

#[test]
fn snooze_labels() {
    assert_eq!(snooze_label(None), "通知を一時停止");
    assert_eq!(snooze_label(Some(1799)), "通知を一時停止中 (残 29分)");
    assert_eq!(snooze_label(Some(3600)), "通知を一時停止中 (残 1時間)");
    assert_eq!(snooze_label(Some(7 * 3600 + 59)), "通知を一時停止中 (残 7時間)");
}

#[test]
fn menu_commands() {
    assert_eq!(menu_command("check_now"), MenuCommand::CheckNow);
    assert_eq!(menu_command("snooze_30m"), MenuCommand::SnoozeFor { secs: 1800 });
    assert_eq!(menu_command("snooze_1h"), MenuCommand::SnoozeFor { secs: 3600 });
    assert_eq!(menu_command("snooze_tomorrow"), MenuCommand::SnoozeUntilMorning);
    assert_eq!(menu_command("snooze_cancel"), MenuCommand::CancelSnooze);
    assert_eq!(menu_command("open_config"), MenuCommand::OpenConfig);
    assert_eq!(menu_command("reload_config"), MenuCommand::ReloadConfig);
    assert_eq!(menu_command("open_github"), MenuCommand::OpenGitHub);
    assert_eq!(menu_command("quit"), MenuCommand::Quit);
    assert_eq!(menu_command("status_unread"), MenuCommand::Nothing);
}

#[test]
fn snooze_until_morning() {
    let ns: i64 = 1_000_000_000;
    // 9:00 today is 2.5 hours away.
    assert_eq!(snooze_until_morning_secs(Some(9000 * ns), Some(95400 * ns)), 9000);
    // 9:00 today has passed: tomorrow's 9:00.
    assert_eq!(snooze_until_morning_secs(Some(-60 * ns), Some(20 * 3600 * ns)), 72000);
    // Less than an hour away: at least an hour.
    assert_eq!(snooze_until_morning_secs(Some(600 * ns), Some(87000 * ns)), 3600);
    // No 9:00 tomorrow in the local time zone: sixteen hours.
    assert_eq!(snooze_until_morning_secs(None, None), 57600);
    // Fractions of a second are dropped.
    assert_eq!(snooze_until_morning_secs(Some(9000 * ns + 999), None), 9000);
}

#[test]
fn tooltips() {
    assert_eq!(tooltip_text(&TrayStatus::Idle), "github-notifier-ws — 未読なし");
    assert_eq!(tooltip_text(&TrayStatus::Unread { count: 3 }), "github-notifier-ws — 3 件の未読");
    assert_eq!(
        tooltip_text(&TrayStatus::Error { message: "認証エラー".to_string() }),
        "github-notifier-ws — エラー: 認証エラー"
    );
    assert_eq!(tooltip_text(&TrayStatus::Paused), "github-notifier-ws — 一時停止中");
}

#[test]
fn decimal_round_trip() {
    for n in [0u64, 7, 10, 99, 100, 4832, u64::MAX] {
        let s = decimal_string(n);
        assert_eq!(s, n.to_string());
        let cs: Vec<char> = s.chars().collect();
        assert_eq!(parse_unsigned(&cs, u64::MAX), Some(n));
    }
}

#[test]
fn parsing_follows_std_rules() {
    let p = |s: &str, max: u64| parse_unsigned(&s.chars().collect(), max);
    assert_eq!(p("+5", u64::MAX), Some(5));
    assert_eq!(p("+", u64::MAX), None);
    assert_eq!(p("", u64::MAX), None);
    assert_eq!(p("-1", u64::MAX), None);
    assert_eq!(p("007", u64::MAX), Some(7));
    assert_eq!(p("18446744073709551616", u64::MAX), None);
    assert_eq!(p("256", 255), None);
    assert_eq!(p("255", 255), Some(255));
    assert_eq!(p("12a", u64::MAX), None);
}

#[test]
fn text_helpers() {
    assert!(contains_text("hello world", "o w"));
    assert!(!contains_text("hello", "hello!"));
    assert!(contains_text("", ""));
    assert_eq!(replace_text("aaaa", "aa", "b"), "bb");
    assert_eq!(replace_text("abcabc", "bc", "X"), "aXaX");
    assert!(text_eq("日本", "日本"));
    assert!(!text_eq("日本", "日"));
    let parts = vec!["a".to_string(), "b".to_string(), "c".to_string()];
    assert_eq!(join_texts(&parts, "・"), "a・b・c");
    assert_eq!(join_texts(&Vec::new(), "・"), "");
}

#[test]
fn remembered_thread_url_is_found_again() {
    let mut cache = ThreadUrlCache::new();
    assert_eq!(cache.len(), 0);
    cache.remember("1".to_string(), "https://api.github.com/repos/o/r/issues/1".to_string());
    cache.remember("2".to_string(), "https://api.github.com/repos/o/r/pulls/2".to_string());
    cache.remember("1".to_string(), "https://api.github.com/repos/o/r/pulls/9".to_string());
    assert_eq!(cache.len(), 2);
    assert_eq!(cache.subject_url("1").as_deref(), Some("https://api.github.com/repos/o/r/pulls/9"));
    assert_eq!(resolve_thread_html_url(&cache, "1"), "https://github.com/o/r/pull/9");
    assert_eq!(resolve_thread_html_url(&cache, "2"), "https://github.com/o/r/pull/2");
    assert_eq!(cache.subject_url("3"), None);
}

#[test]
fn tray_menu_layout_matches_readme() {
    check_layout();
}

fn labels(entries: &[github_notifier_ws::tray::MenuEntry]) -> Vec<(String, String, bool)> {
    entries
        .iter()
        .map(|e| match e.kind {
            EntryKind::Separator => ("---".to_string(), String::new(), true),
            EntryKind::Submenu => (format!(">{}", e.id), e.label.clone(), e.enabled),
            EntryKind::Item => (e.id.clone(), e.label.clone(), e.enabled),
        })
        .collect()
}

fn check_layout() {
    let menu = menu_layout(0, Some(30), Some(4832), None);
    let top = labels(&menu.entries);
    let expected: Vec<(String, String, bool)> = vec![
        ("status_unread", "  未読なし", false),
        ("status_sync", "  30秒前に同期  ·  API残 4,832", false),
        ("---", "", true),
        ("check_now", "今すぐ確認", true),
        (">snooze", "通知を一時停止", true),
        ("---", "", true),
        ("open_config", "設定ファイルを開く", true),
        ("reload_config", "設定を再読み込み", true),
        ("---", "", true),
        ("open_github", "GitHubで開く", true),
        ("---", "", true),
        ("quit", "終了", true),
    ]
    .into_iter()
    .map(|(a, b, c)| (a.to_string(), b.to_string(), c))
    .collect();
    assert_eq!(top, expected);
    let sub = labels(&menu.snooze_entries);
    let expected_sub: Vec<(String, String, bool)> = vec![
        ("snooze_30m", "30分", true),
        ("snooze_1h", "1時間", true),
        ("snooze_tomorrow", "明日まで止める", true),
        ("---", "", true),
        ("snooze_cancel", "一時停止を解除", true),
    ]
    .into_iter()
    .map(|(a, b, c)| (a.to_string(), b.to_string(), c))
    .collect();
    assert_eq!(sub, expected_sub);
    for e in menu.entries.iter().chain(menu.snooze_entries.iter()) {
        if e.kind == EntryKind::Item && e.enabled {
            assert_ne!(menu_command(&e.id), MenuCommand::Nothing);
        }
    }
    let busy = menu_layout(4, None, None, Some(1800));
    assert_eq!(busy.entries[0].label, "  ● 4 件の未読");
    assert_eq!(busy.entries[4].label, "通知を一時停止中 (残 30分)");
}
