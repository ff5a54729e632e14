use github_notifier_ws::github::{Notification, Repository, Subject};
use github_notifier_ws::notify::{
    bundle_xml, config_error_xml, escape, extract_line_number, notification_xml, reason_human,
    reload_success_xml, subject_type_human,
};

fn notif(id: &str, reason: &str, repo: &str, stype: &str, title: &str) -> Notification {
    Notification {
        id: id.to_string(),
        reason: reason.to_string(),
        unread: true,
        url: format!("https://api.github.com/notifications/threads/{}", id),
        repository: Repository { full_name: repo.to_string() },
        subject: Subject {
            title: title.to_string(),
            subject_type: stype.to_string(),
            url: "https://api.github.com/repos/o/r/issues/1".to_string(),
        },
    }
}

#[test]
fn escape_replaces_markup_characters() {
    assert_eq!(escape(r#"a & b < c > d "e""#), "a &amp; b &lt; c &gt; d &quot;e&quot;");
    assert_eq!(escape("plain"), "plain");
    assert_eq!(escape("&amp;"), "&amp;amp;");
}

#[test]
fn reasons_and_types_get_labels() {
    assert_eq!(reason_human("mention"), "あなたがメンションされました");
    assert_eq!(reason_human("review_requested"), "レビュー依頼");
    assert_eq!(reason_human("assign"), "あなたがアサインされました");
    assert_eq!(reason_human("ci_activity"), "CI 結果");
    assert_eq!(reason_human("team_mention"), "チームメンション");
    assert_eq!(reason_human("state_change"), "状態変更");
    assert_eq!(reason_human("security_alert"), "セキュリティアラート");
    assert_eq!(reason_human("subscribed"), "サブスクリプション");
    assert_eq!(reason_human("author"), "author");
    assert_eq!(subject_type_human("PullRequest"), "プルリクエスト");
    assert_eq!(subject_type_human("Issue"), "Issue");
    assert_eq!(subject_type_human("Commit"), "コミット");
    assert_eq!(subject_type_human("Release"), "リリース");
    assert_eq!(subject_type_human("Discussion"), "ディスカッション");
    assert_eq!(subject_type_human("CheckSuite"), "CheckSuite");
}

#[test]
fn line_number_from_yaml_messages() {
    assert_eq!(extract_line_number("rules: invalid type at line 5 column 3"), Some(5));
    assert_eq!(extract_line_number("line 12 column 7: mapping values are not allowed"), Some(12));
    assert_eq!(extract_line_number("error at line 8, column 2"), Some(8));
    assert_eq!(extract_line_number("no position here"), None);
    assert_eq!(extract_line_number("at line abc"), None);
    assert_eq!(extract_line_number("ends with line "), None);
    assert_eq!(extract_line_number("pipeline 3 is bad"), Some(3));
}

#[test]
fn mute_link_percent_encodes_repository() {
    let n = notif("1", "mention", "é x/a-b_c.d~e", "Issue", "t");
    let xml = notification_xml(&n);
    assert!(xml.contains("?do=mute&amp;repo=%C3%A9%20x%2Fa-b_c.d~e\""));
}

#[test]
fn mute_link_reads_back_as_mute_command() {
    let n = notif("77", "mention", "octocat/api-server", "Issue", "t");
    let xml = notification_xml(&n);
    let start = xml.find("github-notifier-ws://thread/77?do=mute").unwrap();
    let rest = &xml[start..];
    let end = rest.find('"').unwrap();
    let link = rest[..end].replace("&amp;", "&");
    match github_notifier_ws::actions::parse_deep_link(&link) {
        Some(github_notifier_ws::actions::DeepLink::Thread { thread_id, action, repo }) => {
            assert_eq!(thread_id, "77");
            assert_eq!(action, "mute");
            assert_eq!(repo.as_deref(), Some("octocat/api-server"));
            let command = github_notifier_ws::actions::thread_command(thread_id, &action, repo);
            let repo = match command {
                github_notifier_ws::actions::ThreadCommand::Mute { repo } => repo,
                other => panic!("unexpected {:?}", other),
            };
            let config = github_notifier_ws::config::Config::default();
            match github_notifier_ws::config::mute_repository(Ok(config), &repo) {
                github_notifier_ws::config::MuteDecision::Write { config } => {
                    let rule = &config.rules[0];
                    assert_eq!(rule.conditions.repository.as_deref(), Some("octocat/api-server"));
                    assert!(rule.conditions.reason.is_none());
                }
                other => panic!("unexpected {:?}", other),
            }
        }
        other => panic!("unexpected {:?}", other),
    }
}

#[test]
fn single_notification_toast() {
    let n = notif("99", "mention", "octo/cat", "Issue", "Fix <bug> & \"crash\"");
    let expected = r#"<toast activationType="protocol" launch="github-notifier-ws://thread/99?do=open" duration="long">
  <visual>
    <binding template="ToastGeneric">
      <text>octo/cat</text>
      <text>あなたがメンションされました · Issue</text>
      <text>Fix &lt;bug&gt; &amp; &quot;crash&quot;</text>
    </binding>
  </visual>
  <actions>
    <action content="開く" arguments="github-notifier-ws://thread/99?do=open" activationType="protocol"/>
    <action content="既読にする" arguments="github-notifier-ws://thread/99?do=mark_read" activationType="protocol"/>
    <action content="このリポジトリをミュート" arguments="github-notifier-ws://thread/99?do=mute&amp;repo=octo%2Fcat" activationType="protocol"/>
  </actions>
</toast>"#;
    assert_eq!(notification_xml(&n), expected);
}

#[test]
fn bundle_toast_summarizes_reasons() {
    let ns = vec![
        notif("1", "mention", "o/r", "Issue", "a"),
        notif("2", "mention", "o/r", "Issue", "b"),
        notif("3", "review_requested", "o/r", "PullRequest", "c"),
        notif("4", "subscribed", "o/r", "Issue", "d"),
        notif("5", "assign", "o/r", "Issue", "e"),
    ];
    let expected = r#"<toast activationType="protocol" launch="github-notifier-ws://inbox?do=open">
  <visual>
    <binding template="ToastGeneric">
      <text>5 件の新しい通知</text>
      <text>メンション 2・レビュー依頼 1・その他 2</text>
    </binding>
  </visual>
  <actions>
    <action content="受信箱を開く" arguments="github-notifier-ws://inbox?do=open" activationType="protocol"/>
    <action content="すべて既読にする" arguments="github-notifier-ws://inbox?do=mark_all_read" activationType="protocol"/>
  </actions>
</toast>"#;
    assert_eq!(bundle_xml(&ns), expected);
}

#[test]
fn bundle_toast_counts_ci_and_skips_zero_counts() {
    let ns = vec![
        notif("1", "ci_activity", "o/r", "CheckSuite", "a"),
        notif("2", "ci_activity", "o/r", "CheckSuite", "b"),
        notif("3", "ci_activity", "o/r", "CheckSuite", "c"),
    ];
    let xml = bundle_xml(&ns);
    assert!(xml.contains("<text>3 件の新しい通知</text>"));
    assert!(xml.contains("<text>CI 3</text>"));
}

#[test]
fn config_error_toast_with_line() {
    let expected = r#"<toast>
  <visual>
    <binding template="ToastGeneric">
      <text>設定エラー · 4行目</text>
      <text>did not find expected key at line 4 column 1</text>
      <text>直前の有効な設定で動作を継続中</text>
    </binding>
  </visual>
</toast>"#;
    assert_eq!(config_error_xml("did not find expected key at line 4 column 1"), expected);
}

#[test]
fn config_error_toast_without_line_escapes_message() {
    let xml = config_error_xml("cannot read <file>");
    assert!(xml.contains("<text>設定エラー</text>"));
    assert!(xml.contains("<text>cannot read &lt;file&gt;</text>"));
}

#[test]
fn reload_success_toast() {
    let expected = r#"<toast duration="short">
  <visual>
    <binding template="ToastGeneric">
      <text>設定を更新しました</text>
      <text>7 個のルールが有効です</text>
    </binding>
  </visual>
</toast>"#;
    assert_eq!(reload_success_xml(7), expected);
}

#[test]
fn bundle_toast_depends_only_on_count_and_reasons() {
    let a = vec![
        notif("1", "mention", "o/r", "Issue", "a"),
        notif("2", "ci_activity", "o/r", "Issue", "b"),
        notif("3", "subscribed", "o/r", "Issue", "c"),
    ];
    let b = vec![
        notif("9", "subscribed", "x/y", "Release", "zzz"),
        notif("8", "mention", "p/q", "PullRequest", "yyy"),
        notif("7", "ci_activity", "s/t", "Commit", "xxx"),
    ];
    assert_eq!(bundle_xml(&a), bundle_xml(&b));
}
