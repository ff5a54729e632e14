//! The tray: status texts of the menu, what each menu entry asks for, the
//! snooze until the next morning, and the tooltip of each state.
use vstd::prelude::*;
use crate::decimal::{
    decimal, grouped_decimal, law_decimal_round_trip, numeral_value, push_decimal,
    push_grouped_decimal,
};
use crate::text::{push_text, text_eq};

verus! {

/// How long ago the last sync was, or that there was none.
pub open spec fn last_sync_text(elapsed_secs: Option<u64>) -> Seq<char> {
    match elapsed_secs {
        None => "未同期"@,
        Some(s) => if s < 60 {
            decimal(s as nat) + "秒前に同期"@
        } else {
            decimal((s / 60) as nat) + "分前に同期"@
        },
    }
}

/// Describes the time since the last sync (`elapsed_secs`, `None` when
/// there was no sync yet): in seconds under a minute, else in minutes.
pub fn format_last_sync(elapsed_secs: Option<u64>) -> (text: String)
    ensures
        text@ == last_sync_text(elapsed_secs),
{
    match elapsed_secs {
        None => String::from_str("未同期"),
        Some(s) => {
            let mut t = String::new();
            if s < 60 {
                push_decimal(&mut t, s);
                push_text(&mut t, "秒前に同期");
            } else {
                push_decimal(&mut t, s / 60);
                push_text(&mut t, "分前に同期");
            }
            assert(Seq::<char>::empty() + decimal((if s < 60 {
                s
            } else {
                s / 60
            }) as nat) =~= decimal((if s < 60 {
                s
            } else {
                s / 60
            }) as nat));
            t
        },
    }
}

/// The number shown for the last sync: under a minute, the elapsed seconds
/// followed by 秒前に同期; from a minute on, the whole elapsed minutes
/// (`elapsed_secs / 60`, not wrapped at an hour) followed by 分前に同期.
pub proof fn law_last_sync_number(s: u64)
    ensures
        s < 60 ==> exists|d: Seq<char>|
            numeral_value(d) == Some(s as nat) && last_sync_text(Some(s)) == d + "秒前に同期"@,
        s >= 60 ==> exists|d: Seq<char>|
            numeral_value(d) == Some((s / 60) as nat) && last_sync_text(Some(s)) == d
                + "分前に同期"@,
{
    let v: nat = if s < 60 {
        s as nat
    } else {
        (s / 60) as nat
    };
    law_decimal_round_trip(v, v);
    assert(numeral_value(decimal(v)) == Some(v));
}

/// Equal texts that end in the same `suffix` are equal without it.
proof fn lemma_cancel_suffix(d: Seq<char>, e: Seq<char>, suffix: Seq<char>)
    requires
        d + suffix == e + suffix,
    ensures
        d == e,
{
    assert((d + suffix).len() == d.len() + suffix.len());
    assert((e + suffix).len() == e.len() + suffix.len());
    assert(d.len() == e.len());
    assert forall|k: int| 0 <= k < d.len() implies d[k] == e[k] by {
        assert((d + suffix)[k] == d[k]);
        assert((e + suffix)[k] == e[k]);
    }
    assert(d =~= e);
}

/// As more time passes after the last sync, the minutes shown never go
/// down: for `60 <= s1 <= s2`, the number before 分前に同期 for `s1` is at
/// most the one for `s2`.
pub proof fn law_minutes_never_decrease(s1: u64, s2: u64, d1: Seq<char>, d2: Seq<char>)
    requires
        60 <= s1 <= s2,
        last_sync_text(Some(s1)) == d1 + "分前に同期"@,
        last_sync_text(Some(s2)) == d2 + "分前に同期"@,
    ensures
        numeral_value(d1) is Some,
        numeral_value(d2) is Some,
        numeral_value(d1).unwrap() <= numeral_value(d2).unwrap(),
{
    lemma_cancel_suffix(d1, decimal((s1 / 60) as nat), "分前に同期"@);
    lemma_cancel_suffix(d2, decimal((s2 / 60) as nat), "分前に同期"@);
    law_decimal_round_trip((s1 / 60) as nat, (s1 / 60) as nat);
    law_decimal_round_trip((s2 / 60) as nat, (s2 / 60) as nat);
    assert(s1 / 60 <= s2 / 60) by (nonlinear_arith)
        requires
            s1 <= s2,
    ;
}

/// The first status line of the menu.
pub open spec fn unread_line(unread_count: usize) -> Seq<char> {
    if unread_count == 0 {
        "  未読なし"@
    } else {
        "  ● "@ + decimal(unread_count as nat) + " 件の未読"@
    }
}

/// The unread status line of the menu.
pub fn unread_status_text(unread_count: usize) -> (text: String)
    ensures
        text@ == unread_line(unread_count),
{
    if unread_count == 0 {
        String::from_str("  未読なし")
    } else {
        let mut t = String::from_str("  ● ");
        push_decimal(&mut t, unread_count as u64);
        push_text(&mut t, " 件の未読");
        t
    }
}

/// The second status line of the menu: last sync, and the API rate-limit
/// remainder when known, with thousands separators.
pub open spec fn sync_line(elapsed_secs: Option<u64>, api_rate: Option<u32>) -> Seq<char> {
    match api_rate {
        Some(r) => "  "@ + last_sync_text(elapsed_secs) + "  ·  API残 "@ + grouped_decimal(
            r as nat,
        ),
        None => "  "@ + last_sync_text(elapsed_secs),
    }
}

/// The sync status line of the menu.
pub fn sync_status_text(elapsed_secs: Option<u64>, api_rate: Option<u32>) -> (text: String)
    ensures
        text@ == sync_line(elapsed_secs, api_rate),
{
    let sync = format_last_sync(elapsed_secs);
    let mut t = String::from_str("  ");
    push_text(&mut t, sync.as_str());
    if let Some(r) = api_rate {
        push_text(&mut t, "  ·  API残 ");
        push_grouped_decimal(&mut t, r as u64);
    }
    t
}

/// The label of the snooze submenu, given the seconds of snooze left
/// (`None` when not snoozed).
pub open spec fn snooze_line(remaining_secs: Option<u64>) -> Seq<char> {
    match remaining_secs {
        Some(secs) => {
            let mins = secs / 60;
            if mins < 60 {
                "通知を一時停止中 (残 "@ + decimal(mins as nat) + "分)"@
            } else {
                "通知を一時停止中 (残 "@ + decimal((mins / 60) as nat) + "時間)"@
            }
        },
        None => "通知を一時停止"@,
    }
}

/// The label of the snooze submenu.
pub fn snooze_label(remaining_secs: Option<u64>) -> (text: String)
    ensures
        text@ == snooze_line(remaining_secs),
{
    match remaining_secs {
        Some(secs) => {
            let mins = secs / 60;
            let mut t = String::from_str("通知を一時停止中 (残 ");
            if mins < 60 {
                push_decimal(&mut t, mins);
                push_text(&mut t, "分)");
            } else {
                push_decimal(&mut t, mins / 60);
                push_text(&mut t, "時間)");
            }
            t
        },
        None => String::from_str("通知を一時停止"),
    }
}

/// The kind of a menu entry.
#[derive(Clone, Copy, Debug, PartialEq, Eq, Structural)]
pub enum EntryKind {
    /// A clickable (or greyed-out) item.
    Item,
    /// A separating line.
    Separator,
    /// The snooze submenu, whose entries are `TrayMenu::snooze_entries`.
    Submenu,
}

/// One entry of the tray menu. A separator has an empty id and label.
#[derive(Debug)]
pub struct MenuEntry {
    pub kind: EntryKind,
    pub id: String,
    pub label: String,
    pub enabled: bool,
}

/// The tray menu: its top-level entries in order, and the entries of the
/// snooze submenu in order.
#[derive(Debug)]
pub struct TrayMenu {
    pub entries: Vec<MenuEntry>,
    pub snooze_entries: Vec<MenuEntry>,
}

/// A menu entry as plain values: kind, id, label, enabled.
pub open spec fn entry_view(e: MenuEntry) -> (EntryKind, Seq<char>, Seq<char>, bool) {
    (e.kind, e.id@, e.label@, e.enabled)
}

pub open spec fn item(id: Seq<char>, label: Seq<char>, enabled: bool) -> (
    EntryKind,
    Seq<char>,
    Seq<char>,
    bool,
) {
    (EntryKind::Item, id, label, enabled)
}

pub open spec fn separator() -> (EntryKind, Seq<char>, Seq<char>, bool) {
    (EntryKind::Separator, Seq::empty(), Seq::empty(), true)
}

/// The top level of the tray menu: the two greyed-out status lines, then
/// check now, the snooze submenu, the configuration entries, GitHub and quit,
/// with separators between the groups.
pub open spec fn top_menu(
    unread_count: usize,
    elapsed_secs: Option<u64>,
    api_rate: Option<u32>,
    snooze_remaining_secs: Option<u64>,
) -> Seq<(EntryKind, Seq<char>, Seq<char>, bool)> {
    seq![
        item("status_unread"@, unread_line(unread_count), false),
        item("status_sync"@, sync_line(elapsed_secs, api_rate), false),
        separator(),
        item("check_now"@, "今すぐ確認"@, true),
        (EntryKind::Submenu, "snooze"@, snooze_line(snooze_remaining_secs), true),
        separator(),
        item("open_config"@, "設定ファイルを開く"@, true),
        item("reload_config"@, "設定を再読み込み"@, true),
        separator(),
        item("open_github"@, "GitHubで開く"@, true),
        separator(),
        item("quit"@, "終了"@, true),
    ]
}

/// The snooze submenu: 30 minutes, 1 hour, until tomorrow, then (after a
/// separator) cancel.
pub open spec fn snooze_menu() -> Seq<(EntryKind, Seq<char>, Seq<char>, bool)> {
    seq![
        item("snooze_30m"@, "30分"@, true),
        item("snooze_1h"@, "1時間"@, true),
        item("snooze_tomorrow"@, "明日まで止める"@, true),
        separator(),
        item("snooze_cancel"@, "一時停止を解除"@, true),
    ]
}

fn menu_item(id: &str, label: String, enabled: bool) -> (e: MenuEntry)
    ensures
        entry_view(e) == item(id@, label@, enabled),
{
    MenuEntry { kind: EntryKind::Item, id: String::from_str(id), label, enabled }
}

fn menu_separator() -> (e: MenuEntry)
    ensures
        entry_view(e) == separator(),
{
    MenuEntry { kind: EntryKind::Separator, id: String::new(), label: String::new(), enabled: true }
}

/// The tray menu for the current state: unread count, seconds since the
/// last sync, API remainder, and seconds of snooze left.
pub fn menu_layout(
    unread_count: usize,
    elapsed_secs: Option<u64>,
    api_rate: Option<u32>,
    snooze_remaining_secs: Option<u64>,
) -> (menu: TrayMenu)
    ensures
        menu.entries@.map_values(|e: MenuEntry| entry_view(e)) == top_menu(
            unread_count,
            elapsed_secs,
            api_rate,
            snooze_remaining_secs,
        ),
        menu.snooze_entries@.map_values(|e: MenuEntry| entry_view(e)) == snooze_menu(),
{
    let mut entries: Vec<MenuEntry> = Vec::new();
    entries.push(menu_item("status_unread", unread_status_text(unread_count), false));
    entries.push(menu_item("status_sync", sync_status_text(elapsed_secs, api_rate), false));
    entries.push(menu_separator());
    entries.push(menu_item("check_now", String::from_str("今すぐ確認"), true));
    entries.push(
        MenuEntry {
            kind: EntryKind::Submenu,
            id: String::from_str("snooze"),
            label: snooze_label(snooze_remaining_secs),
            enabled: true,
        },
    );
    entries.push(menu_separator());
    entries.push(menu_item("open_config", String::from_str("設定ファイルを開く"), true));
    entries.push(menu_item("reload_config", String::from_str("設定を再読み込み"), true));
    entries.push(menu_separator());
    entries.push(menu_item("open_github", String::from_str("GitHubで開く"), true));
    entries.push(menu_separator());
    entries.push(menu_item("quit", String::from_str("終了"), true));
    let mut snooze_entries: Vec<MenuEntry> = Vec::new();
    snooze_entries.push(menu_item("snooze_30m", String::from_str("30分"), true));
    snooze_entries.push(menu_item("snooze_1h", String::from_str("1時間"), true));
    snooze_entries.push(menu_item("snooze_tomorrow", String::from_str("明日まで止める"), true));
    snooze_entries.push(menu_separator());
    snooze_entries.push(menu_item("snooze_cancel", String::from_str("一時停止を解除"), true));
    assert(entries@.map_values(|e: MenuEntry| entry_view(e)) =~= top_menu(
        unread_count,
        elapsed_secs,
        api_rate,
        snooze_remaining_secs,
    ));
    assert(snooze_entries@.map_values(|e: MenuEntry| entry_view(e)) =~= snooze_menu());
    TrayMenu { entries, snooze_entries }
}

/// What a tray menu entry asks for.
#[derive(Clone, Copy, Debug, PartialEq, Eq, Structural)]
pub enum MenuCommand {
    /// Poll now, fetching everything.
    CheckNow,
    /// Snooze for this many seconds.
    SnoozeFor { secs: u64 },
    /// Snooze until the next 9:00.
    SnoozeUntilMorning,
    /// End the snooze.
    CancelSnooze,
    /// Open the configuration file in an editor.
    OpenConfig,
    /// Reload the configuration file.
    ReloadConfig,
    /// Open the notifications page.
    OpenGitHub,
    /// Quit.
    Quit,
    /// Not an entry that does anything.
    Nothing,
}

/// The command for a menu entry id.
pub open spec fn command_for(id: Seq<char>) -> MenuCommand {
    if id == "check_now"@ {
        MenuCommand::CheckNow
    } else if id == "snooze_30m"@ {
        MenuCommand::SnoozeFor { secs: 1800 }
    } else if id == "snooze_1h"@ {
        MenuCommand::SnoozeFor { secs: 3600 }
    } else if id == "snooze_tomorrow"@ {
        MenuCommand::SnoozeUntilMorning
    } else if id == "snooze_cancel"@ {
        MenuCommand::CancelSnooze
    } else if id == "open_config"@ {
        MenuCommand::OpenConfig
    } else if id == "reload_config"@ {
        MenuCommand::ReloadConfig
    } else if id == "open_github"@ {
        MenuCommand::OpenGitHub
    } else if id == "quit"@ {
        MenuCommand::Quit
    } else {
        MenuCommand::Nothing
    }
}

/// Decides what the menu entry with id `id` asks for.
pub fn menu_command(id: &str) -> (c: MenuCommand)
    ensures
        c == command_for(id@),
{
    if text_eq(id, "check_now") {
        MenuCommand::CheckNow
    } else if text_eq(id, "snooze_30m") {
        MenuCommand::SnoozeFor { secs: 30 * 60 }
    } else if text_eq(id, "snooze_1h") {
        MenuCommand::SnoozeFor { secs: 60 * 60 }
    } else if text_eq(id, "snooze_tomorrow") {
        MenuCommand::SnoozeUntilMorning
    } else if text_eq(id, "snooze_cancel") {
        MenuCommand::CancelSnooze
    } else if text_eq(id, "open_config") {
        MenuCommand::OpenConfig
    } else if text_eq(id, "reload_config") {
        MenuCommand::ReloadConfig
    } else if text_eq(id, "open_github") {
        MenuCommand::OpenGitHub
    } else if text_eq(id, "quit") {
        MenuCommand::Quit
    } else {
        MenuCommand::Nothing
    }
}

/// Every clickable entry of the tray menu asks for its own command, and the
/// status lines and the submenu entry itself ask for nothing.
pub proof fn law_menu_entries_have_commands()
    ensures
        command_for("check_now"@) == MenuCommand::CheckNow,
        command_for("snooze_30m"@) == (MenuCommand::SnoozeFor { secs: 1800 }),
        command_for("snooze_1h"@) == (MenuCommand::SnoozeFor { secs: 3600 }),
        command_for("snooze_tomorrow"@) == MenuCommand::SnoozeUntilMorning,
        command_for("snooze_cancel"@) == MenuCommand::CancelSnooze,
        command_for("open_config"@) == MenuCommand::OpenConfig,
        command_for("reload_config"@) == MenuCommand::ReloadConfig,
        command_for("open_github"@) == MenuCommand::OpenGitHub,
        command_for("quit"@) == MenuCommand::Quit,
        command_for("status_unread"@) == MenuCommand::Nothing,
        command_for("status_sync"@) == MenuCommand::Nothing,
        command_for("snooze"@) == MenuCommand::Nothing,
{
    reveal_strlit("check_now");
    reveal_strlit("snooze_30m");
    reveal_strlit("snooze_1h");
    reveal_strlit("snooze_tomorrow");
    reveal_strlit("snooze_cancel");
    reveal_strlit("open_config");
    reveal_strlit("reload_config");
    reveal_strlit("open_github");
    reveal_strlit("quit");
    reveal_strlit("status_unread");
    reveal_strlit("status_sync");
    reveal_strlit("snooze");
    assert("check_now"@[0] != "snooze_30m"@[0]);
    assert("check_now"@[0] != "snooze_1h"@[0]);
    assert("check_now"@[0] != "snooze_tomorrow"@[0]);
    assert("check_now"@[0] != "snooze_cancel"@[0]);
    assert("check_now"@[0] != "open_config"@[0]);
    assert("check_now"@[0] != "reload_config"@[0]);
    assert("check_now"@[0] != "open_github"@[0]);
    assert("check_now"@[0] != "quit"@[0]);
    assert("check_now"@[0] != "status_unread"@[0]);
    assert("check_now"@[0] != "status_sync"@[0]);
    assert("check_now"@[0] != "snooze"@[0]);
    assert("snooze_30m"@[7] != "snooze_1h"@[7]);
    assert("snooze_30m"@[7] != "snooze_tomorrow"@[7]);
    assert("snooze_30m"@[7] != "snooze_cancel"@[7]);
    assert("snooze_30m"@[0] != "open_config"@[0]);
    assert("snooze_30m"@[0] != "reload_config"@[0]);
    assert("snooze_30m"@[0] != "open_github"@[0]);
    assert("snooze_30m"@[0] != "quit"@[0]);
    assert("snooze_30m"@[1] != "status_unread"@[1]);
    assert("snooze_30m"@[1] != "status_sync"@[1]);
    assert("snooze_30m"@.len() != "snooze"@.len());
    assert("snooze_1h"@[7] != "snooze_tomorrow"@[7]);
    assert("snooze_1h"@[7] != "snooze_cancel"@[7]);
    assert("snooze_1h"@[0] != "open_config"@[0]);
    assert("snooze_1h"@[0] != "reload_config"@[0]);
    assert("snooze_1h"@[0] != "open_github"@[0]);
    assert("snooze_1h"@[0] != "quit"@[0]);
    assert("snooze_1h"@[1] != "status_unread"@[1]);
    assert("snooze_1h"@[1] != "status_sync"@[1]);
    assert("snooze_1h"@.len() != "snooze"@.len());
    assert("snooze_tomorrow"@[7] != "snooze_cancel"@[7]);
    assert("snooze_tomorrow"@[0] != "open_config"@[0]);
    assert("snooze_tomorrow"@[0] != "reload_config"@[0]);
    assert("snooze_tomorrow"@[0] != "open_github"@[0]);
    assert("snooze_tomorrow"@[0] != "quit"@[0]);
    assert("snooze_tomorrow"@[1] != "status_unread"@[1]);
    assert("snooze_tomorrow"@[1] != "status_sync"@[1]);
    assert("snooze_tomorrow"@.len() != "snooze"@.len());
    assert("snooze_cancel"@[0] != "open_config"@[0]);
    assert("snooze_cancel"@[0] != "reload_config"@[0]);
    assert("snooze_cancel"@[0] != "open_github"@[0]);
    assert("snooze_cancel"@[0] != "quit"@[0]);
    assert("snooze_cancel"@[1] != "status_unread"@[1]);
    assert("snooze_cancel"@[1] != "status_sync"@[1]);
    assert("snooze_cancel"@.len() != "snooze"@.len());
    assert("open_config"@[0] != "reload_config"@[0]);
    assert("open_config"@[5] != "open_github"@[5]);
    assert("open_config"@[0] != "quit"@[0]);
    assert("open_config"@[0] != "status_unread"@[0]);
    assert("open_config"@[0] != "status_sync"@[0]);
    assert("open_config"@[0] != "snooze"@[0]);
    assert("reload_config"@[0] != "open_github"@[0]);
    assert("reload_config"@[0] != "quit"@[0]);
    assert("reload_config"@[0] != "status_unread"@[0]);
    assert("reload_config"@[0] != "status_sync"@[0]);
    assert("reload_config"@[0] != "snooze"@[0]);
    assert("open_github"@[0] != "quit"@[0]);
    assert("open_github"@[0] != "status_unread"@[0]);
    assert("open_github"@[0] != "status_sync"@[0]);
    assert("open_github"@[0] != "snooze"@[0]);
    assert("quit"@[0] != "status_unread"@[0]);
    assert("quit"@[0] != "status_sync"@[0]);
    assert("quit"@[0] != "snooze"@[0]);
    assert("status_unread"@[7] != "status_sync"@[7]);
    assert("status_unread"@[1] != "snooze"@[1]);
    assert("status_sync"@[1] != "snooze"@[1]);
}

/// Nanoseconds in a second.
pub open spec fn nanos_per_sec() -> int {
    1_000_000_000
}

/// The time until the snooze target, in nanoseconds: today's 9:00 when it
/// is still ahead, else tomorrow's 9:00, else (when the local time zone
/// has no such instant) sixteen hours.
pub open spec fn morning_target_nanos(today_9am: Option<i64>, tomorrow_9am: Option<i64>) -> int {
    match today_9am {
        Some(d) if d > 0 => d as int,
        _ => match tomorrow_9am {
            Some(d) => d as int,
            None => 16 * 3600 * nanos_per_sec(),
        },
    }
}

/// A snooze length in whole seconds (rounded toward zero), at least an hour.
pub open spec fn snooze_secs_for(nanos: int) -> int {
    if nanos < 3600 * nanos_per_sec() {
        3600
    } else {
        nanos / nanos_per_sec()
    }
}

/// The length of the "until tomorrow" snooze, in seconds. `today_9am` and
/// `tomorrow_9am` are the nanoseconds from now until 9:00 local time today
/// and tomorrow (`None` where the local time zone has no such instant).
pub fn snooze_until_morning_secs(today_9am: Option<i64>, tomorrow_9am: Option<i64>) -> (secs: u64)
    ensures
        secs == snooze_secs_for(morning_target_nanos(today_9am, tomorrow_9am)),
        secs >= 3600,
{
    let target: i64 = match today_9am {
        Some(d) if d > 0 => d,
        _ => match tomorrow_9am {
            Some(d) => d,
            None => 16 * 3600 * 1_000_000_000,
        },
    };
    if target < 3600 * 1_000_000_000 {
        3600
    } else {
        (target as u64) / 1_000_000_000
    }
}

/// The state the tray icon shows.
#[derive(Debug)]
pub enum TrayStatus {
    Idle,
    Unread { count: usize },
    Error { message: String },
    Paused,
}

/// The tooltip of each tray state.
pub open spec fn tooltip_for(status: TrayStatus) -> Seq<char> {
    match status {
        TrayStatus::Idle => "github-notifier-ws — 未読なし"@,
        TrayStatus::Unread { count } => "github-notifier-ws — "@ + decimal(count as nat)
            + " 件の未読"@,
        TrayStatus::Error { message } => "github-notifier-ws — エラー: "@ + message@,
        TrayStatus::Paused => "github-notifier-ws — 一時停止中"@,
    }
}

/// The tooltip for a tray state.
pub fn tooltip_text(status: &TrayStatus) -> (text: String)
    ensures
        text@ == tooltip_for(*status),
{
    match status {
        TrayStatus::Idle => String::from_str("github-notifier-ws — 未読なし"),
        TrayStatus::Unread { count } => {
            let mut t = String::from_str("github-notifier-ws — ");
            push_decimal(&mut t, *count as u64);
            push_text(&mut t, " 件の未読");
            t
        },
        TrayStatus::Error { message } => {
            let mut t = String::from_str("github-notifier-ws — エラー: ");
            push_text(&mut t, message.as_str());
            t
        },
        TrayStatus::Paused => String::from_str("github-notifier-ws — 一時停止中"),
    }
}

} // verus!
