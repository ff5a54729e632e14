//! One poll of the notifications endpoint: what the response means, the state
//! kept between polls, and what to do with the notifications it brought.
use vstd::prelude::*;
use crate::config::{Action, Config};
use crate::decimal::parse_bounded;
use crate::github::{last_segment, Notification};
use crate::rules::{apply, decided_action};
use crate::text::{chars_of, opt_view};
use crate::decimal::parse_unsigned;

verus! {

// ---------------------------------------------------------------------------
// Deciding what each notification leads to
// ---------------------------------------------------------------------------

/// The action actually taken: destructive actions fall back to `Notify`
/// unless the configuration allows them.
pub open spec fn effective(a: Action, allow_destructive: bool) -> Action {
    match a {
        Action::MarkRead => if allow_destructive {
            Action::MarkRead
        } else {
            Action::Notify
        },
        Action::MarkDone => if allow_destructive {
            Action::MarkDone
        } else {
            Action::Notify
        },
        _ => a,
    }
}

/// The action taken for `n` under `config`.
pub open spec fn taken_action(config: Config, n: Notification) -> Action {
    effective(decided_action(config, n), config.allow_destructive)
}

/// The action actually taken for a decided action.
pub fn effective_action(a: Action, allow_destructive: bool) -> (res: Action)
    ensures
        res == effective(a, allow_destructive),
{
    match a {
        Action::MarkRead | Action::MarkDone => if allow_destructive {
            a
        } else {
            Action::Notify
        },
        _ => a,
    }
}

/// The unread notifications of `ns`, in order, that are to be shown.
pub open spec fn notify_list(config: Config, ns: Seq<Notification>) -> Seq<Notification>
    decreases ns.len(),
{
    if ns.len() == 0 {
        Seq::empty()
    } else {
        let prev = notify_list(config, ns.drop_last());
        let n = ns.last();
        if n.unread && taken_action(config, n) == Action::Notify {
            prev.push(n)
        } else {
            prev
        }
    }
}

/// The calls to make on GitHub for `ns`, in order: the kind (`MarkRead` or
/// `MarkDone`) and the thread id.
pub open spec fn remote_list(config: Config, ns: Seq<Notification>) -> Seq<(Action, Seq<char>)>
    decreases ns.len(),
{
    if ns.len() == 0 {
        Seq::empty()
    } else {
        let prev = remote_list(config, ns.drop_last());
        let n = ns.last();
        let a = taken_action(config, n);
        if n.unread && (a == Action::MarkRead || a == Action::MarkDone) {
            prev.push((a, last_segment(n.url@)))
        } else {
            prev
        }
    }
}

/// How the toasts of one poll are shown.
#[derive(Clone, Copy, Debug, PartialEq, Eq, Structural)]
pub enum Delivery {
    /// Nothing to show: the tray goes idle.
    Idle,
    /// One toast that summarizes them all.
    Bundle,
    /// One toast per notification.
    Individual,
}

/// Bundled from `threshold` toasts on; idle when there are none.
pub open spec fn delivery_for(count: nat, threshold: nat) -> Delivery {
    if count == 0 {
        Delivery::Idle
    } else if count >= threshold {
        Delivery::Bundle
    } else {
        Delivery::Individual
    }
}

/// A call to make on GitHub for one thread.
#[derive(Debug)]
pub struct RemoteAction {
    /// `MarkRead` or `MarkDone`.
    pub kind: Action,
    pub thread_id: String,
}

/// What one poll's notifications lead to.
#[derive(Debug)]
pub struct NotificationPlan {
    /// The notifications to show, in order.
    pub to_notify: Vec<Notification>,
    /// The calls to make on GitHub, in order.
    pub remote_actions: Vec<RemoteAction>,
    /// How the toasts are shown.
    pub delivery: Delivery,
}

pub open spec fn remote_view(r: RemoteAction) -> (Action, Seq<char>) {
    (r.kind, r.thread_id@)
}

/// `plan` is what the notifications `ns` lead to under `config`: the unread
/// ones decided `Notify` are shown in order, the unread ones decided
/// `MarkRead` / `MarkDone` (when allowed) become calls in order, and the
/// toasts are bundled from the threshold on.
pub open spec fn is_plan_for(plan: NotificationPlan, config: Config, ns: Seq<Notification>) -> bool {
    &&& plan.to_notify@ == notify_list(config, ns)
    &&& plan.remote_actions@.map_values(|r: RemoteAction| remote_view(r)) == remote_list(config, ns)
    &&& plan.delivery == delivery_for(plan.to_notify@.len(), config.bundle_threshold as nat)
}

/// Decides, for the notifications of one poll, which are shown, which lead
/// to a call on GitHub, and how the toasts are delivered. Read
/// notifications are left alone.
pub fn plan_notifications(config: &Config, notifications: &Vec<Notification>) -> (plan: NotificationPlan)
    ensures
        is_plan_for(plan, *config, notifications@),
{
    let mut to_notify: Vec<Notification> = Vec::new();
    let mut remote_actions: Vec<RemoteAction> = Vec::new();
    let mut i: usize = 0;
    while i < notifications.len()
        invariant
            i <= notifications@.len(),
            to_notify@ == notify_list(*config, notifications@.take(i as int)),
            remote_actions@.map_values(|r: RemoteAction| remote_view(r)) == remote_list(
                *config,
                notifications@.take(i as int),
            ),
        decreases notifications.len() - i,
    {
        let n = &notifications[i];
        let ghost prefix = notifications@.take(i as int);
        let ghost next = notifications@.take(i + 1);
        assert(next.drop_last() =~= prefix);
        assert(next.last() == *n);
        let ghost remote_before = remote_actions@;
        if n.unread {
            let taken = effective_action(apply(config, n), config.allow_destructive);
            match taken {
                Action::Notify => {
                    to_notify.push(n.clone());
                },
                Action::MarkRead | Action::MarkDone => {
                    let thread_id = n.thread_id();
                    remote_actions.push(RemoteAction { kind: taken, thread_id });
                    assert(remote_actions@.map_values(|r: RemoteAction| remote_view(r))
                        =~= remote_before.map_values(|r: RemoteAction| remote_view(r)).push(
                        (taken, last_segment(n.url@)),
                    ));
                },
                Action::Ignore => {},
            }
        }
        i = i + 1;
    }
    assert(notifications@.take(notifications.len() as int) =~= notifications@);
    let delivery = if to_notify.len() == 0 {
        Delivery::Idle
    } else if to_notify.len() >= config.bundle_threshold {
        Delivery::Bundle
    } else {
        Delivery::Individual
    };
    NotificationPlan { to_notify, remote_actions, delivery }
}

// ---------------------------------------------------------------------------
// Reading a poll response
// ---------------------------------------------------------------------------

/// What a poll response means, judged from its status and headers.
#[derive(Debug)]
pub enum PollResponse {
    /// `304 Not Modified`: nothing new since the last poll.
    NotModified,
    /// A client or server error status (400 to 599).
    Failed { status: u16 },
    /// The body holds the notifications.
    Content {
        /// The `Last-Modified` header, for the next conditional request.
        last_modified: Option<String>,
        /// The `X-Poll-Interval` header, in seconds (60 when absent or unreadable).
        server_poll_interval: u64,
        /// The `X-RateLimit-Remaining` header, when present and readable.
        rate_remaining: Option<u32>,
    },
}

/// The default server poll interval, in seconds.
pub open spec fn default_server_interval() -> u64 {
    60
}

/// The `X-Poll-Interval` header read as seconds, 60 when absent or unreadable.
pub open spec fn poll_interval_of(header: Option<Seq<char>>) -> u64 {
    match header {
        Some(h) => match parse_bounded(h, u64::MAX as nat) {
            Some(v) => v as u64,
            None => default_server_interval(),
        },
        None => default_server_interval(),
    }
}

/// The `X-RateLimit-Remaining` header read as a count, when it can be.
pub open spec fn rate_remaining_of(header: Option<Seq<char>>) -> Option<u32> {
    match header {
        Some(h) => match parse_bounded(h, u32::MAX as nat) {
            Some(v) => Some(v as u32),
            None => None,
        },
        None => None,
    }
}

/// Reads the `X-Poll-Interval` header.
pub fn parse_poll_interval(header: &Option<String>) -> (secs: u64)
    ensures
        secs == poll_interval_of(opt_view(*header)),
{
    match header {
        Some(h) => {
            let cs = chars_of(h.as_str());
            match parse_unsigned(&cs, u64::MAX) {
                Some(v) => v,
                None => 60,
            }
        },
        None => 60,
    }
}

/// Reads the `X-RateLimit-Remaining` header.
pub fn parse_rate_remaining(header: &Option<String>) -> (rate: Option<u32>)
    ensures
        rate == rate_remaining_of(opt_view(*header)),
{
    match header {
        Some(h) => {
            let cs = chars_of(h.as_str());
            match parse_unsigned(&cs, u32::MAX as u64) {
                Some(v) => Some(v as u32),
                None => None,
            }
        },
        None => None,
    }
}

/// Judges a poll response from its status code and the three headers that
/// matter (each given when present and readable as text).
pub fn interpret_poll_response(
    status: u16,
    last_modified: Option<String>,
    poll_interval: Option<String>,
    rate_remaining: Option<String>,
) -> (res: PollResponse)
    ensures
        status == 304 ==> res is NotModified,
        status != 304 && 400 <= status <= 599 ==> res == (PollResponse::Failed { status }),
        status != 304 && !(400 <= status <= 599) ==> res == (PollResponse::Content {
            last_modified,
            server_poll_interval: poll_interval_of(opt_view(poll_interval)),
            rate_remaining: rate_remaining_of(opt_view(rate_remaining)),
        }),
{
    let server_poll_interval = parse_poll_interval(&poll_interval);
    let rate = parse_rate_remaining(&rate_remaining);
    if status == 304 {
        PollResponse::NotModified
    } else if 400 <= status && status <= 599 {
        PollResponse::Failed { status }
    } else {
        PollResponse::Content { last_modified, server_poll_interval, rate_remaining: rate }
    }
}

/// The result of a poll that brought notifications.
#[derive(Debug)]
pub struct PollResult {
    pub notifications: Vec<Notification>,
    pub last_modified: Option<String>,
    pub server_poll_interval: u64,
    pub rate_remaining: Option<u32>,
}

// ---------------------------------------------------------------------------
// State kept between polls
// ---------------------------------------------------------------------------

/// What the poller remembers from one poll to the next.
#[derive(Debug)]
pub struct PollState {
    /// `Last-Modified` of the last response, sent as `If-Modified-Since`.
    pub last_modified: Option<String>,
    /// The interval the server asked for, in seconds.
    pub server_poll_interval: u64,
    /// The last known API rate-limit remainder.
    pub api_rate_remaining: Option<u32>,
    /// How many toasts the last poll produced.
    pub unread_count: usize,
}

fn clone_opt_string(o: &Option<String>) -> (res: Option<String>)
    ensures
        opt_view(res) == opt_view(*o),
{
    match o {
        Some(s) => Some(s.clone()),
        None => None,
    }
}

impl PollState {
    /// The state before the first poll.
    pub fn new() -> (s: PollState)
        ensures
            s.last_modified is None,
            s.server_poll_interval == 60,
            s.api_rate_remaining is None,
            s.unread_count == 0,
    {
        PollState {
            last_modified: None,
            server_poll_interval: 60,
            api_rate_remaining: None,
            unread_count: 0,
        }
    }

    /// Takes in the headers of a poll that brought notifications. A missing
    /// rate-limit header keeps the last known value.
    pub fn record_poll(&mut self, result: &PollResult)
        ensures
            opt_view(final(self).last_modified) == opt_view(result.last_modified),
            final(self).server_poll_interval == result.server_poll_interval,
            final(self).api_rate_remaining == (match result.rate_remaining {
                Some(r) => Some(r),
                None => old(self).api_rate_remaining,
            }),
            final(self).unread_count == old(self).unread_count,
    {
        self.last_modified = clone_opt_string(&result.last_modified);
        self.server_poll_interval = result.server_poll_interval;
        if let Some(r) = result.rate_remaining {
            self.api_rate_remaining = Some(r);
        }
    }

    /// Forgets `Last-Modified`, so that the next poll fetches everything.
    pub fn force_refresh(&mut self)
        ensures
            final(self).last_modified is None,
            final(self).server_poll_interval == old(self).server_poll_interval,
            final(self).api_rate_remaining == old(self).api_rate_remaining,
            final(self).unread_count == old(self).unread_count,
    {
        self.last_modified = None;
    }

    /// Seconds to wait before the next poll: the server's interval, but no
    /// less than the configured lower bound.
    pub fn poll_wait_secs(&self, config: &Config) -> (secs: u64)
        ensures
            secs == wait_secs(self.server_poll_interval, config.poll_interval),
            secs >= self.server_poll_interval,
            secs >= config.poll_interval,
    {
        if self.server_poll_interval >= config.poll_interval {
            self.server_poll_interval
        } else {
            config.poll_interval
        }
    }
}

// ---------------------------------------------------------------------------
// One turn of the polling loop
// ---------------------------------------------------------------------------

/// What happened in one turn of the polling loop.
#[derive(Debug)]
pub enum PollEvent {
    /// Notifications are snoozed; nothing was fetched.
    Snoozed,
    /// No token is stored; nothing was fetched.
    TokenMissing,
    /// The server had nothing new.
    NotModified,
    /// The server sent notifications.
    Fetched { result: PollResult },
    /// The request or the response failed.
    Failed { message: String },
}

/// What to do after one turn of the polling loop.
#[derive(Debug)]
pub struct PollStep {
    /// The notifications to act on, when some came.
    pub plan: Option<NotificationPlan>,
    /// An error to show in the tray.
    pub error: Option<String>,
    /// Whether the server answered (the last-sync time moves on).
    pub synced: bool,
    /// How long to sleep before the next turn, in seconds.
    pub sleep_secs: u64,
}

/// Seconds to wait between polls: the server's interval, but no less than
/// the configured lower bound.
pub open spec fn wait_secs(server_interval: u64, config_interval: u64) -> u64 {
    if server_interval >= config_interval {
        server_interval
    } else {
        config_interval
    }
}

/// Seconds to wait before looking for a token again.
pub open spec fn token_retry_secs() -> u64 {
    60
}

/// The tray error shown while no token is stored.
pub open spec fn missing_token_message() -> Seq<char> {
    "認証エラー: トークンが設定されていません"@
}

/// Decides one turn of the polling loop: updates the poller's state with
/// what happened and says what to do next.
pub fn poll_step(state: &mut PollState, config: &Config, event: PollEvent) -> (step: PollStep)
    ensures
        match event {
            PollEvent::Snoozed => {
                &&& *final(state) == *old(state)
                &&& step.plan is None && step.error is None && !step.synced
                &&& step.sleep_secs == wait_secs(old(state).server_poll_interval, config.poll_interval)
            },
            PollEvent::TokenMissing => {
                &&& *final(state) == *old(state)
                &&& step.plan is None && !step.synced
                &&& step.error matches Some(m) && m@ == missing_token_message()
                &&& step.sleep_secs == token_retry_secs()
            },
            PollEvent::NotModified => {
                &&& *final(state) == *old(state)
                &&& step.plan is None && step.error is None && step.synced
                &&& step.sleep_secs == wait_secs(old(state).server_poll_interval, config.poll_interval)
            },
            PollEvent::Failed { message } => {
                &&& *final(state) == *old(state)
                &&& step.plan is None && !step.synced
                &&& step.error == Some(message)
                &&& step.sleep_secs == wait_secs(old(state).server_poll_interval, config.poll_interval)
            },
            PollEvent::Fetched { result } => {
                &&& opt_view(final(state).last_modified) == opt_view(result.last_modified)
                &&& final(state).server_poll_interval == result.server_poll_interval
                &&& final(state).api_rate_remaining == (match result.rate_remaining {
                    Some(r) => Some(r),
                    None => old(state).api_rate_remaining,
                })
                &&& step.plan matches Some(p) && is_plan_for(p, *config, result.notifications@)
                    && final(state).unread_count == p.to_notify@.len()
                &&& step.error is None && step.synced
                &&& step.sleep_secs == wait_secs(result.server_poll_interval, config.poll_interval)
            },
        },
{
    match event {
        PollEvent::Snoozed => PollStep {
            plan: None,
            error: None,
            synced: false,
            sleep_secs: state.poll_wait_secs(config),
        },
        PollEvent::TokenMissing => PollStep {
            plan: None,
            error: Some(String::from_str("認証エラー: トークンが設定されていません")),
            synced: false,
            sleep_secs: 60,
        },
        PollEvent::NotModified => PollStep {
            plan: None,
            error: None,
            synced: true,
            sleep_secs: state.poll_wait_secs(config),
        },
        PollEvent::Failed { message } => PollStep {
            plan: None,
            error: Some(message),
            synced: false,
            sleep_secs: state.poll_wait_secs(config),
        },
        PollEvent::Fetched { result } => {
            state.record_poll(&result);
            let plan = plan_notifications(config, &result.notifications);
            state.unread_count = plan.to_notify.len();
            let sleep_secs = state.poll_wait_secs(config);
            PollStep { plan: Some(plan), error: None, synced: true, sleep_secs }
        },
    }
}

/// The configured `bundle_threshold` decides the delivery: with no toasts
/// the tray goes idle; otherwise the toasts are bundled exactly when there
/// are at least `bundle_threshold` of them, and shown one by one when there
/// are fewer.
pub proof fn law_bundle_threshold(plan: NotificationPlan, config: Config, ns: Seq<Notification>)
    requires
        is_plan_for(plan, config, ns),
    ensures
        plan.delivery == Delivery::Idle <==> plan.to_notify@.len() == 0,
        plan.to_notify@.len() > 0 ==> (plan.delivery == Delivery::Bundle
            <==> plan.to_notify@.len() >= config.bundle_threshold),
        plan.to_notify@.len() > 0 && plan.to_notify@.len() < config.bundle_threshold
            ==> plan.delivery == Delivery::Individual,
{
}

/// A read notification leads to nothing: neither a toast nor a call on
/// GitHub, wherever it stands in the list.
pub proof fn law_read_notifications_are_left_alone(
    config: Config,
    ns: Seq<Notification>,
    n: Notification,
)
    requires
        !n.unread,
    ensures
        notify_list(config, ns.push(n)) == notify_list(config, ns),
        remote_list(config, ns.push(n)) == remote_list(config, ns),
{
    assert(ns.push(n).drop_last() =~= ns);
}

/// Every notification that is shown is unread and was decided `Notify` (or a
/// destructive action that is not allowed).
pub proof fn law_shown_are_unread_and_notified(config: Config, ns: Seq<Notification>)
    ensures
        forall|k: int|
            0 <= k < notify_list(config, ns).len() ==> (#[trigger] notify_list(config, ns)[k]).unread
                && taken_action(config, notify_list(config, ns)[k]) == Action::Notify,
    decreases ns.len(),
{
    if ns.len() > 0 {
        law_shown_are_unread_and_notified(config, ns.drop_last());
    }
}

/// Destructive actions are only taken when the configuration allows them;
/// otherwise they fall back to showing a toast.
pub proof fn law_destructive_needs_opt_in(a: Action, allow_destructive: bool)
    ensures
        !allow_destructive ==> effective(a, allow_destructive) != Action::MarkRead
            && effective(a, allow_destructive) != Action::MarkDone,
        !allow_destructive && (a == Action::MarkRead || a == Action::MarkDone) ==> effective(
            a,
            allow_destructive,
        ) == Action::Notify,
        allow_destructive ==> effective(a, allow_destructive) == a,
        a == Action::Notify || a == Action::Ignore ==> effective(a, allow_destructive) == a,
{
}

} // verus!
