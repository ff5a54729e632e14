//! `github-notifier-ws://` deep links: reading them, and what each one asks for.
use vstd::prelude::*;
use crate::github::{subject_html_url, subject_url_to_html_url};
use crate::parsed_url::{
    pair_views, parse_url, url_host, url_host_of, url_parses, url_path, url_path_of,
    url_query_of, url_query_pairs,
};
use crate::text::{chars_of, opt_view, text_eq};

verus! {

/// What a deep link names.
#[derive(Debug)]
pub enum DeepLink {
    /// `github-notifier-ws://thread/<id>?do=<action>[&repo=<owner/repo>]`
    Thread { thread_id: String, action: String, repo: Option<String> },
    /// `github-notifier-ws://inbox?do=<action>`
    Inbox { action: String },
    /// Any other host, or none.
    UnknownHost { host: Option<String> },
}

/// The value of the first pair whose key is `key`.
pub open spec fn lookup(pairs: Seq<(Seq<char>, Seq<char>)>, key: Seq<char>) -> Option<Seq<char>>
    decreases pairs.len(),
{
    if pairs.len() == 0 {
        None
    } else if pairs[0].0 == key {
        Some(pairs[0].1)
    } else {
        lookup(pairs.skip(1), key)
    }
}

/// `s` without its leading slashes.
pub open spec fn trim_leading_slashes(s: Seq<char>) -> Seq<char>
    decreases s.len(),
{
    if s.len() > 0 && s[0] == '/' {
        trim_leading_slashes(s.skip(1))
    } else {
        s
    }
}

/// The `do` parameter, empty when absent.
pub open spec fn do_param(pairs: Seq<(Seq<char>, Seq<char>)>) -> Seq<char> {
    match lookup(pairs, "do"@) {
        Some(v) => v,
        None => Seq::empty(),
    }
}

/// `d` is what a deep link with this host, path and query names.
pub open spec fn is_deep_link_of(
    d: DeepLink,
    host: Option<Seq<char>>,
    path: Seq<char>,
    pairs: Seq<(Seq<char>, Seq<char>)>,
) -> bool {
    if host == Some("thread"@) {
        d matches DeepLink::Thread { thread_id, action, repo } && thread_id@
            == trim_leading_slashes(path) && action@ == do_param(pairs) && opt_view(repo)
            == lookup(pairs, "repo"@)
    } else if host == Some("inbox"@) {
        d matches DeepLink::Inbox { action } && action@ == do_param(pairs)
    } else {
        d matches DeepLink::UnknownHost { host: h } && opt_view(h) == host
    }
}

/// The value of the first pair with key `key`.
pub fn query_value(pairs: &Vec<(String, String)>, key: &str) -> (res: Option<String>)
    ensures
        opt_view(res) == lookup(pair_views(pairs@), key@),
{
    let mut i: usize = 0;
    let ghost views = pair_views(pairs@);
    assert(views.skip(0) =~= views);
    while i < pairs.len()
        invariant
            i <= pairs@.len(),
            views == pair_views(pairs@),
            lookup(views, key@) == lookup(views.skip(i as int), key@),
        decreases pairs.len() - i,
    {
        let ghost rest = views.skip(i as int);
        assert(rest[0] == (pairs@[i as int].0@, pairs@[i as int].1@));
        if text_eq(pairs[i].0.as_str(), key) {
            return Some(pairs[i].1.clone());
        }
        assert(rest.skip(1) =~= views.skip(i + 1));
        i = i + 1;
    }
    None
}

fn trim_start_slashes(s: &str) -> (res: String)
    ensures
        res@ == trim_leading_slashes(s@),
{
    let cs = chars_of(s);
    let mut i: usize = 0;
    assert(cs@.skip(0) =~= cs@);
    while i < cs.len() && cs[i] == '/'
        invariant
            i <= cs@.len(),
            cs@ == s@,
            trim_leading_slashes(s@) == trim_leading_slashes(cs@.skip(i as int)),
        decreases cs.len() - i,
    {
        assert(cs@.skip(i as int).skip(1) =~= cs@.skip(i + 1));
        i = i + 1;
    }
    proof {
        if i < cs.len() {
            assert(cs@.skip(i as int)[0] == cs@[i as int]);
        }
    }
    let mut out: Vec<char> = Vec::new();
    let start = i;
    while i < cs.len()
        invariant
            start <= i <= cs@.len(),
            out@ == cs@.subrange(start as int, i as int),
        decreases cs.len() - i,
    {
        out.push(cs[i]);
        assert(cs@.subrange(start as int, i as int).push(cs@[i as int]) =~= cs@.subrange(
            start as int,
            i + 1,
        ));
        i = i + 1;
    }
    assert(cs@.subrange(start as int, cs.len() as int) =~= cs@.skip(start as int));
    crate::text::string_from_chars(&out)
}

/// What a deep link with this host, path and query names.
pub fn deep_link_from_parts(host: Option<String>, path: &str, pairs: &Vec<(String, String)>) -> (d: DeepLink)
    ensures
        is_deep_link_of(d, opt_view(host), path@, pair_views(pairs@)),
{
    let action = match query_value(pairs, "do") {
        Some(v) => v,
        None => String::new(),
    };
    proof {
        lemma_action_words_distinct();
    }
    match host {
        Some(h) => {
            if text_eq(h.as_str(), "thread") {
                let thread_id = trim_start_slashes(path);
                let repo = query_value(pairs, "repo");
                DeepLink::Thread { thread_id, action, repo }
            } else if text_eq(h.as_str(), "inbox") {
                DeepLink::Inbox { action }
            } else {
                DeepLink::UnknownHost { host: Some(h) }
            }
        },
        None => DeepLink::UnknownHost { host: None },
    }
}

/// Reads a deep link. `None` when the text is not a URL.
pub fn parse_deep_link(url: &str) -> (res: Option<DeepLink>)
    ensures
        res is None <==> !url_parses(url@),
        res matches Some(d) ==> is_deep_link_of(d, url_host_of(url@), url_path_of(url@), url_query_of(url@)),
{
    let parsed = match parse_url(url) {
        Some(u) => u,
        None => {
            return None;
        },
    };
    let host = url_host(&parsed);
    let path = url_path(&parsed);
    let pairs = url_query_pairs(&parsed);
    let d = deep_link_from_parts(host, path.as_str(), &pairs);
    Some(d)
}

/// A thread link whose decoded query has `do=mute` and `repo=r` names a mute
/// of repository `r`; `thread_command` then answers it with `Mute { repo }`
/// for that very `r`.
pub proof fn law_mute_link_names_repository(
    d: DeepLink,
    path: Seq<char>,
    pairs: Seq<(Seq<char>, Seq<char>)>,
    r: Seq<char>,
)
    requires
        is_deep_link_of(d, Some("thread"@), path, pairs),
        lookup(pairs, "do"@) == Some("mute"@),
        lookup(pairs, "repo"@) == Some(r),
    ensures
        d matches DeepLink::Thread { action, repo, .. } && action@ == "mute"@ && opt_view(repo)
            == Some(r),
{
}

/// What a thread deep link asks for.
#[derive(Debug)]
pub enum ThreadCommand {
    /// Open the thread in the browser.
    Open { thread_id: String },
    /// Mark the thread read on GitHub (always honoured: the user asked).
    MarkRead { thread_id: String },
    /// Append the mute rule for this repository to the configuration.
    Mute { repo: String },
    /// A mute request without a repository: nothing to do.
    MuteWithoutRepo,
    /// An action this program does not know.
    Unknown { action: String },
}

proof fn lemma_action_words_distinct()
    ensures
        "open"@ != "mark_read"@,
        "open"@ != "mute"@,
        "mark_read"@ != "mute"@,
        "open"@ != "mark_all_read"@,
        "thread"@ != "inbox"@,
{
    reveal_strlit("open");
    reveal_strlit("mark_read");
    reveal_strlit("mute");
    reveal_strlit("mark_all_read");
    reveal_strlit("thread");
    reveal_strlit("inbox");
    assert("open"@[0] != "mark_read"@[0]);
    assert("open"@[0] != "mute"@[0]);
    assert("mark_read"@[1] != "mute"@[1]);
    assert("open"@[0] != "mark_all_read"@[0]);
    assert("thread"@[0] != "inbox"@[0]);
}

/// Decides what a thread deep link with action `action` does.
pub fn thread_command(thread_id: String, action: &str, repo: Option<String>) -> (c: ThreadCommand)
    ensures
        action@ == "open"@ ==> c == (ThreadCommand::Open { thread_id }),
        action@ == "mark_read"@ ==> c == (ThreadCommand::MarkRead { thread_id }),
        action@ == "mute"@ ==> match repo {
            Some(r) => c == (ThreadCommand::Mute { repo: r }),
            None => c is MuteWithoutRepo,
        },
        action@ != "open"@ && action@ != "mark_read"@ && action@ != "mute"@ ==> (c matches ThreadCommand::Unknown { action: a } && a@ == action@),
{
    proof {
        lemma_action_words_distinct();
    }
    if text_eq(action, "open") {
        ThreadCommand::Open { thread_id }
    } else if text_eq(action, "mark_read") {
        ThreadCommand::MarkRead { thread_id }
    } else if text_eq(action, "mute") {
        match repo {
            Some(r) => ThreadCommand::Mute { repo: r },
            None => ThreadCommand::MuteWithoutRepo,
        }
    } else {
        ThreadCommand::Unknown { action: String::from_str(action) }
    }
}

/// What an inbox deep link asks for.
#[derive(Debug)]
pub enum InboxCommand {
    /// Open the notifications inbox in the browser.
    OpenInbox,
    /// Mark every notification read on GitHub.
    MarkAllRead,
    /// Marking all read was asked for but destructive actions are off:
    /// open the inbox instead, so the user can decide.
    OpenInboxInstead,
    /// An action this program does not know.
    Unknown { action: String },
}

/// Decides what an inbox deep link with action `action` does.
pub fn inbox_command(action: &str, allow_destructive: bool) -> (c: InboxCommand)
    ensures
        action@ == "open"@ ==> c is OpenInbox,
        action@ == "mark_all_read"@ ==> (if allow_destructive {
            c is MarkAllRead
        } else {
            c is OpenInboxInstead
        }),
        action@ != "open"@ && action@ != "mark_all_read"@ ==> (c matches InboxCommand::Unknown { action: a } && a@ == action@),
{
    proof {
        lemma_action_words_distinct();
    }
    if text_eq(action, "open") {
        InboxCommand::OpenInbox
    } else if text_eq(action, "mark_all_read") {
        if allow_destructive {
            InboxCommand::MarkAllRead
        } else {
            InboxCommand::OpenInboxInstead
        }
    } else {
        InboxCommand::Unknown { action: String::from_str(action) }
    }
}

/// `lookup` gives the value of the first pair with the key, or `None`
/// when no pair has it.
pub proof fn lemma_lookup(pairs: Seq<(Seq<char>, Seq<char>)>, key: Seq<char>)
    ensures
        (forall|j: int| 0 <= j < pairs.len() ==> (#[trigger] pairs[j]).0 != key) ==> lookup(
            pairs,
            key,
        ) is None,
        forall|i: int|
            0 <= i < pairs.len() && (#[trigger] pairs[i]).0 == key && (forall|j: int|
                0 <= j < i ==> (#[trigger] pairs[j]).0 != key) ==> lookup(pairs, key) == Some(
                pairs[i].1,
            ),
    decreases pairs.len(),
{
    if pairs.len() > 0 {
        let rest = pairs.skip(1);
        lemma_lookup(rest, key);
        assert forall|i: int|
            0 <= i < pairs.len() && (#[trigger] pairs[i]).0 == key && (forall|j: int|
                0 <= j < i ==> (#[trigger] pairs[j]).0 != key) implies lookup(pairs, key) == Some(
            pairs[i].1,
        ) by {
            if i > 0 {
                assert(pairs[0].0 != key);
                assert(rest[i - 1] == pairs[i]);
                assert forall|j: int| 0 <= j < i - 1 implies (#[trigger] rest[j]).0 != key by {
                    assert(rest[j] == pairs[j + 1]);
                }
            }
        }
        if forall|j: int| 0 <= j < pairs.len() ==> (#[trigger] pairs[j]).0 != key {
            assert(pairs[0].0 != key);
            assert forall|j: int| 0 <= j < rest.len() implies (#[trigger] rest[j]).0 != key by {
                assert(rest[j] == pairs[j + 1]);
            }
        }
    }
}

/// Subject URLs remembered per thread id, at most one per thread.
pub struct ThreadUrlCache {
    entries: Vec<(String, String)>,
}

/// The map that a list of pairs stands for: each key to the value of its
/// first pair.
pub open spec fn pairs_map(pairs: Seq<(Seq<char>, Seq<char>)>) -> Map<Seq<char>, Seq<char>> {
    Map::new(|k: Seq<char>| lookup(pairs, k) is Some, |k: Seq<char>| lookup(pairs, k).unwrap())
}

impl View for ThreadUrlCache {
    type V = Map<Seq<char>, Seq<char>>;

    /// Thread id to subject API URL.
    closed spec fn view(&self) -> Map<Seq<char>, Seq<char>> {
        pairs_map(pair_views(self.entries@))
    }
}

impl ThreadUrlCache {
    /// No thread id has two entries.
    #[verifier::type_invariant]
    closed spec fn one_entry_per_thread(self) -> bool {
        forall|i: int, j: int|
            0 <= i < j < self.entries@.len() ==> (#[trigger] self.entries@[i]).0@
                != (#[trigger] self.entries@[j]).0@
    }

    /// An empty cache.
    pub fn new() -> (c: ThreadUrlCache)
        ensures
            c@ == Map::<Seq<char>, Seq<char>>::empty(),
    {
        let c = ThreadUrlCache { entries: Vec::new() };
        assert(c@ =~= Map::<Seq<char>, Seq<char>>::empty());
        c
    }

    /// How many threads have a remembered URL.
    pub fn len(&self) -> (n: usize)
        ensures
            n as nat == self@.dom().len(),
            self@.dom().finite(),
    {
        proof {
            use_type_invariant(self);
            lemma_unique_keys_dom(pair_views(self.entries@));
        }
        self.entries.len()
    }

    /// The subject URL remembered for a thread.
    pub fn subject_url(&self, thread_id: &str) -> (res: Option<String>)
        ensures
            opt_view(res) == (if self@.dom().contains(thread_id@) {
                Some(self@[thread_id@])
            } else {
                None
            }),
    {
        query_value(&self.entries, thread_id)
    }

    /// Remembers the subject URL of a thread, replacing what was remembered
    /// for it before.
    pub fn remember(&mut self, thread_id: String, subject_url: String)
        ensures
            final(self)@ == old(self)@.insert(thread_id@, subject_url@),
    {
        proof {
            use_type_invariant(&*self);
        }
        let ghost id = thread_id@;
        let ghost url = subject_url@;
        let ghost before = pair_views(self.entries@);
        let ghost old_entries = self.entries@;
        let mut i: usize = 0;
        while i < self.entries.len()
            invariant
                i <= self.entries@.len(),
                self.entries@ == old_entries,
                thread_id@ == id,
                forall|j: int| 0 <= j < i ==> (#[trigger] self.entries@[j]).0@ != id,
            ensures
                i <= self.entries@.len(),
                self.entries@ == old_entries,
                thread_id@ == id,
                forall|j: int| 0 <= j < i ==> (#[trigger] self.entries@[j]).0@ != id,
                i < self.entries@.len() ==> self.entries@[i as int].0@ == id,
            decreases self.entries.len() - i,
        {
            if text_eq(self.entries[i].0.as_str(), thread_id.as_str()) {
                break;
            }
            i = i + 1;
        }
        let mut entries = Vec::new();
        std::mem::swap(&mut entries, &mut self.entries);
        if i < entries.len() {
            entries.set(i, (thread_id, subject_url));
        } else {
            entries.push((thread_id, subject_url));
        }
        proof {
            let after = pair_views(entries@);
            if i < old_entries.len() {
                assert(after =~= before.update(i as int, (id, url)));
                lemma_lookup(after, id);
                assert(after[i as int].0 == id);
                assert forall|j: int| 0 <= j < i implies (#[trigger] after[j]).0 != id by {
                    assert(after[j] == before[j]);
                }
                assert forall|k: Seq<char>| k != id implies lookup(after, k) == lookup(before, k) by {
                    lemma_same_matches(before, after, k);
                }
                assert forall|a: int, b: int|
                    0 <= a < b < entries@.len() implies (#[trigger] entries@[a]).0@
                    != (#[trigger] entries@[b]).0@ by {
                    assert(old_entries[a].0@ != old_entries[b].0@);
                }
            } else {
                let n = before.len() as int;
                assert(after =~= before.push((id, url)));
                lemma_lookup(after, id);
                assert(after[n].0 == id);
                assert forall|j: int| 0 <= j < n implies (#[trigger] after[j]).0 != id by {
                    assert(after[j] == before[j]);
                }
                assert forall|k: Seq<char>| k != id implies lookup(after, k) == lookup(before, k) by {
                    lemma_push_other_key(before, (id, url), k);
                }
                assert forall|a: int, b: int|
                    0 <= a < b < entries@.len() implies (#[trigger] entries@[a]).0@
                    != (#[trigger] entries@[b]).0@ by {
                    if b < n {
                        assert(old_entries[a].0@ != old_entries[b].0@);
                    } else {
                        assert(entries@[a] == old_entries[a]);
                    }
                }
            }
            assert(pairs_map(after) =~= pairs_map(before).insert(id, url));
        }
        self.entries = entries;
    }
}

/// With one pair per key, the keys are a finite set as large as the list.
proof fn lemma_unique_keys_dom(pairs: Seq<(Seq<char>, Seq<char>)>)
    requires
        forall|i: int, j: int|
            0 <= i < j < pairs.len() ==> (#[trigger] pairs[i]).0 != (#[trigger] pairs[j]).0,
    ensures
        pairs_map(pairs).dom().finite(),
        pairs_map(pairs).dom().len() == pairs.len(),
    decreases pairs.len(),
{
    broadcast use vstd::set::group_set_axioms;

    if pairs.len() == 0 {
        assert(pairs_map(pairs).dom() =~= Set::<Seq<char>>::empty()) by {
            lemma_lookup(pairs, Seq::empty());
            assert forall|k: Seq<char>| !(lookup(pairs, k) is Some) by {
                lemma_lookup(pairs, k);
            }
        }
    } else {
        let init = pairs.drop_last();
        let last = pairs.last();
        assert forall|i: int, j: int|
            0 <= i < j < init.len() implies (#[trigger] init[i]).0 != (#[trigger] init[j]).0 by {
            assert(init[i] == pairs[i] && init[j] == pairs[j]);
        }
        lemma_unique_keys_dom(init);
        assert(pairs =~= init.push(last));
        assert forall|k: Seq<char>| k != last.0 implies lookup(pairs, k) == lookup(init, k) by {
            lemma_push_other_key(init, last, k);
        }
        lemma_lookup(init, last.0);
        assert forall|j: int| 0 <= j < init.len() implies (#[trigger] init[j]).0 != last.0 by {
            assert(pairs[j].0 != pairs[pairs.len() - 1].0);
        }
        lemma_lookup(pairs, last.0);
        assert(pairs[pairs.len() - 1].0 == last.0);
        assert(pairs_map(pairs).dom() =~= pairs_map(init).dom().insert(last.0));
    }
}

/// Two lists that agree on where key `k` stands and on its values there
/// give the same first value for `k`.
proof fn lemma_same_matches(
    a: Seq<(Seq<char>, Seq<char>)>,
    b: Seq<(Seq<char>, Seq<char>)>,
    k: Seq<char>,
)
    requires
        a.len() == b.len(),
        forall|j: int| 0 <= j < a.len() && (a[j].0 == k || b[j].0 == k) ==> a[j] == b[j],
    ensures
        lookup(a, k) == lookup(b, k),
    decreases a.len(),
{
    if a.len() > 0 {
        assert(a[0].0 == k || b[0].0 == k ==> a[0] == b[0]);
        let ra = a.skip(1);
        let rb = b.skip(1);
        assert forall|j: int| 0 <= j < ra.len() && (ra[j].0 == k || rb[j].0 == k) implies ra[j]
            == rb[j] by {
            assert(ra[j] == a[j + 1]);
            assert(rb[j] == b[j + 1]);
        }
        lemma_same_matches(ra, rb, k);
    }
}

/// Appending a pair with another key does not change the first value for `k`.
proof fn lemma_push_other_key(s: Seq<(Seq<char>, Seq<char>)>, p: (Seq<char>, Seq<char>), k: Seq<char>)
    requires
        p.0 != k,
    ensures
        lookup(s.push(p), k) == lookup(s, k),
    decreases s.len(),
{
    if s.len() > 0 {
        assert(s.push(p)[0] == s[0]);
        assert(s.push(p).skip(1) =~= s.skip(1).push(p));
        lemma_push_other_key(s.skip(1), p, k);
    } else {
        assert(s.push(p)[0] == p);
        assert(s.push(p).skip(1) =~= Seq::<(Seq<char>, Seq<char>)>::empty());
        assert(lookup(Seq::<(Seq<char>, Seq<char>)>::empty(), k) is None);
        assert(lookup(s, k) is None);
    }
}

/// The notifications inbox.
pub open spec fn inbox_url() -> Seq<char> {
    "https://github.com/notifications"@
}

/// The browser URL for a thread: from the subject URL cached for it, or the
/// inbox when none is cached. `cache` maps thread ids to subject API URLs.
pub fn resolve_thread_html_url(cache: &ThreadUrlCache, thread_id: &str) -> (url: String)
    ensures
        url@ == (if cache@.dom().contains(thread_id@) {
            subject_html_url(cache@[thread_id@])
        } else {
            inbox_url()
        }),
{
    match cache.subject_url(thread_id) {
        Some(subject_url) => subject_url_to_html_url(subject_url.as_str()),
        None => String::from_str("https://github.com/notifications"),
    }
}

} // verus!
