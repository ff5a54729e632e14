//! GitHub notifications as the API returns them, what one poll response
//! means, and the polling state kept between polls.
use vstd::prelude::*;
use crate::text::{chars_of, push_text, replace_seq, replace_text, string_from_chars};

verus! {

/// The repository a notification belongs to.
#[derive(Debug)]
pub struct Repository {
    /// `owner/repo`.
    pub full_name: String,
}

/// The subject of a notification thread.
#[derive(Debug)]
pub struct Subject {
    pub title: String,
    /// `Issue`, `PullRequest`, `Commit`, `Release`, `Discussion`, ...
    pub subject_type: String,
    /// API URL of the subject.
    pub url: String,
}

/// One notification thread.
#[derive(Debug)]
pub struct Notification {
    pub id: String,
    /// Why the user got it (`mention`, `review_requested`, ...).
    pub reason: String,
    pub unread: bool,
    /// API URL of the thread.
    pub url: String,
    pub repository: Repository,
    pub subject: Subject,
}

impl Clone for Repository {
    fn clone(&self) -> (r: Self)
        ensures
            r == *self,
    {
        Repository { full_name: self.full_name.clone() }
    }
}

impl Clone for Subject {
    fn clone(&self) -> (r: Self)
        ensures
            r == *self,
    {
        Subject {
            title: self.title.clone(),
            subject_type: self.subject_type.clone(),
            url: self.url.clone(),
        }
    }
}

impl Clone for Notification {
    fn clone(&self) -> (r: Self)
        ensures
            r == *self,
    {
        Notification {
            id: self.id.clone(),
            reason: self.reason.clone(),
            unread: self.unread,
            url: self.url.clone(),
            repository: self.repository.clone(),
            subject: self.subject.clone(),
        }
    }
}

/// The part of `s` after its last `/` (all of `s` when it has none).
pub open spec fn last_segment(s: Seq<char>) -> Seq<char>
    decreases s.len(),
{
    if s.len() == 0 {
        s
    } else if s.last() == '/' {
        Seq::empty()
    } else {
        last_segment(s.drop_last()).push(s.last())
    }
}

/// The API prefix of subject URLs and what replaces it in browser URLs.
pub open spec fn api_repos_prefix() -> Seq<char> {
    "https://api.github.com/repos/"@
}

pub open spec fn html_repos_prefix() -> Seq<char> {
    "https://github.com/"@
}

/// The browser URL for an API subject URL:
/// `api.github.com/repos/owner/repo/pulls/1` becomes `github.com/owner/repo/pull/1`.
pub open spec fn subject_html_url(api_url: Seq<char>) -> Seq<char> {
    replace_seq(
        replace_seq(api_url, api_repos_prefix(), html_repos_prefix()),
        "/pulls/"@,
        "/pull/"@,
    )
}

/// Rewrites an API subject URL into the URL a browser opens.
pub fn subject_url_to_html_url(api_url: &str) -> (res: String)
    ensures
        res@ == subject_html_url(api_url@),
{
    proof {
        reveal_strlit("https://api.github.com/repos/");
        reveal_strlit("/pulls/");
    }
    let step = replace_text(api_url, "https://api.github.com/repos/", "https://github.com/");
    replace_text(step.as_str(), "/pulls/", "/pull/")
}

impl Notification {
    /// The thread id: the last path segment of the thread URL.
    pub fn thread_id(&self) -> (res: String)
        ensures
            res@ == last_segment(self.url@),
    {
        let cs = chars_of(self.url.as_str());
        let mut start: usize = cs.len();
        assert(cs@.take(start as int) =~= cs@);
        assert(last_segment(cs@) + cs@.skip(start as int) =~= last_segment(cs@));
        while start > 0 && cs[start - 1] != '/'
            invariant
                start <= cs.len(),
                cs@ == self.url@,
                last_segment(cs@) == last_segment(cs@.take(start as int)) + cs@.skip(
                    start as int,
                ),
            decreases start,
        {
            let ghost p = cs@.take(start as int);
            assert(p.drop_last() =~= cs@.take(start - 1));
            assert(p.last() == cs@[start - 1]);
            assert(cs@.skip(start - 1) =~= seq![cs@[start - 1]] + cs@.skip(start as int));
            assert(last_segment(p) == last_segment(cs@.take(start - 1)).push(cs@[start - 1]));
            assert(last_segment(cs@.take(start - 1)).push(cs@[start - 1]) + cs@.skip(
                start as int,
            ) =~= last_segment(cs@.take(start - 1)) + cs@.skip(start - 1));
            start = start - 1;
        }
        proof {
            let p = cs@.take(start as int);
            if start > 0 {
                assert(p.last() == cs@[start - 1]);
            }
            assert(last_segment(p) =~= Seq::<char>::empty());
            assert(Seq::<char>::empty() + cs@.skip(start as int) =~= cs@.skip(start as int));
        }
        let mut out: Vec<char> = Vec::new();
        let mut k: usize = start;
        while k < cs.len()
            invariant
                start <= k <= cs.len(),
                out@ == cs@.subrange(start as int, k as int),
            decreases cs.len() - k,
        {
            out.push(cs[k]);
            assert(cs@.subrange(start as int, k as int).push(cs@[k as int]) =~= cs@.subrange(
                start as int,
                k + 1,
            ));
            k = k + 1;
        }
        assert(cs@.subrange(start as int, cs.len() as int) =~= cs@.skip(start as int));
        string_from_chars(&out)
    }

    /// The browser URL of the subject.
    pub fn html_url(&self) -> (res: String)
        ensures
            res@ == subject_html_url(self.subject.url@),
    {
        subject_url_to_html_url(self.subject.url.as_str())
    }
}

/// The API URL of a notification thread.
pub open spec fn thread_api_url_of(thread_id: Seq<char>) -> Seq<char> {
    "https://api.github.com/notifications/threads/"@ + thread_id
}

/// The API URL of a thread (marking it read is a `PATCH` on it).
pub fn thread_api_url(thread_id: &str) -> (url: String)
    ensures
        url@ == thread_api_url_of(thread_id@),
{
    let mut url = String::from_str("https://api.github.com/notifications/threads/");
    push_text(&mut url, thread_id);
    url
}

/// The API URL of the subscription to a thread (unsubscribing is a
/// `DELETE` on it).
pub fn subscription_api_url(thread_id: &str) -> (url: String)
    ensures
        url@ == thread_api_url_of(thread_id@) + "/subscription"@,
{
    let mut url = thread_api_url(thread_id);
    push_text(&mut url, "/subscription");
    url
}

} // verus!
