//! The text of the toasts: XML escaping, human-readable labels, and the toast
//! documents for one notification, a bundle, a configuration error and a
//! successful reload.
use vstd::prelude::*;
use vstd::string::StringSliceAdditionalSpecFns;
use vstd::utf8::encode_utf8;
use crate::decimal::{decimal, parse_bounded, parse_unsigned, push_decimal};
use crate::github::{last_segment, Notification};
use crate::text::{
    chars_of, contains_seq, find_chars, first_word, first_word_from, is_first_occurrence, join_seq,
    join_texts, push_text, text_eq, trim_end_char, trim_end_chars, views,
};

verus! {

// ---------------------------------------------------------------------------
// Escaping
// ---------------------------------------------------------------------------

/// The XML text for one character: `&`, `<`, `>` and `"` become entities.
pub open spec fn escape_char(c: char) -> Seq<char> {
    if c == '&' {
        "&amp;"@
    } else if c == '<' {
        "&lt;"@
    } else if c == '>' {
        "&gt;"@
    } else if c == '"' {
        "&quot;"@
    } else {
        seq![c]
    }
}

/// `s` made safe to put inside XML text or an attribute.
pub open spec fn escape_xml(s: Seq<char>) -> Seq<char>
    decreases s.len(),
{
    if s.len() == 0 {
        Seq::empty()
    } else {
        escape_xml(s.drop_last()) + escape_char(s.last())
    }
}

/// Escapes `&`, `<`, `>` and `"` for XML.
pub fn escape(s: &str) -> (res: String)
    ensures
        res@ == escape_xml(s@),
{
    let cs = chars_of(s);
    let mut out = String::new();
    let mut i: usize = 0;
    while i < cs.len()
        invariant
            i <= cs@.len(),
            cs@ == s@,
            out@ == escape_xml(cs@.take(i as int)),
        decreases cs.len() - i,
    {
        let c = cs[i];
        let ghost next = cs@.take(i + 1);
        assert(next.drop_last() =~= cs@.take(i as int));
        assert(next.last() == c);
        if c == '&' {
            push_text(&mut out, "&amp;");
        } else if c == '<' {
            push_text(&mut out, "&lt;");
        } else if c == '>' {
            push_text(&mut out, "&gt;");
        } else if c == '"' {
            push_text(&mut out, "&quot;");
        } else {
            crate::text::push_char(&mut out, c);
            assert(escape_xml(cs@.take(i as int)).push(c) =~= escape_xml(cs@.take(i as int))
                + seq![c]);
        }
        i = i + 1;
    }
    assert(cs@.take(cs.len() as int) =~= cs@);
    out
}

/// Escaped text holds no `<`, `>` or `"`, so it cannot open or close a tag
/// or end an attribute value.
pub proof fn law_escaped_text_is_inert(s: Seq<char>)
    ensures
        forall|k: int|
            0 <= k < escape_xml(s).len() ==> #[trigger] escape_xml(s)[k] != '<' && escape_xml(
                s,
            )[k] != '>' && escape_xml(s)[k] != '"',
    decreases s.len(),
{
    if s.len() > 0 {
        law_escaped_text_is_inert(s.drop_last());
        reveal_strlit("&amp;");
        reveal_strlit("&lt;");
        reveal_strlit("&gt;");
        reveal_strlit("&quot;");
        let prev = escape_xml(s.drop_last());
        let tail = escape_char(s.last());
        assert forall|k: int| 0 <= k < tail.len() implies tail[k] != '<' && tail[k] != '>'
            && tail[k] != '"' by {}
        assert forall|k: int| 0 <= k < escape_xml(s).len() implies #[trigger] escape_xml(s)[k]
            != '<' && escape_xml(s)[k] != '>' && escape_xml(s)[k] != '"' by {
            if k < prev.len() {
                assert(escape_xml(s)[k] == prev[k]);
            } else {
                assert(escape_xml(s)[k] == tail[k - prev.len()]);
            }
        }
    }
}

// ---------------------------------------------------------------------------
// Labels
// ---------------------------------------------------------------------------

/// The label shown for a notification reason; an unknown reason is shown as is.
pub open spec fn reason_label(r: Seq<char>) -> Seq<char> {
    if r == "mention"@ {
        "あなたがメンションされました"@
    } else if r == "review_requested"@ {
        "レビュー依頼"@
    } else if r == "assign"@ {
        "あなたがアサインされました"@
    } else if r == "ci_activity"@ {
        "CI 結果"@
    } else if r == "team_mention"@ {
        "チームメンション"@
    } else if r == "state_change"@ {
        "状態変更"@
    } else if r == "security_alert"@ {
        "セキュリティアラート"@
    } else if r == "subscribed"@ {
        "サブスクリプション"@
    } else {
        r
    }
}

/// The label shown for a subject type; an unknown type is shown as is.
pub open spec fn subject_type_label(t: Seq<char>) -> Seq<char> {
    if t == "PullRequest"@ {
        "プルリクエスト"@
    } else if t == "Issue"@ {
        "Issue"@
    } else if t == "Commit"@ {
        "コミット"@
    } else if t == "Release"@ {
        "リリース"@
    } else if t == "Discussion"@ {
        "ディスカッション"@
    } else {
        t
    }
}

/// The label for a notification reason.
pub fn reason_human(r: &str) -> (res: String)
    ensures
        res@ == reason_label(r@),
{
    if text_eq(r, "mention") {
        String::from_str("あなたがメンションされました")
    } else if text_eq(r, "review_requested") {
        String::from_str("レビュー依頼")
    } else if text_eq(r, "assign") {
        String::from_str("あなたがアサインされました")
    } else if text_eq(r, "ci_activity") {
        String::from_str("CI 結果")
    } else if text_eq(r, "team_mention") {
        String::from_str("チームメンション")
    } else if text_eq(r, "state_change") {
        String::from_str("状態変更")
    } else if text_eq(r, "security_alert") {
        String::from_str("セキュリティアラート")
    } else if text_eq(r, "subscribed") {
        String::from_str("サブスクリプション")
    } else {
        String::from_str(r)
    }
}

/// The label for a subject type.
pub fn subject_type_human(t: &str) -> (res: String)
    ensures
        res@ == subject_type_label(t@),
{
    if text_eq(t, "PullRequest") {
        String::from_str("プルリクエスト")
    } else if text_eq(t, "Issue") {
        String::from_str("Issue")
    } else if text_eq(t, "Commit") {
        String::from_str("コミット")
    } else if text_eq(t, "Release") {
        String::from_str("リリース")
    } else if text_eq(t, "Discussion") {
        String::from_str("ディスカッション")
    } else {
        String::from_str(t)
    }
}

// ---------------------------------------------------------------------------
// Line numbers in parser messages
// ---------------------------------------------------------------------------

/// The line number that a YAML parser message gives: the first word after
/// the first `line `, without trailing commas, read as a `usize`.
pub open spec fn line_number_in(msg: Seq<char>) -> Option<nat> {
    if exists|i: int| is_first_occurrence(msg, "line "@, i) {
        let i = choose|i: int| is_first_occurrence(msg, "line "@, i);
        match first_word(msg.skip(i + "line "@.len())) {
            Some(w) => parse_bounded(trim_end_char(w, ','), usize::MAX as nat),
            None => None,
        }
    } else {
        None
    }
}

/// Finds the line number in a YAML parser message such as
/// `... at line 5 column 3`.
pub fn extract_line_number(msg: &str) -> (res: Option<usize>)
    ensures
        res matches Some(n) ==> line_number_in(msg@) == Some(n as nat),
        res is None ==> line_number_in(msg@) is None,
{
    let cs = chars_of(msg);
    let pat = chars_of("line ");
    proof {
        reveal_strlit("line ");
    }
    let idx = match find_chars(&cs, &pat) {
        Some(i) => i,
        None => {
            return None;
        },
    };
    proof {
        assert(crate::text::occurs_at(cs@, pat@, idx as int));
        assert(idx + pat@.len() <= cs@.len());
        assert forall|k: int| is_first_occurrence(cs@, pat@, k) implies k == idx by {
            if k < idx {
                assert(!crate::text::occurs_at(cs@, pat@, k));
            } else if k > idx {
                assert(!crate::text::occurs_at(cs@, pat@, idx as int));
            }
        }
    }
    let plen = pat.len();
    let clen = cs.len();
    assert(idx + plen <= clen);
    let word = match first_word_from(&cs, idx + plen) {
        Some(w) => w,
        None => {
            return None;
        },
    };
    let trimmed = trim_end_chars(&word, ',');
    match parse_unsigned(&trimmed, usize::MAX as u64) {
        Some(v) => Some(v as usize),
        None => None,
    }
}

/// The line number is read after the leftmost `line ` of the message: when
/// `line ` starts at `i` and nowhere before, the result is the number written
/// by the first word after it (trailing commas dropped), whatever other
/// `line ` follow.
pub proof fn law_line_number_follows_first_line_word(msg: Seq<char>, i: int)
    requires
        crate::text::occurs_at(msg, "line "@, i),
        forall|j: int| 0 <= j < i ==> !crate::text::occurs_at(msg, "line "@, j),
    ensures
        line_number_in(msg) == match first_word(msg.skip(i + "line "@.len())) {
            Some(w) => parse_bounded(trim_end_char(w, ','), usize::MAX as nat),
            None => None,
        },
{
    assert(is_first_occurrence(msg, "line "@, i));
    let k = choose|k: int| is_first_occurrence(msg, "line "@, k);
    assert(k == i) by {
        if k < i {
            assert(!crate::text::occurs_at(msg, "line "@, k));
        } else if k > i {
            assert(!crate::text::occurs_at(msg, "line "@, i));
        }
    }
}

// ---------------------------------------------------------------------------
// Percent-encoding
// ---------------------------------------------------------------------------

/// The bytes that percent-encoding leaves alone: ASCII letters and digits,
/// `-`, `.`, `_` and `~`.
pub open spec fn is_unreserved_byte(b: u8) -> bool {
    ||| 48 <= b <= 57
    ||| 65 <= b <= 90
    ||| 97 <= b <= 122
    ||| b == 45
    ||| b == 46
    ||| b == 95
    ||| b == 126
}

/// The upper-case hexadecimal digit for `d` (`d < 16`).
pub open spec fn hex_digit(d: u8) -> char {
    if d < 10 {
        (48 + d) as char
    } else {
        (55 + d) as char
    }
}

/// The encoding of one byte: itself when unreserved, else `%XX`.
pub open spec fn encode_byte(b: u8) -> Seq<char> {
    if is_unreserved_byte(b) {
        seq![b as char]
    } else {
        seq!['%', hex_digit(b / 16), hex_digit(b % 16)]
    }
}

/// The percent-encoding of a byte string.
pub open spec fn percent_encode(bytes: Seq<u8>) -> Seq<char>
    decreases bytes.len(),
{
    if bytes.len() == 0 {
        Seq::empty()
    } else {
        percent_encode(bytes.drop_last()) + encode_byte(bytes.last())
    }
}

/// Percent-encodes `s` (`urlencoding::encode`): every byte of its UTF-8
/// form except ASCII letters, digits, `-`, `.`, `_` and `~` becomes `%XX`
/// with upper-case hex digits. Claimed: exactly that, as `percent_encode`
/// states over the UTF-8 bytes of `s`.
#[verifier::external_body]
fn url_encode(s: &str) -> (res: String)
    ensures
        res@ == percent_encode(s.spec_bytes()),
{
    urlencoding::encode(s).into_owned()
}

// ---------------------------------------------------------------------------
// Toast documents
// ---------------------------------------------------------------------------

/// The toast for a single notification, with its three actions
/// (open, mark read, mute the repository).
pub open spec fn notification_toast(n: Notification) -> Seq<char> {
    let id = last_segment(n.url@);
    "<toast activationType=\"protocol\" launch=\"github-notifier-ws://thread/"@ + id
        + "?do=open\" duration=\"long\">\n  <visual>\n    <binding template=\"ToastGeneric\">\n      <text>"@
        + escape_xml(n.repository.full_name@) + "</text>\n      <text>"@ + escape_xml(
        reason_label(n.reason@),
    ) + " · "@ + escape_xml(subject_type_label(n.subject.subject_type@))
        + "</text>\n      <text>"@ + escape_xml(n.subject.title@)
        + "</text>\n    </binding>\n  </visual>\n  <actions>\n    <action content=\"開く\" arguments=\"github-notifier-ws://thread/"@
        + id
        + "?do=open\" activationType=\"protocol\"/>\n    <action content=\"既読にする\" arguments=\"github-notifier-ws://thread/"@
        + id
        + "?do=mark_read\" activationType=\"protocol\"/>\n    <action content=\"このリポジトリをミュート\" arguments=\"github-notifier-ws://thread/"@
        + id + "?do=mute&amp;repo="@ + percent_encode(encode_utf8(n.repository.full_name@))
        + "\" activationType=\"protocol\"/>\n  </actions>\n</toast>"@
}

/// The toast document for one notification.
pub fn notification_xml(notif: &Notification) -> (xml: String)
    ensures
        xml@ == notification_toast(*notif),
{
    let id = notif.thread_id();
    let repo = escape(notif.repository.full_name.as_str());
    let reason_text = reason_human(notif.reason.as_str());
    let reason = escape(reason_text.as_str());
    let stype_text = subject_type_human(notif.subject.subject_type.as_str());
    let stype = escape(stype_text.as_str());
    let title = escape(notif.subject.title.as_str());
    let repo_enc = url_encode(notif.repository.full_name.as_str());
    let mut xml = String::from_str(
        "<toast activationType=\"protocol\" launch=\"github-notifier-ws://thread/",
    );
    push_text(&mut xml, id.as_str());
    push_text(
        &mut xml,
        "?do=open\" duration=\"long\">\n  <visual>\n    <binding template=\"ToastGeneric\">\n      <text>",
    );
    push_text(&mut xml, repo.as_str());
    push_text(&mut xml, "</text>\n      <text>");
    push_text(&mut xml, reason.as_str());
    push_text(&mut xml, " · ");
    push_text(&mut xml, stype.as_str());
    push_text(&mut xml, "</text>\n      <text>");
    push_text(&mut xml, title.as_str());
    push_text(
        &mut xml,
        "</text>\n    </binding>\n  </visual>\n  <actions>\n    <action content=\"開く\" arguments=\"github-notifier-ws://thread/",
    );
    push_text(&mut xml, id.as_str());
    push_text(
        &mut xml,
        "?do=open\" activationType=\"protocol\"/>\n    <action content=\"既読にする\" arguments=\"github-notifier-ws://thread/",
    );
    push_text(&mut xml, id.as_str());
    push_text(
        &mut xml,
        "?do=mark_read\" activationType=\"protocol\"/>\n    <action content=\"このリポジトリをミュート\" arguments=\"github-notifier-ws://thread/",
    );
    push_text(&mut xml, id.as_str());
    push_text(&mut xml, "?do=mute&amp;repo=");
    push_text(&mut xml, repo_enc.as_str());
    push_text(&mut xml, "\" activationType=\"protocol\"/>\n  </actions>\n</toast>");
    xml
}

/// Text that holds none of `&`, `<`, `>` and `"` is left as it is by escaping.
proof fn lemma_escape_plain(s: Seq<char>)
    requires
        forall|k: int|
            0 <= k < s.len() ==> #[trigger] s[k] != '&' && s[k] != '<' && s[k] != '>' && s[k]
                != '"',
    ensures
        escape_xml(s) == s,
    decreases s.len(),
{
    if s.len() > 0 {
        lemma_escape_plain(s.drop_last());
        assert(s.drop_last() + seq![s.last()] =~= s);
    }
}

/// When `a + q + b` occurs in `s`, so does `q`.
proof fn lemma_contains_middle(s: Seq<char>, a: Seq<char>, q: Seq<char>, b: Seq<char>)
    requires
        contains_seq(s, a + q + b),
    ensures
        contains_seq(s, q),
{
    let p = a + q + b;
    let k = choose|k: int| crate::text::occurs_at(s, p, k);
    assert(s.subrange(k + a.len(), k + a.len() + q.len()) =~= q) by {
        assert forall|m: int| 0 <= m < q.len() implies s[k + a.len() + m] == q[m] by {
            assert(s.subrange(k, k + p.len())[a.len() + m] == p[a.len() + m]);
        }
    }
    assert(crate::text::occurs_at(s, q, k + a.len()));
}

/// The start of the toast for `n`, up to the first action's link.
spec fn toast_head(n: Notification) -> Seq<char> {
    "<toast activationType=\"protocol\" launch=\"github-notifier-ws://thread/"@ + last_segment(
        n.url@,
    )
        + "?do=open\" duration=\"long\">\n  <visual>\n    <binding template=\"ToastGeneric\">\n      <text>"@
        + escape_xml(n.repository.full_name@) + "</text>\n      <text>"@ + escape_xml(
        reason_label(n.reason@),
    ) + " · "@ + escape_xml(
        subject_type_label(n.subject.subject_type@),
    ) + "</text>\n      <text>"@ + escape_xml(n.subject.title@)
        + "</text>\n    </binding>\n  </visual>\n  <actions>\n    <action content=\"開く\" arguments=\"github-notifier-ws://thread/"@
}

proof fn lemma_toast_starts_with_head(n: Notification)
    ensures
        notification_toast(n).subrange(0, toast_head(n).len() as int) == toast_head(n),
{
    assert(notification_toast(n).subrange(0, toast_head(n).len() as int) =~= toast_head(n));
}

/// Where `<text>` and `</text>` stand inside the fixed pieces of the head.
proof fn lemma_head_pieces()
    ensures
        "?do=open\" duration=\"long\">\n  <visual>\n    <binding template=\"ToastGeneric\">\n      <text>"@
            == "?do=open\" duration=\"long\">\n  <visual>\n    <binding template=\"ToastGeneric\">\n      "@
            + "<text>"@,
        "</text>\n      <text>"@ == "</text>"@ + "\n      <text>"@,
        "</text>\n      <text>"@ == "</text>\n      "@ + "<text>"@,
        "</text>\n    </binding>\n  </visual>\n  <actions>\n    <action content=\"開く\" arguments=\"github-notifier-ws://thread/"@
            == "</text>"@
            + "\n    </binding>\n  </visual>\n  <actions>\n    <action content=\"開く\" arguments=\"github-notifier-ws://thread/"@,
{
    reveal_strlit(
        "?do=open\" duration=\"long\">\n  <visual>\n    <binding template=\"ToastGeneric\">\n      <text>",
    );
    reveal_strlit("?do=open\" duration=\"long\">\n  <visual>\n    <binding template=\"ToastGeneric\">\n      ");
    reveal_strlit("</text>\n      <text>");
    reveal_strlit("\n      <text>");
    reveal_strlit("</text>\n      ");
    reveal_strlit(
        "</text>\n    </binding>\n  </visual>\n  <actions>\n    <action content=\"開く\" arguments=\"github-notifier-ws://thread/",
    );
    reveal_strlit(
        "\n    </binding>\n  </visual>\n  <actions>\n    <action content=\"開く\" arguments=\"github-notifier-ws://thread/",
    );
    reveal_strlit("<text>");
    reveal_strlit("</text>");
    assert("?do=open\" duration=\"long\">\n  <visual>\n    <binding template=\"ToastGeneric\">\n      <text>"@
        =~= "?do=open\" duration=\"long\">\n  <visual>\n    <binding template=\"ToastGeneric\">\n      "@
        + "<text>"@);
    assert("</text>\n      <text>"@ =~= "</text>"@ + "\n      <text>"@);
    assert("</text>\n      <text>"@ =~= "</text>\n      "@ + "<text>"@);
    assert("</text>\n    </binding>\n  </visual>\n  <actions>\n    <action content=\"開く\" arguments=\"github-notifier-ws://thread/"@
        =~= "</text>"@
        + "\n    </binding>\n  </visual>\n  <actions>\n    <action content=\"開く\" arguments=\"github-notifier-ws://thread/"@);
}

/// When `s` starts with `x + p + z`, `p` occurs in `s`.
proof fn lemma_occurs_in_prefix(s: Seq<char>, x: Seq<char>, p: Seq<char>, z: Seq<char>)
    requires
        (x + p + z).len() <= s.len(),
        s.subrange(0, (x + p + z).len() as int) == x + p + z,
    ensures
        contains_seq(s, p),
{
    let h = x + p + z;
    assert(s.subrange(x.len() as int, (x.len() + p.len()) as int) =~= p) by {
        assert forall|m: int| 0 <= m < p.len() implies s[x.len() + m] == p[m] by {
            assert(s.subrange(0, h.len() as int)[x.len() + m] == h[x.len() + m]);
        }
    }
    assert(crate::text::occurs_at(s, p, x.len() as int));
}

/// The head of a toast, `s + o + r + l + er + dot + et + l + ti + cl`, regrouped
/// around each of its three text lines.
proof fn lemma_regroup_head(
    s: Seq<char>, o: Seq<char>, o1: Seq<char>, t: Seq<char>, r: Seq<char>, l: Seq<char>,
    l1: Seq<char>, c: Seq<char>, nl: Seq<char>, er: Seq<char>, dot: Seq<char>, et: Seq<char>,
    ti: Seq<char>, cl: Seq<char>, cl1: Seq<char>,
)
    requires
        o == o1 + t,
        l == c + nl,
        l == l1 + t,
        cl == c + cl1,
    ensures
        s + o + r + l + er + dot + et + l + ti + cl == (s + o1) + (t + r + c) + (nl + er + dot + et
            + l + ti + cl),
        s + o + r + l + er + dot + et + l + ti + cl == (s + o + r + l1) + (t + er + dot + et + c) + (
        nl + ti + cl),
        s + o + r + l + er + dot + et + l + ti + cl == (s + o + r + l + er + dot + et + l1) + (t + ti
            + c) + cl1,
{
    assert(s + o + r + l + er + dot + et + l + ti + cl =~= (s + o1) + (t + r + c) + (nl + er + dot
        + et + l + ti + cl));
    assert(s + o + r + l + er + dot + et + l + ti + cl =~= (s + o + r + l1) + (t + er + dot + et
        + c) + (nl + ti + cl));
    assert(s + o + r + l + er + dot + et + l + ti + cl =~= (s + o + r + l + er + dot + et + l1) + (t
        + ti + c) + cl1);
}

/// The three text lines of a single-notification toast: the escaped
/// repository name; the escaped reason label, ` · ` and the escaped
/// subject-type label; the escaped title. Each is a `<text>` element of its
/// own.
pub proof fn law_toast_text_lines(n: Notification)
    ensures
        contains_seq(
            notification_toast(n),
            "<text>"@ + escape_xml(n.repository.full_name@) + "</text>"@,
        ),
        contains_seq(
            notification_toast(n),
            "<text>"@ + escape_xml(reason_label(n.reason@)) + " · "@ + escape_xml(
                subject_type_label(n.subject.subject_type@),
            ) + "</text>"@,
        ),
        contains_seq(notification_toast(n), "<text>"@ + escape_xml(n.subject.title@) + "</text>"@),
{
    let toast = notification_toast(n);
    lemma_toast_starts_with_head(n);
    lemma_head_pieces();
    let s = "<toast activationType=\"protocol\" launch=\"github-notifier-ws://thread/"@
        + last_segment(n.url@);
    let o = "?do=open\" duration=\"long\">\n  <visual>\n    <binding template=\"ToastGeneric\">\n      <text>"@;
    let o1 = "?do=open\" duration=\"long\">\n  <visual>\n    <binding template=\"ToastGeneric\">\n      "@;
    let r = escape_xml(n.repository.full_name@);
    let l = "</text>\n      <text>"@;
    let l1 = "</text>\n      "@;
    let nl = "\n      <text>"@;
    let er = escape_xml(reason_label(n.reason@));
    let dot = " · "@;
    let et = escape_xml(subject_type_label(n.subject.subject_type@));
    let ti = escape_xml(n.subject.title@);
    let cl = "</text>\n    </binding>\n  </visual>\n  <actions>\n    <action content=\"開く\" arguments=\"github-notifier-ws://thread/"@;
    let cl1 = "\n    </binding>\n  </visual>\n  <actions>\n    <action content=\"開く\" arguments=\"github-notifier-ws://thread/"@;
    let t = "<text>"@;
    let c = "</text>"@;
    assert(toast_head(n) == s + o + r + l + er + dot + et + l + ti + cl);
    lemma_regroup_head(s, o, o1, t, r, l, l1, c, nl, er, dot, et, ti, cl, cl1);
    lemma_occurs_in_prefix(toast, s + o1, t + r + c, nl + er + dot + et + l + ti + cl);
    lemma_occurs_in_prefix(toast, s + o + r + l1, t + er + dot + et + c, nl + ti + cl);
    lemma_occurs_in_prefix(toast, s + o + r + l + er + dot + et + l1, t + ti + c, cl1);
}

/// The escaped labels of the known subject types, and of a mention.
proof fn lemma_label_values(t: Seq<char>, r: Seq<char>)
    ensures
        t == "PullRequest"@ ==> escape_xml(subject_type_label(t)) == "プルリクエスト"@,
        t == "Issue"@ ==> escape_xml(subject_type_label(t)) == "Issue"@,
        t == "Commit"@ ==> escape_xml(subject_type_label(t)) == "コミット"@,
        t == "Release"@ ==> escape_xml(subject_type_label(t)) == "リリース"@,
        t == "Discussion"@ ==> escape_xml(subject_type_label(t)) == "ディスカッション"@,
        r == "mention"@ ==> escape_xml(reason_label(r)) == "あなたがメンションされました"@,
{
    reveal_strlit("PullRequest");
    reveal_strlit("Issue");
    reveal_strlit("Commit");
    reveal_strlit("Release");
    reveal_strlit("Discussion");
    reveal_strlit("プルリクエスト");
    reveal_strlit("コミット");
    reveal_strlit("リリース");
    reveal_strlit("ディスカッション");
    reveal_strlit("あなたがメンションされました");
    lemma_escape_plain("プルリクエスト"@);
    lemma_escape_plain("Issue"@);
    lemma_escape_plain("コミット"@);
    lemma_escape_plain("リリース"@);
    lemma_escape_plain("ディスカッション"@);
    lemma_escape_plain("あなたがメンションされました"@);
    assert("Issue"@.len() != "PullRequest"@.len());
    assert("Commit"@.len() != "PullRequest"@.len());
    assert("Commit"@.len() != "Issue"@.len());
    assert("Release"@.len() != "PullRequest"@.len());
    assert("Release"@.len() != "Issue"@.len());
    assert("Release"@.len() != "Commit"@.len());
    assert("Discussion"@.len() != "PullRequest"@.len());
    assert("Discussion"@.len() != "Issue"@.len());
    assert("Discussion"@.len() != "Commit"@.len());
    assert("Discussion"@.len() != "Release"@.len());
}

/// A single-notification toast names the subject type by its label, not by
/// the raw type name: a pull request is shown as プルリクエスト, a commit as
/// コミット, a release as リリース, a discussion as ディスカッション and an
/// issue as Issue, each after ` · ` and ending the second text line; a
/// mention opens that line with あなたがメンションされました.
pub proof fn law_toast_shows_labels(n: Notification)
    ensures
        n.subject.subject_type@ == "PullRequest"@ ==> contains_seq(
            notification_toast(n),
            " · プルリクエスト</text>"@,
        ),
        n.subject.subject_type@ == "Issue"@ ==> contains_seq(
            notification_toast(n),
            " · Issue</text>"@,
        ),
        n.subject.subject_type@ == "Commit"@ ==> contains_seq(
            notification_toast(n),
            " · コミット</text>"@,
        ),
        n.subject.subject_type@ == "Release"@ ==> contains_seq(
            notification_toast(n),
            " · リリース</text>"@,
        ),
        n.subject.subject_type@ == "Discussion"@ ==> contains_seq(
            notification_toast(n),
            " · ディスカッション</text>"@,
        ),
        n.reason@ == "mention"@ ==> contains_seq(
            notification_toast(n),
            "<text>あなたがメンションされました · "@,
        ),
{
    let toast = notification_toast(n);
    let er = escape_xml(reason_label(n.reason@));
    let et = escape_xml(subject_type_label(n.subject.subject_type@));
    law_toast_text_lines(n);
    lemma_label_values(n.subject.subject_type@, n.reason@);
    let line = "<text>"@ + er + " · "@ + et + "</text>"@;
    let tail = " · "@ + et + "</text>"@;
    assert(line =~= ("<text>"@ + er) + tail + Seq::<char>::empty());
    lemma_contains_middle(toast, "<text>"@ + er, tail, Seq::<char>::empty());
    reveal_strlit(" · ");
    reveal_strlit("</text>");
    reveal_strlit("<text>");
    let t = n.subject.subject_type@;
    if t == "PullRequest"@ {
        reveal_strlit("プルリクエスト");
        reveal_strlit(" · プルリクエスト</text>");
        assert(tail =~= " · プルリクエスト</text>"@);
    }
    if t == "Issue"@ {
        reveal_strlit("Issue");
        reveal_strlit(" · Issue</text>");
        assert(tail =~= " · Issue</text>"@);
    }
    if t == "Commit"@ {
        reveal_strlit("コミット");
        reveal_strlit(" · コミット</text>");
        assert(tail =~= " · コミット</text>"@);
    }
    if t == "Release"@ {
        reveal_strlit("リリース");
        reveal_strlit(" · リリース</text>");
        assert(tail =~= " · リリース</text>"@);
    }
    if t == "Discussion"@ {
        reveal_strlit("ディスカッション");
        reveal_strlit(" · ディスカッション</text>");
        assert(tail =~= " · ディスカッション</text>"@);
    }
    if n.reason@ == "mention"@ {
        reveal_strlit("あなたがメンションされました");
        reveal_strlit("<text>あなたがメンションされました · ");
        let front = "<text>"@ + er + " · "@;
        assert(line =~= Seq::<char>::empty() + front + (et + "</text>"@));
        lemma_contains_middle(toast, Seq::<char>::empty(), front, et + "</text>"@);
        assert(front =~= "<text>あなたがメンションされました · "@);
    }
}

/// How many of `ns` have reason `r`.
pub open spec fn count_reason(ns: Seq<Notification>, r: Seq<char>) -> nat
    decreases ns.len(),
{
    if ns.len() == 0 {
        0
    } else {
        count_reason(ns.drop_last(), r) + if ns.last().reason@ == r {
            1nat
        } else {
            0nat
        }
    }
}

/// The reasons that a bundle counts on their own.
pub open spec fn is_counted_reason(r: Seq<char>) -> bool {
    r == "mention"@ || r == "review_requested"@ || r == "ci_activity"@
}

/// How many of `ns` have some other reason.
pub open spec fn count_other(ns: Seq<Notification>) -> nat
    decreases ns.len(),
{
    if ns.len() == 0 {
        0
    } else {
        count_other(ns.drop_last()) + if is_counted_reason(ns.last().reason@) {
            0nat
        } else {
            1nat
        }
    }
}

/// The summary parts of a bundle, for the counts that are not zero.
pub open spec fn bundle_parts(mention: nat, review: nat, ci: nat, other: nat) -> Seq<Seq<char>> {
    let p0 = Seq::<Seq<char>>::empty();
    let p1 = if mention > 0 {
        p0.push("メンション "@ + decimal(mention))
    } else {
        p0
    };
    let p2 = if review > 0 {
        p1.push("レビュー依頼 "@ + decimal(review))
    } else {
        p1
    };
    let p3 = if ci > 0 {
        p2.push("CI "@ + decimal(ci))
    } else {
        p2
    };
    if other > 0 {
        p3.push("その他 "@ + decimal(other))
    } else {
        p3
    }
}

/// The summary line of a bundle: the non-zero counts joined with `・`.
pub open spec fn bundle_summary(ns: Seq<Notification>) -> Seq<char> {
    join_seq(
        bundle_parts(
            count_reason(ns, "mention"@),
            count_reason(ns, "review_requested"@),
            count_reason(ns, "ci_activity"@),
            count_other(ns),
        ),
        "・"@,
    )
}

/// The toast that stands for several notifications at once.
pub open spec fn bundle_toast(ns: Seq<Notification>) -> Seq<char> {
    "<toast activationType=\"protocol\" launch=\"github-notifier-ws://inbox?do=open\">\n  <visual>\n    <binding template=\"ToastGeneric\">\n      <text>"@
        + decimal(ns.len()) + " 件の新しい通知</text>\n      <text>"@ + escape_xml(bundle_summary(ns))
        + "</text>\n    </binding>\n  </visual>\n  <actions>\n    <action content=\"受信箱を開く\" arguments=\"github-notifier-ws://inbox?do=open\" activationType=\"protocol\"/>\n    <action content=\"すべて既読にする\" arguments=\"github-notifier-ws://inbox?do=mark_all_read\" activationType=\"protocol\"/>\n  </actions>\n</toast>"@
}

/// Every notification is counted exactly once: as a mention, a review
/// request, a CI result, or as other.
pub proof fn law_bundle_counts_cover_all(ns: Seq<Notification>)
    ensures
        count_reason(ns, "mention"@) + count_reason(ns, "review_requested"@) + count_reason(
            ns,
            "ci_activity"@,
        ) + count_other(ns) == ns.len(),
    decreases ns.len(),
{
    reveal_strlit("mention");
    reveal_strlit("review_requested");
    reveal_strlit("ci_activity");
    if ns.len() > 0 {
        law_bundle_counts_cover_all(ns.drop_last());
        lemma_counted_reasons_distinct();
    }
}

proof fn lemma_counted_reasons_distinct()
    ensures
        "mention"@ != "review_requested"@,
        "mention"@ != "ci_activity"@,
        "review_requested"@ != "ci_activity"@,
{
    reveal_strlit("mention");
    reveal_strlit("review_requested");
    reveal_strlit("ci_activity");
    assert("mention"@[0] != "review_requested"@[0]);
    assert("mention"@[0] != "ci_activity"@[0]);
    assert("review_requested"@[0] != "ci_activity"@[0]);
}

/// The reasons of `ns`, in order.
pub open spec fn reasons(ns: Seq<Notification>) -> Seq<Seq<char>> {
    ns.map_values(|n: Notification| n.reason@)
}

/// Counting a reason counts it in the multiset of reasons.
pub proof fn lemma_count_reason_is_multiplicity(ns: Seq<Notification>, r: Seq<char>)
    ensures
        count_reason(ns, r) == reasons(ns).to_multiset().count(r),
    decreases ns.len(),
{
    broadcast use vstd::seq_lib::group_to_multiset_ensures;
    broadcast use vstd::multiset::group_multiset_axioms;

    if ns.len() == 0 {
        assert(!reasons(ns).contains(r));
    } else {
        lemma_count_reason_is_multiplicity(ns.drop_last(), r);
        assert(reasons(ns) =~= reasons(ns.drop_last()).push(ns.last().reason@));
    }
}

/// The bundle toast depends only on how many notifications there are and on
/// the multiset of their reasons: reordering them, or changing anything but
/// their reasons, leaves it unchanged.
pub proof fn law_bundle_depends_on_count_and_reasons(a: Seq<Notification>, b: Seq<Notification>)
    requires
        a.len() == b.len(),
        reasons(a).to_multiset() == reasons(b).to_multiset(),
    ensures
        bundle_toast(a) == bundle_toast(b),
{
    lemma_count_reason_is_multiplicity(a, "mention"@);
    lemma_count_reason_is_multiplicity(b, "mention"@);
    lemma_count_reason_is_multiplicity(a, "review_requested"@);
    lemma_count_reason_is_multiplicity(b, "review_requested"@);
    lemma_count_reason_is_multiplicity(a, "ci_activity"@);
    lemma_count_reason_is_multiplicity(b, "ci_activity"@);
    law_bundle_counts_cover_all(a);
    law_bundle_counts_cover_all(b);
}

/// The toast document for several notifications at once.
pub fn bundle_xml(notifications: &[Notification]) -> (xml: String)
    ensures
        xml@ == bundle_toast(notifications@),
{
    let n = notifications.len();
    let mut mention: usize = 0;
    let mut review: usize = 0;
    let mut ci: usize = 0;
    let mut other: usize = 0;
    let mut i: usize = 0;
    while i < n
        invariant
            i <= n == notifications@.len(),
            mention == count_reason(notifications@.take(i as int), "mention"@),
            review == count_reason(notifications@.take(i as int), "review_requested"@),
            ci == count_reason(notifications@.take(i as int), "ci_activity"@),
            other == count_other(notifications@.take(i as int)),
            mention + review + ci + other == i,
        decreases n - i,
    {
        let ghost next = notifications@.take(i + 1);
        assert(next.drop_last() =~= notifications@.take(i as int));
        assert(next.last() == notifications@[i as int]);
        let r = notifications[i].reason.as_str();
        let is_mention = text_eq(r, "mention");
        let is_review = text_eq(r, "review_requested");
        let is_ci = text_eq(r, "ci_activity");
        proof {
            lemma_counted_reasons_distinct();
        }
        if is_mention {
            mention = mention + 1;
        }
        if is_review {
            review = review + 1;
        }
        if is_ci {
            ci = ci + 1;
        }
        if !is_mention && !is_review && !is_ci {
            other = other + 1;
        }
        i = i + 1;
    }
    assert(notifications@.take(n as int) =~= notifications@);
    let mut parts: Vec<String> = Vec::new();
    let ghost p0 = Seq::<Seq<char>>::empty();
    assert(views(parts@) =~= p0);
    if mention > 0 {
        let mut p = String::from_str("メンション ");
        push_decimal(&mut p, mention as u64);
        parts.push(p);
    }
    let ghost p1 = views(parts@);
    if review > 0 {
        let mut p = String::from_str("レビュー依頼 ");
        push_decimal(&mut p, review as u64);
        parts.push(p);
        assert(views(parts@) =~= p1.push(p@));
    }
    let ghost p2 = views(parts@);
    if ci > 0 {
        let mut p = String::from_str("CI ");
        push_decimal(&mut p, ci as u64);
        parts.push(p);
        assert(views(parts@) =~= p2.push(p@));
    }
    let ghost p3 = views(parts@);
    if other > 0 {
        let mut p = String::from_str("その他 ");
        push_decimal(&mut p, other as u64);
        parts.push(p);
        assert(views(parts@) =~= p3.push(p@));
    }
    proof {
        if mention > 0 {
            assert(p1 =~= p0.push("メンション "@ + decimal(mention as nat)));
        }
    }
    assert(views(parts@) == bundle_parts(mention as nat, review as nat, ci as nat, other as nat));
    let summary_text = join_texts(&parts, "・");
    let summary = escape(summary_text.as_str());
    let mut xml = String::from_str(
        "<toast activationType=\"protocol\" launch=\"github-notifier-ws://inbox?do=open\">\n  <visual>\n    <binding template=\"ToastGeneric\">\n      <text>",
    );
    push_decimal(&mut xml, n as u64);
    push_text(&mut xml, " 件の新しい通知</text>\n      <text>");
    push_text(&mut xml, summary.as_str());
    push_text(
        &mut xml,
        "</text>\n    </binding>\n  </visual>\n  <actions>\n    <action content=\"受信箱を開く\" arguments=\"github-notifier-ws://inbox?do=open\" activationType=\"protocol\"/>\n    <action content=\"すべて既読にする\" arguments=\"github-notifier-ws://inbox?do=mark_all_read\" activationType=\"protocol\"/>\n  </actions>\n</toast>",
    );
    xml
}

/// The title of a configuration-error toast: with the line number when the
/// message gives one.
pub open spec fn config_error_title(msg: Seq<char>) -> Seq<char> {
    match line_number_in(msg) {
        Some(line) => "設定エラー · "@ + decimal(line) + "行目"@,
        None => "設定エラー"@,
    }
}

/// The toast reporting that the configuration file was rejected.
pub open spec fn config_error_toast(msg: Seq<char>) -> Seq<char> {
    "<toast>\n  <visual>\n    <binding template=\"ToastGeneric\">\n      <text>"@ + escape_xml(
        config_error_title(msg),
    ) + "</text>\n      <text>"@ + escape_xml(msg)
        + "</text>\n      <text>直前の有効な設定で動作を継続中</text>\n    </binding>\n  </visual>\n</toast>"@
}

/// The toast document for a rejected configuration file.
pub fn config_error_xml(msg: &str) -> (xml: String)
    ensures
        xml@ == config_error_toast(msg@),
{
    let title_text = match extract_line_number(msg) {
        Some(line) => {
            let mut t = String::from_str("設定エラー · ");
            push_decimal(&mut t, line as u64);
            push_text(&mut t, "行目");
            t
        },
        None => String::from_str("設定エラー"),
    };
    let title = escape(title_text.as_str());
    let body = escape(msg);
    let mut xml = String::from_str(
        "<toast>\n  <visual>\n    <binding template=\"ToastGeneric\">\n      <text>",
    );
    push_text(&mut xml, title.as_str());
    push_text(&mut xml, "</text>\n      <text>");
    push_text(&mut xml, body.as_str());
    push_text(
        &mut xml,
        "</text>\n      <text>直前の有効な設定で動作を継続中</text>\n    </binding>\n  </visual>\n</toast>",
    );
    xml
}

/// The toast announcing that a reloaded configuration is in force.
pub open spec fn reload_success_toast(rule_count: nat) -> Seq<char> {
    "<toast duration=\"short\">\n  <visual>\n    <binding template=\"ToastGeneric\">\n      <text>設定を更新しました</text>\n      <text>"@
        + decimal(rule_count)
        + " 個のルールが有効です</text>\n    </binding>\n  </visual>\n</toast>"@
}

/// The toast document for a successful reload.
pub fn reload_success_xml(rule_count: usize) -> (xml: String)
    ensures
        xml@ == reload_success_toast(rule_count as nat),
{
    let mut xml = String::from_str(
        "<toast duration=\"short\">\n  <visual>\n    <binding template=\"ToastGeneric\">\n      <text>設定を更新しました</text>\n      <text>",
    );
    push_decimal(&mut xml, rule_count as u64);
    push_text(&mut xml, " 個のルールが有効です</text>\n    </binding>\n  </visual>\n</toast>");
    xml
}

} // verus!
