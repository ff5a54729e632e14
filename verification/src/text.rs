//! Character-level text operations over `Seq<char>`, with the executable
//! versions the rest of the library builds its strings and lookups from.
use vstd::prelude::*;

verus! {

/// The text of an optional string.
pub open spec fn opt_view(o: Option<String>) -> Option<Seq<char>> {
    match o {
        Some(s) => Some(s@),
        None => None,
    }
}

// ---------------------------------------------------------------------------
// Building strings
// ---------------------------------------------------------------------------

/// Appends one character to a `String` (std's `String::push`).
/// Claimed: the new contents are the old ones followed by `c`.
#[verifier::external_body]
pub(crate) fn push_char(s: &mut String, c: char)
    ensures
        final(s)@ == old(s)@.push(c),
{
    s.push(c);
}

/// The characters of `s`, in order.
pub fn chars_of(s: &str) -> (out: Vec<char>)
    ensures
        out@ == s@,
{
    let mut out: Vec<char> = Vec::new();
    for c in it: s.chars()
        invariant
            out@ == it.seq().take(it.index() as int),
    {
        out.push(c);
    }
    out
}

/// A `String` holding exactly the characters of `cs`.
pub fn string_from_chars(cs: &Vec<char>) -> (out: String)
    ensures
        out@ == cs@,
{
    let mut out = String::new();
    let mut i: usize = 0;
    while i < cs.len()
        invariant
            i <= cs.len(),
            out@ == cs@.take(i as int),
        decreases cs.len() - i,
    {
        push_char(&mut out, cs[i]);
        assert(cs@.take(i as int).push(cs@[i as int]) =~= cs@.take(i + 1));
        i = i + 1;
    }
    assert(cs@.take(cs.len() as int) =~= cs@);
    out
}

/// Appends `t` to `s`.
pub fn push_text(s: &mut String, t: &str)
    ensures
        final(s)@ == old(s)@ + t@,
{
    s.append(t);
}

/// `parts` joined with `sep` between consecutive parts.
pub open spec fn join_seq(parts: Seq<Seq<char>>, sep: Seq<char>) -> Seq<char>
    decreases parts.len(),
{
    if parts.len() == 0 {
        Seq::empty()
    } else if parts.len() == 1 {
        parts[0]
    } else {
        join_seq(parts.drop_last(), sep) + sep + parts.last()
    }
}

/// The views of a list of strings.
pub open spec fn views(parts: Seq<String>) -> Seq<Seq<char>> {
    parts.map_values(|p: String| p@)
}

/// Joins `parts` with `sep` between consecutive parts (std's `join`).
pub fn join_texts(parts: &Vec<String>, sep: &str) -> (res: String)
    ensures
        res@ == join_seq(views(parts@), sep@),
{
    let mut res = String::new();
    let mut i: usize = 0;
    while i < parts.len()
        invariant
            i <= parts@.len(),
            res@ == join_seq(views(parts@).take(i as int), sep@),
        decreases parts.len() - i,
    {
        let ghost prev = views(parts@).take(i as int);
        let ghost next = views(parts@).take(i + 1);
        assert(next.drop_last() =~= prev);
        assert(next.last() == parts@[i as int]@);
        if i > 0 {
            push_text(&mut res, sep);
        } else {
            assert(prev =~= Seq::<Seq<char>>::empty());
            assert(res@ =~= Seq::<char>::empty());
            assert(join_seq(next, sep@) == next[0]);
        }
        push_text(&mut res, parts[i].as_str());
        proof {
            if i == 0 {
                assert(res@ =~= next[0]);
            }
        }
        i = i + 1;
    }
    assert(views(parts@).take(parts.len() as int) =~= views(parts@));
    res
}

// ---------------------------------------------------------------------------
// Substrings
// ---------------------------------------------------------------------------

/// `pat` occurs in `s` starting at position `i`.
pub open spec fn occurs_at(s: Seq<char>, pat: Seq<char>, i: int) -> bool {
    &&& 0 <= i
    &&& i + pat.len() <= s.len()
    &&& s.subrange(i, i + pat.len()) == pat
}

/// `pat` occurs somewhere in `s` (the empty pattern occurs in every text).
pub open spec fn contains_seq(s: Seq<char>, pat: Seq<char>) -> bool {
    exists|i: int| occurs_at(s, pat, i)
}

/// `i` is the leftmost position at which `pat` occurs in `s`.
pub open spec fn is_first_occurrence(s: Seq<char>, pat: Seq<char>, i: int) -> bool {
    &&& occurs_at(s, pat, i)
    &&& forall|j: int| 0 <= j < i ==> !occurs_at(s, pat, j)
}

/// Whether `pat` occurs in `s` at position `i`, compared character by character.
pub fn matches_at(s: &Vec<char>, pat: &Vec<char>, i: usize) -> (res: bool)
    ensures
        res == occurs_at(s@, pat@, i as int),
{
    if i > s.len() || pat.len() > s.len() - i {
        return false;
    }
    let mut k: usize = 0;
    while k < pat.len()
        invariant
            i + pat.len() <= s.len(),
            k <= pat.len(),
            forall|m: int| 0 <= m < k ==> s@[i + m] == pat@[m],
        decreases pat.len() - k,
    {
        if s[i + k] != pat[k] {
            assert(s@.subrange(i as int, i + pat.len())[k as int] != pat@[k as int]);
            return false;
        }
        k = k + 1;
    }
    assert(s@.subrange(i as int, i + pat.len()) =~= pat@);
    true
}

/// The leftmost position at which `pat` occurs in `s`, if any.
pub fn find_chars(s: &Vec<char>, pat: &Vec<char>) -> (res: Option<usize>)
    ensures
        res matches Some(i) ==> is_first_occurrence(s@, pat@, i as int),
        res is None ==> !contains_seq(s@, pat@),
{
    if pat.len() == 0 {
        assert(s@.subrange(0, 0) =~= pat@);
        return Some(0);
    }
    if pat.len() > s.len() {
        return None;
    }
    let last = s.len() - pat.len();
    let mut i: usize = 0;
    while i <= last
        invariant
            last + pat.len() == s.len(),
            pat.len() > 0,
            forall|j: int| 0 <= j < i ==> !occurs_at(s@, pat@, j),
        decreases last + 1 - i,
    {
        if matches_at(s, pat, i) {
            return Some(i);
        }
        i = i + 1;
    }
    assert forall|j: int| !occurs_at(s@, pat@, j) by {
        if 0 <= j && j < i {
        }
    }
    None
}

/// Whether `a` and `b` hold the same characters.
pub fn text_eq(a: &str, b: &str) -> (res: bool)
    ensures
        res == (a@ == b@),
{
    let ac = chars_of(a);
    let bc = chars_of(b);
    if ac.len() != bc.len() {
        return false;
    }
    let res = matches_at(&ac, &bc, 0);
    proof {
        if res {
            assert(ac@.subrange(0, bc@.len() as int) =~= ac@);
        } else {
            if a@ == b@ {
                assert(ac@.subrange(0, bc@.len() as int) =~= ac@);
            }
        }
    }
    res
}

/// Whether `pat` occurs anywhere in `s` (std's `str::contains`).
pub fn contains_text(s: &str, pat: &str) -> (res: bool)
    ensures
        res == contains_seq(s@, pat@),
{
    let sc = chars_of(s);
    let pc = chars_of(pat);
    match find_chars(&sc, &pc) {
        Some(_) => true,
        None => false,
    }
}

/// `s` with every non-overlapping occurrence of `pat` replaced by `rep`,
/// scanning from the left (std's `str::replace` for a non-empty pattern).
pub open spec fn replace_seq(s: Seq<char>, pat: Seq<char>, rep: Seq<char>) -> Seq<char>
    decreases s.len(),
{
    if s.len() == 0 {
        s
    } else if 0 < pat.len() && occurs_at(s, pat, 0) {
        rep + replace_seq(s.skip(pat.len() as int), pat, rep)
    } else {
        seq![s[0]] + replace_seq(s.skip(1), pat, rep)
    }
}

/// Replaces every non-overlapping occurrence of the non-empty `pat` in `s`
/// by `rep`, from left to right.
pub fn replace_text(s: &str, pat: &str, rep: &str) -> (res: String)
    requires
        pat@.len() > 0,
    ensures
        res@ == replace_seq(s@, pat@, rep@),
{
    let sc = chars_of(s);
    let pc = chars_of(pat);
    let mut out = String::new();
    let mut i: usize = 0;
    assert(sc@.skip(0) =~= sc@);
    while i < sc.len()
        invariant
            i <= sc.len(),
            pc@ == pat@,
            pat@.len() > 0,
            out@ + replace_seq(sc@.skip(i as int), pc@, rep@) == replace_seq(sc@, pc@, rep@),
        decreases sc.len() - i,
    {
        let ghost rest = sc@.skip(i as int);
        let ghost out0 = out@;
        if matches_at(&sc, &pc, i) {
            assert(rest.subrange(0, pc@.len() as int) =~= sc@.subrange(i as int, i + pc@.len()));
            assert(rest.skip(pc@.len() as int) =~= sc@.skip(i + pc@.len()));
            let ghost tail = replace_seq(sc@.skip(i + pc@.len()), pc@, rep@);
            assert(replace_seq(rest, pc@, rep@) == rep@ + tail);
            push_text(&mut out, rep);
            assert((out0 + rep@) + tail =~= out0 + (rep@ + tail));
            i = i + pc.len();
        } else {
            assert(!occurs_at(rest, pc@, 0)) by {
                if occurs_at(rest, pc@, 0) {
                    assert(rest.subrange(0, pc@.len() as int) =~= sc@.subrange(
                        i as int,
                        i + pc@.len(),
                    ));
                }
            }
            assert(rest.skip(1) =~= sc@.skip(i + 1));
            assert(rest[0] == sc@[i as int]);
            let ghost tail = replace_seq(sc@.skip(i + 1), pc@, rep@);
            assert(replace_seq(rest, pc@, rep@) == seq![sc@[i as int]] + tail);
            push_char(&mut out, sc[i]);
            assert(out0.push(sc@[i as int]) + tail =~= out0 + (seq![sc@[i as int]] + tail));
            i = i + 1;
        }
    }
    assert(sc@.skip(i as int) =~= Seq::<char>::empty());
    assert(out@ + Seq::<char>::empty() =~= out@);
    out
}

// ---------------------------------------------------------------------------
// Words
// ---------------------------------------------------------------------------

/// The Unicode `White_Space` characters, which std's `char::is_whitespace`
/// recognizes.
pub open spec fn is_white_space(c: char) -> bool {
    ||| '\u{9}' <= c && c <= '\u{d}'
    ||| c == ' '
    ||| c == '\u{85}'
    ||| c == '\u{a0}'
    ||| c == '\u{1680}'
    ||| '\u{2000}' <= c && c <= '\u{200a}'
    ||| c == '\u{2028}'
    ||| c == '\u{2029}'
    ||| c == '\u{202f}'
    ||| c == '\u{205f}'
    ||| c == '\u{3000}'
}

/// Whether `c` is white space.
pub fn white_space(c: char) -> (res: bool)
    ensures
        res == is_white_space(c),
{
    ('\u{9}' <= c && c <= '\u{d}') || c == ' ' || c == '\u{85}' || c == '\u{a0}' || c
        == '\u{1680}' || ('\u{2000}' <= c && c <= '\u{200a}') || c == '\u{2028}' || c
        == '\u{2029}' || c == '\u{202f}' || c == '\u{205f}' || c == '\u{3000}'
}

/// `s` without its leading white space.
pub open spec fn skip_white_space(s: Seq<char>) -> Seq<char>
    decreases s.len(),
{
    if s.len() > 0 && is_white_space(s[0]) {
        skip_white_space(s.skip(1))
    } else {
        s
    }
}

/// The longest prefix of `s` without white space.
pub open spec fn word_prefix(s: Seq<char>) -> Seq<char>
    decreases s.len(),
{
    if s.len() == 0 || is_white_space(s[0]) {
        Seq::empty()
    } else {
        seq![s[0]] + word_prefix(s.skip(1))
    }
}

/// The first white-space-separated word of `s` (what std's
/// `split_whitespace().next()` gives).
pub open spec fn first_word(s: Seq<char>) -> Option<Seq<char>> {
    let t = skip_white_space(s);
    if t.len() == 0 {
        None
    } else {
        Some(word_prefix(t))
    }
}

/// `s` without the copies of `c` at its end (std's `trim_end_matches`).
pub open spec fn trim_end_char(s: Seq<char>, c: char) -> Seq<char>
    decreases s.len(),
{
    if s.len() > 0 && s.last() == c {
        trim_end_char(s.drop_last(), c)
    } else {
        s
    }
}

/// The first white-space-separated word of `s[from..]`.
pub fn first_word_from(s: &Vec<char>, from: usize) -> (res: Option<Vec<char>>)
    requires
        from <= s@.len(),
    ensures
        res matches Some(w) ==> first_word(s@.skip(from as int)) == Some(w@),
        res is None ==> first_word(s@.skip(from as int)) is None,
{
    let mut i: usize = from;
    while i < s.len() && white_space(s[i])
        invariant
            from <= i <= s@.len(),
            skip_white_space(s@.skip(from as int)) == skip_white_space(s@.skip(i as int)),
        decreases s.len() - i,
    {
        assert(s@.skip(i as int).skip(1) =~= s@.skip(i + 1));
        i = i + 1;
    }
    let ghost rest = s@.skip(i as int);
    proof {
        if i < s.len() {
            assert(rest[0] == s@[i as int]);
        }
    }
    assert(skip_white_space(rest) == rest);
    if i == s.len() {
        assert(rest.len() == 0);
        return None;
    }
    let start = i;
    let mut out: Vec<char> = Vec::new();
    while i < s.len() && !white_space(s[i])
        invariant
            start <= i <= s@.len(),
            rest == s@.skip(start as int),
            word_prefix(rest) == out@ + word_prefix(s@.skip(i as int)),
        decreases s.len() - i,
    {
        let ghost tail = s@.skip(i as int);
        assert(tail[0] == s@[i as int]);
        assert(tail.skip(1) =~= s@.skip(i + 1));
        let ghost out0 = out@;
        out.push(s[i]);
        assert(out0.push(s@[i as int]) + word_prefix(s@.skip(i + 1)) =~= out0 + (seq![s@[i as int]]
            + word_prefix(s@.skip(i + 1))));
        i = i + 1;
    }
    proof {
        let tail = s@.skip(i as int);
        if i < s.len() {
            assert(tail[0] == s@[i as int]);
        }
        assert(word_prefix(tail) =~= Seq::<char>::empty());
        assert(out@ + Seq::<char>::empty() =~= out@);
    }
    Some(out)
}

/// `s` without the copies of `c` at its end.
pub fn trim_end_chars(s: &Vec<char>, c: char) -> (res: Vec<char>)
    ensures
        res@ == trim_end_char(s@, c),
{
    let mut end: usize = s.len();
    assert(s@.take(end as int) =~= s@);
    while end > 0 && s[end - 1] == c
        invariant
            end <= s@.len(),
            trim_end_char(s@, c) == trim_end_char(s@.take(end as int), c),
        decreases end,
    {
        assert(s@.take(end as int).drop_last() =~= s@.take(end - 1));
        end = end - 1;
    }
    proof {
        let p = s@.take(end as int);
        if end > 0 {
            assert(p.last() == s@[end - 1]);
        }
    }
    let mut out: Vec<char> = Vec::new();
    let mut k: usize = 0;
    while k < end
        invariant
            k <= end <= s@.len(),
            out@ == s@.take(k as int),
        decreases end - k,
    {
        out.push(s[k]);
        assert(s@.take(k as int).push(s@[k as int]) =~= s@.take(k + 1));
        k = k + 1;
    }
    out
}

} // verus!
