//! Finding the URL under a clicked column of a terminal line.

use vstd::prelude::*;
use crate::display::{char_width, utf8_width};
use crate::text::{chars_of, string_from_chars};

verus! {

/// One match of a regular expression: byte offsets and matched text.
pub struct RegexMatch {
    pub start: usize,
    pub end: usize,
    pub text: String,
}

/// Start, end and text of a regex match.
pub open spec fn match_view(m: RegexMatch) -> (usize, usize, Seq<char>) {
    (m.start, m.end, m.text@)
}

/// The successive non-overlapping matches of `pattern` in `text` as
/// `regex::Regex::find_iter` reports them, or `None` when `pattern` does not
/// compile.
pub uninterp spec fn regex_matches(pattern: Seq<char>, text: Seq<char>) -> Option<Seq<(usize, usize, Seq<char>)>>;

/// `s` occurs in `hay` as a run of consecutive characters.
pub open spec fn occurs_in(hay: Seq<char>, s: Seq<char>) -> bool {
    exists|i: int| 0 <= i && i + s.len() <= hay.len() && #[trigger] hay.subrange(i, i + s.len()) == s
}

/// Compiles `pattern` with `regex::Regex::new` and lists its matches in
/// `text` with `find_iter` (start and end byte offsets, matched text). The
/// crate documents `Match::as_str` as the part of the haystack that
/// matched, so each match's text occurs in `text`; what the pattern lets a
/// match hold is the regex engine's and is not stated here.
#[verifier::external_body]
pub(crate) fn find_all_matches(pattern: &str, text: &str) -> (r: Option<Vec<RegexMatch>>)
    ensures
        match r {
            Some(v) => regex_matches(pattern@, text@) == Some(v@.map_values(|m: RegexMatch| match_view(m))),
            None => regex_matches(pattern@, text@) is None,
        },
        r matches Some(v) ==> forall|k: int| 0 <= k < v@.len() ==> occurs_in(text@, (#[trigger] v@[k]).text@),
{
    match regex::Regex::new(pattern) {
        Ok(re) => Some(re.find_iter(text).map(|m| RegexMatch { start: m.start(), end: m.end(), text: m.as_str().to_string() }).collect()),
        Err(_) => None,
    }
}

/// URLs: `http://` or `https://` followed by characters other than
/// whitespace, `)`, quotes and angle brackets.
pub const URL_PATTERN: &'static str = "https?://[^\\s)'\"<>]+";

/// Punctuation dropped from the end of a URL.
pub open spec fn trailing_punct(c: char) -> bool {
    c == ',' || c == '.' || c == ';' || c == ':'
}

/// `s` without trailing punctuation (`trim_end_matches([',', '.', ';', ':'])`).
pub open spec fn trim_punct(s: Seq<char>) -> Seq<char>
    decreases s.len(),
{
    if s.len() > 0 && trailing_punct(s.last()) { trim_punct(s.drop_last()) } else { s }
}

/// How many characters of `s` lie before byte offset `b`: the characters
/// whose UTF-8 bytes all come before it.
pub open spec fn chars_before(s: Seq<char>, b: nat) -> nat
    decreases s.len(),
{
    if s.len() == 0 || utf8_width(s[0]) > b {
        0
    } else {
        1 + chars_before(s.drop_first(), (b - utf8_width(s[0])) as nat)
    }
}

/// The first match whose character range (from the character at its start
/// byte to the one at its end byte) holds column `col`, trimmed. A column
/// is a character position of `line`: each character is one terminal cell.
pub open spec fn url_at_spec(line: Seq<char>, ms: Seq<(usize, usize, Seq<char>)>, col: usize) -> Option<Seq<char>>
    decreases ms.len(),
{
    if ms.len() == 0 {
        None
    } else if chars_before(line, ms[0].0 as nat) <= col && col <= chars_before(line, ms[0].1 as nat) {
        Some(trim_punct(ms[0].2))
    } else {
        url_at_spec(line, ms.drop_first(), col)
    }
}

/// The character position of byte offset `b` in the characters `v`.
pub(crate) fn char_pos(v: &Vec<char>, b: usize) -> (r: usize)
    ensures
        r as nat == chars_before(v@, b as nat),
{
    let mut i: usize = 0;
    let mut used: usize = 0;
    assert(v@.skip(0) =~= v@);
    while i < v.len()
        invariant
            i <= v.len(),
            used <= b,
            chars_before(v@, b as nat) == i + chars_before(v@.skip(i as int), (b - used) as nat),
        decreases v.len() - i,
    {
        let w = char_width(v[i]);
        assert(v@.skip(i as int)[0] == v@[i as int]);
        if w > b - used {
            return i;
        }
        assert(v@.skip(i as int).drop_first() =~= v@.skip(i as int + 1));
        used = used + w;
        i = i + 1;
    }
    assert(v@.skip(i as int).len() == 0);
    i
}

/// What trimming leaves: a prefix of `s` that does not end in punctuation.
pub proof fn lemma_trim_punct(s: Seq<char>)
    ensures
        trim_punct(s).len() <= s.len(),
        trim_punct(s) == s.take(trim_punct(s).len() as int),
        trim_punct(s).len() == 0 || !trailing_punct(trim_punct(s).last()),
    decreases s.len(),
{
    if s.len() > 0 && trailing_punct(s.last()) {
        lemma_trim_punct(s.drop_last());
        let t = trim_punct(s.drop_last());
        assert(s.drop_last().take(t.len() as int) =~= s.take(t.len() as int));
    } else {
        assert(s.take(s.len() as int) =~= s);
    }
}

/// The URL picked from matches that all occur in `line` occurs in `line`
/// and does not end in punctuation.
proof fn lemma_url_at_shape(line: Seq<char>, ms: Seq<(usize, usize, Seq<char>)>, col: usize)
    requires
        forall|k: int| 0 <= k < ms.len() ==> occurs_in(line, (#[trigger] ms[k]).2),
    ensures
        url_at_spec(line, ms, col) matches Some(u) ==> occurs_in(line, u) && (u.len() == 0 || !trailing_punct(u.last())),
    decreases ms.len(),
{
    if ms.len() > 0 {
        if chars_before(line, ms[0].0 as nat) <= col && col <= chars_before(line, ms[0].1 as nat) {
            let t = ms[0].2;
            lemma_trim_punct(t);
            let u = trim_punct(t);
            assert(occurs_in(line, t));
            let i = choose|i: int| 0 <= i && i + t.len() <= line.len() && #[trigger] line.subrange(i, i + t.len()) == t;
            assert(line.subrange(i, i + u.len()) =~= t.take(u.len() as int));
        } else {
            assert forall|k: int| 0 <= k < ms.drop_first().len() implies occurs_in(line, (#[trigger] ms.drop_first()[k]).2) by {
                assert(ms.drop_first()[k] == ms[k + 1]);
            }
            lemma_url_at_shape(line, ms.drop_first(), col);
        }
    }
}

fn trim_punct_exec(s: &String) -> (r: String)
    ensures
        r@ == trim_punct(s@),
{
    let v = chars_of(s.as_str());
    let mut n = v.len();
    assert(s@.take(n as int) =~= s@);
    while n > 0 && (v[n - 1] == ',' || v[n - 1] == '.' || v[n - 1] == ';' || v[n - 1] == ':')
        invariant
            v@ == s@,
            n <= v.len(),
            trim_punct(s@) == trim_punct(s@.take(n as int)),
        decreases n,
    {
        assert(s@.take(n as int).drop_last() =~= s@.take(n - 1));
        n = n - 1;
    }
    let mut out: Vec<char> = Vec::new();
    let mut i: usize = 0;
    while i < n
        invariant
            v@ == s@,
            i <= n,
            n <= v.len(),
            out@ == s@.take(i as int),
        decreases n - i,
    {
        out.push(v[i]);
        i = i + 1;
        assert(out@ =~= s@.take(i as int));
    }
    string_from_chars(&out)
}

/// The URL among `matches` (found in `line`) whose character range holds
/// column `col`, without trailing punctuation.
pub fn url_at_column(line: &str, matches: &Vec<RegexMatch>, col: usize) -> (r: Option<String>)
    ensures
        match r {
            Some(u) => url_at_spec(line@, matches@.map_values(|m: RegexMatch| match_view(m)), col) == Some(u@),
            None => url_at_spec(line@, matches@.map_values(|m: RegexMatch| match_view(m)), col) is None,
        },
{
    let chars = chars_of(line);
    let ghost ms = matches@.map_values(|m: RegexMatch| match_view(m));
    let mut i: usize = 0;
    assert(ms.skip(0) =~= ms);
    while i < matches.len()
        invariant
            i <= matches.len(),
            chars@ == line@,
            ms == matches@.map_values(|m: RegexMatch| match_view(m)),
            url_at_spec(line@, ms, col) == url_at_spec(line@, ms.skip(i as int), col),
        decreases matches.len() - i,
    {
        let m = &matches[i];
        assert(ms.skip(i as int)[0] == match_view(*m));
        let first = char_pos(&chars, m.start);
        let last = char_pos(&chars, m.end);
        if first <= col && col <= last {
            return Some(trim_punct_exec(&m.text));
        }
        assert(ms.skip(i as int).drop_first() =~= ms.skip(i + 1));
        i = i + 1;
    }
    None
}

/// Extracts the URL of a terminal line that contains the given column (a
/// character position of the line).
pub fn extract_url_from_line(line: &str, click_col: usize) -> (r: Option<String>)
    ensures
        match regex_matches(URL_PATTERN@, line@) {
            Some(ms) => match r {
                Some(u) => url_at_spec(line@, ms, click_col) == Some(u@),
                None => url_at_spec(line@, ms, click_col) is None,
            },
            None => r is None,
        },
        r matches Some(u) ==> occurs_in(line@, u@) && (u@.len() == 0 || !trailing_punct(u@.last())),
{
    match find_all_matches(URL_PATTERN, line) {
        Some(ms) => {
            let r = url_at_column(line, &ms, click_col);
            proof {
                let vs = ms@.map_values(|m: RegexMatch| match_view(m));
                assert forall|k: int| 0 <= k < vs.len() implies occurs_in(line@, (#[trigger] vs[k]).2) by {
                    assert(vs[k].2 == ms@[k].text@);
                }
                lemma_url_at_shape(line@, vs, click_col);
            }
            r
        },
        None => None,
    }
}

} // verus!
