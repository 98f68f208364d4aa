//! The scrollback search: where a query occurs in a tab's lines, as plain
//! text or a regular expression, with or without telling case apart.

use vstd::prelude::*;
use vstd::string::StrSliceExecFns;
use crate::search::{ascii_lower, ascii_lower_exec};
use crate::text::{chars_of, push_str, string_from_chars};
use crate::url::{chars_before, find_all_matches, match_view, regex_matches, RegexMatch};

verus! {

/// A match: its line, its first column (character position) and its length
/// in characters.
#[derive(Clone, Copy, Debug, PartialEq, Eq, Structural)]
pub struct Hit {
    pub row: usize,
    pub col: usize,
    pub len: usize,
}

/// A character as compared: itself, or its ASCII lower case when case does
/// not matter.
pub open spec fn fold(c: char, case_sensitive: bool) -> char {
    if case_sensitive { c } else { ascii_lower(c) }
}

/// `q` occurs in `l` at column `k`.
pub open spec fn occurs_at(l: Seq<char>, q: Seq<char>, k: int, case_sensitive: bool) -> bool {
    &&& 0 <= k
    &&& k + q.len() <= l.len()
    &&& forall|j: int| 0 <= j < q.len() ==> fold(#[trigger] l[k + j], case_sensitive) == fold(q[j], case_sensitive)
}

/// The occurrences of a non-empty `q` in line `row` from column `k` on,
/// left to right, each search resuming after the previous occurrence.
pub open spec fn line_hits(l: Seq<char>, q: Seq<char>, case_sensitive: bool, row: usize, k: nat) -> Seq<Hit>
    decreases l.len() - k,
{
    if q.len() == 0 || k + q.len() > l.len() {
        Seq::empty()
    } else if occurs_at(l, q, k as int, case_sensitive) {
        seq![Hit { row, col: k as usize, len: q.len() as usize }] + line_hits(l, q, case_sensitive, row, k + q.len())
    } else {
        line_hits(l, q, case_sensitive, row, k + 1)
    }
}

/// The pattern handed to the regex engine: the query, made case-blind with
/// the `(?i)` flag when case does not matter.
pub open spec fn pattern_of(q: Seq<char>, case_sensitive: bool) -> Seq<char> {
    if case_sensitive { q } else { "(?i)"@ + q }
}

/// The regex matches in line `row`, at the columns of their first bytes;
/// none when the pattern does not compile.
pub open spec fn regex_hits(l: Seq<char>, pattern: Seq<char>, row: usize) -> Seq<Hit> {
    match regex_matches(pattern, l) {
        Some(ms) => ms.map_values(|m: (usize, usize, Seq<char>)| Hit { row, col: chars_before(l, m.0 as nat) as usize, len: m.2.len() as usize }),
        None => Seq::empty(),
    }
}

/// The matches of `q` in the first `n` lines, line by line; none for an
/// empty query.
pub open spec fn all_hits(lines: Seq<Seq<char>>, q: Seq<char>, regex: bool, case_sensitive: bool, n: nat) -> Seq<Hit>
    decreases n,
{
    if n == 0 || q.len() == 0 {
        Seq::empty()
    } else {
        let row = (n - 1) as int;
        all_hits(lines, q, regex, case_sensitive, (n - 1) as nat)
            + if regex { regex_hits(lines[row], pattern_of(q, case_sensitive), row as usize) } else { line_hits(lines[row], q, case_sensitive, row as usize, 0) }
    }
}

fn fold_exec(c: char, case_sensitive: bool) -> (r: char)
    ensures
        r == fold(c, case_sensitive),
{
    if case_sensitive { c } else { ascii_lower_exec(c) }
}

fn occurs_exec(l: &Vec<char>, q: &Vec<char>, k: usize, case_sensitive: bool) -> (r: bool)
    requires
        k + q@.len() <= l@.len(),
    ensures
        r == occurs_at(l@, q@, k as int, case_sensitive),
{
    let ln = l.len();
    let mut j: usize = 0;
    while j < q.len()
        invariant
            j <= q@.len(),
            ln == l@.len(),
            k + q@.len() <= l@.len(),
            forall|i: int| 0 <= i < j ==> fold(#[trigger] l@[k + i], case_sensitive) == fold(q@[i], case_sensitive),
        decreases q@.len() - j,
    {
        if fold_exec(l[k + j], case_sensitive) != fold_exec(q[j], case_sensitive) {
            return false;
        }
        j = j + 1;
    }
    true
}

fn push_line_hits(out: &mut Vec<Hit>, l: &Vec<char>, q: &Vec<char>, case_sensitive: bool, row: usize)
    ensures
        final(out)@ == old(out)@ + line_hits(l@, q@, case_sensitive, row, 0),
{
    let ghost full = out@ + line_hits(l@, q@, case_sensitive, row, 0);
    if q.len() == 0 || q.len() > l.len() {
        proof {
            if q@.len() > l@.len() {
                assert(line_hits(l@, q@, case_sensitive, row, 0) == Seq::<Hit>::empty());
            }
        }
        assert(out@ =~= full);
        return;
    }
    let ln = l.len();
    let last = ln - q.len();
    let mut k: usize = 0;
    while k <= last
        invariant
            ln == l@.len(),
            q@.len() > 0,
            last + q@.len() == l@.len(),
            k <= l@.len(),
            full == out@ + line_hits(l@, q@, case_sensitive, row, k as nat),
        decreases l@.len() - k,
    {
        if occurs_exec(l, q, k, case_sensitive) {
            out.push(Hit { row, col: k, len: q.len() });
            k = k + q.len();
        } else {
            k = k + 1;
        }
        assert(full =~= out@ + line_hits(l@, q@, case_sensitive, row, k as nat));
    }
    assert(line_hits(l@, q@, case_sensitive, row, k as nat) == Seq::<Hit>::empty());
    assert(out@ =~= full);
}

fn push_regex_hits(out: &mut Vec<Hit>, line: &str, pattern: &str, row: usize)
    ensures
        final(out)@ == old(out)@ + regex_hits(line@, pattern@, row),
{
    match find_all_matches(pattern, line) {
        Some(ms) => {
            let chars = chars_of(line);
            let ghost start = out@;
            let ghost all = ms@.map_values(|m: RegexMatch| match_view(m)).map_values(|m: (usize, usize, Seq<char>)| Hit { row, col: chars_before(line@, m.0 as nat) as usize, len: m.2.len() as usize });
            let mut i: usize = 0;
            while i < ms.len()
                invariant
                    i <= ms@.len(),
                    chars@ == line@,
                    all == ms@.map_values(|m: RegexMatch| match_view(m)).map_values(|m: (usize, usize, Seq<char>)| Hit { row, col: chars_before(line@, m.0 as nat) as usize, len: m.2.len() as usize }),
                    out@ == start + all.take(i as int),
                decreases ms@.len() - i,
            {
                let col = crate::url::char_pos(&chars, ms[i].start);
                let t = chars_of(ms[i].text.as_str());
                out.push(Hit { row, col, len: t.len() });
                i = i + 1;
                assert(out@ =~= start + all.take(i as int));
            }
            assert(all.take(i as int) =~= all);
        },
        None => {},
    }
}

/// Where `query` occurs in `lines`: as plain text (each occurrence after the
/// previous one) or as a regular expression, with or without telling case
/// apart; nothing for an empty query.
pub fn find_in_lines(lines: &Vec<String>, query: &str, regex: bool, case_sensitive: bool) -> (r: Vec<Hit>)
    ensures
        r@ == all_hits(lines@.map_values(|s: String| s@), query@, regex, case_sensitive, lines@.len()),
{
    let ghost ls = lines@.map_values(|s: String| s@);
    let mut out: Vec<Hit> = Vec::new();
    let q = chars_of(query);
    if q.len() == 0 {
        proof {
            assert(forall|n: nat| all_hits(ls, query@, regex, case_sensitive, n) == Seq::<Hit>::empty()) by {
                assert forall|n: nat| all_hits(ls, query@, regex, case_sensitive, n) == Seq::<Hit>::empty() by {}
            }
        }
        return out;
    }
    let mut pattern: Vec<char> = Vec::new();
    if !case_sensitive {
        push_str(&mut pattern, "(?i)");
    }
    push_str(&mut pattern, query);
    let pat = string_from_chars(&pattern);
    assert(pat@ == pattern_of(query@, case_sensitive));
    let mut row: usize = 0;
    while row < lines.len()
        invariant
            row <= lines@.len(),
            q@ == query@,
            q@.len() > 0,
            ls == lines@.map_values(|s: String| s@),
            pat@ == pattern_of(query@, case_sensitive),
            out@ == all_hits(ls, query@, regex, case_sensitive, row as nat),
        decreases lines@.len() - row,
    {
        if regex {
            push_regex_hits(&mut out, lines[row].as_str(), pat.as_str(), row);
        } else {
            let l = chars_of(lines[row].as_str());
            push_line_hits(&mut out, &l, &q, case_sensitive, row);
        }
        row = row + 1;
    }
    out
}

/// The search bar over the tab while searching: the query (or a prompt
/// mark), the position among the matches or that there are none, and the
/// mode tags.
pub open spec fn search_bar_spec(query: Seq<char>, current: nat, total: nat, regex: bool, case_sensitive: bool) -> Seq<char> {
    let tags = (if regex { " [REGEX]"@ } else { Seq::empty() }) + (if case_sensitive { " [CASE]"@ } else { Seq::empty() });
    if query.len() == 0 {
        " Search:_"@ + tags
    } else if total == 0 {
        " Search: "@ + query + " (no matches)"@ + tags
    } else {
        " Search: "@ + query + " ("@ + crate::text::decimal(current + 1) + "/"@ + crate::text::decimal(total) + ")"@ + tags
    }
}

/// The search bar text, showing match `current` (from zero) of `total`.
pub fn search_bar(query: &str, current: usize, total: usize, regex: bool, case_sensitive: bool) -> (r: String)
    requires
        total == 0 || current < total,
    ensures
        r@ == search_bar_spec(query@, current as nat, total as nat, regex, case_sensitive),
{
    let mut v: Vec<char> = Vec::new();
    if query.unicode_len() == 0 {
        push_str(&mut v, " Search:_");
    } else if total == 0 {
        push_str(&mut v, " Search: ");
        push_str(&mut v, query);
        push_str(&mut v, " (no matches)");
    } else {
        push_str(&mut v, " Search: ");
        push_str(&mut v, query);
        push_str(&mut v, " (");
        crate::text::push_decimal(&mut v, (current + 1) as u64);
        push_str(&mut v, "/");
        crate::text::push_decimal(&mut v, total as u64);
        push_str(&mut v, ")");
    }
    let ghost base = v@;
    if regex {
        push_str(&mut v, " [REGEX]");
    }
    let ghost mid = v@;
    assert(mid =~= base + (if regex { " [REGEX]"@ } else { Seq::<char>::empty() }));
    if case_sensitive {
        push_str(&mut v, " [CASE]");
    }
    assert(v@ =~= search_bar_spec(query@, current as nat, total as nat, regex, case_sensitive));
    string_from_chars(&v)
}

} // verus!
