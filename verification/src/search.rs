//! Fuzzy matching of sessions against a search query, tag matching, and the
//! date-prefix syntax of sidebar searches (`>7d fix`).

use vstd::prelude::*;
use crate::text::{chars_of, contains_spec, contains_str, string_from_chars};
use crate::ordering::{lowercase, to_lowercase};
use crate::types::Session;

verus! {

// ───────────────────────── fuzzy matching (code_fuzzy_match) ─────────────────────────

/// What `code_fuzzy_match::fuzzy_match(target, query)` returns.
pub uninterp spec fn fuzzy_score(target: Seq<char>, query: Seq<char>) -> Option<usize>;

/// Calls `code_fuzzy_match::fuzzy_match`. The crate returns `None` instead of a
/// zero score, so a returned score is positive; an empty query never matches
/// (its final score is zero).
#[verifier::external_body]
fn fuzzy_match(target: &str, query: &str) -> (r: Option<usize>)
    ensures
        r == fuzzy_score(target@, query@),
        r matches Some(s) ==> s > 0,
        query@.len() == 0 ==> r is None,
{
    code_fuzzy_match::fuzzy_match(target, query)
}

/// `text` fuzzy-matches `query` with a positive score.
pub open spec fn fuzzy_hit(text: Seq<char>, query: Seq<char>) -> bool {
    fuzzy_score(text, query) matches Some(s) && s > 0
}

/// A session (by title or short id) matches the query.
pub open spec fn session_fuzzy_spec(title: Seq<char>, short_id: Seq<char>, query: Seq<char>) -> bool {
    fuzzy_hit(title, query) || fuzzy_hit(short_id, query)
}

/// True when the title or the short id fuzzy-matches `query`. An empty
/// query matches nothing, and a match always has a score above zero.
pub fn session_fuzzy_score(title: &str, short_id: &str, query: &str) -> (r: bool)
    ensures
        r == session_fuzzy_spec(title@, short_id@, query@),
        query@.len() == 0 ==> !r,
        r ==> (fuzzy_score(title@, query@) matches Some(s) && s > 0) || (fuzzy_score(short_id@, query@) matches Some(s) && s > 0),
{
    let a = match fuzzy_match(title, query) {
        Some(s) => s > 0,
        None => false,
    };
    if a {
        return true;
    }
    match fuzzy_match(short_id, query) {
        Some(s) => s > 0,
        None => false,
    }
}

// ───────────────────────── ASCII case-insensitive comparison ─────────────────────────

/// The ASCII lower-case form of a character; other characters unchanged.
pub open spec fn ascii_lower(c: char) -> char {
    if 'A' <= c && c <= 'Z' { ((c as u32) + 32) as char } else { c }
}

/// `str::eq_ignore_ascii_case` on character sequences.
pub open spec fn eq_ignore_ascii_case_spec(a: Seq<char>, b: Seq<char>) -> bool {
    a.len() == b.len() && forall|i: int| 0 <= i < a.len() ==> ascii_lower(#[trigger] a[i]) == ascii_lower(b[i])
}

pub(crate) fn ascii_lower_exec(c: char) -> (r: char)
    ensures
        r == ascii_lower(c),
{
    if 'A' <= c && c <= 'Z' {
        let u = (c as u32) + 32;
        assert(0x61 <= u <= 0x7a);
        char_from_ascii(u)
    } else {
        c
    }
}

fn char_from_ascii(u: u32) -> (c: char)
    requires
        u < 128,
    ensures
        c == u as char,
{
    (u as u8) as char
}

/// Compares two strings ignoring ASCII case.
pub fn eq_ignore_ascii_case(a: &str, b: &str) -> (r: bool)
    ensures
        r == eq_ignore_ascii_case_spec(a@, b@),
{
    let va = chars_of(a);
    let vb = chars_of(b);
    if va.len() != vb.len() {
        return false;
    }
    let mut i: usize = 0;
    while i < va.len()
        invariant
            va@ == a@,
            vb@ == b@,
            va.len() == vb.len(),
            i <= va.len(),
            forall|j: int| 0 <= j < i ==> ascii_lower(#[trigger] a@[j]) == ascii_lower(b@[j]),
        decreases va.len() - i,
    {
        if ascii_lower_exec(va[i]) != ascii_lower_exec(vb[i]) {
            return false;
        }
        i = i + 1;
    }
    true
}

/// Some tag equals `tag`, ignoring ASCII case.
pub open spec fn has_tag_spec(tags: Seq<String>, tag: Seq<char>) -> bool {
    exists|k: int| 0 <= k < tags.len() && eq_ignore_ascii_case_spec(#[trigger] tags[k]@, tag)
}

/// True when one of `tags` equals `tag` ignoring ASCII case.
pub fn has_tag(tags: &Vec<String>, tag: &str) -> (r: bool)
    ensures
        r == has_tag_spec(tags@, tag@),
{
    let mut k: usize = 0;
    while k < tags.len()
        invariant
            k <= tags.len(),
            forall|j: int| 0 <= j < k ==> !eq_ignore_ascii_case_spec(#[trigger] tags@[j]@, tag@),
        decreases tags.len() - k,
    {
        if eq_ignore_ascii_case(tags[k].as_str(), tag) {
            return true;
        }
        k = k + 1;
    }
    false
}

// ───────────────────────── short ids ─────────────────────────

/// The first eight characters of a session id (the whole id if shorter).
pub open spec fn short_id_spec(id: Seq<char>) -> Seq<char> {
    if id.len() <= 8 { id } else { id.take(8) }
}

/// The short form of a session id shown in the sidebar.
pub fn short_id(id: &str) -> (r: String)
    ensures
        r@ == short_id_spec(id@),
{
    let v = chars_of(id);
    let mut out: Vec<char> = Vec::new();
    let mut i: usize = 0;
    while i < v.len() && i < 8
        invariant
            v@ == id@,
            i <= v.len(),
            i <= 8,
            out@ == id@.take(i as int),
        decreases v.len() - i,
    {
        out.push(v[i]);
        i = i + 1;
        assert(out@ =~= id@.take(i as int));
    }
    assert(id@.len() <= 8 ==> id@.take(id@.len() as int) =~= id@);
    string_from_chars(&out)
}

// ───────────────────────── search query syntax ─────────────────────────

/// A parsed sidebar search: optional fuzzy text and optional minimum
/// last-activity time (from a `>7d` / `>12h` / `>30m` prefix).
pub struct SearchQuery {
    pub text: Option<String>,
    pub min_last_active: Option<u64>,
}

/// The character is a decimal digit.
pub open spec fn is_digit(c: char) -> bool {
    '0' <= c && c <= '9'
}

/// The value of a decimal digit.
pub open spec fn digit_val(c: char) -> nat {
    ((c as u32) - ('0' as u32)) as nat
}

/// Value of a run of decimal digits.
pub open spec fn digits_value(s: Seq<char>) -> nat
    decreases s.len(),
{
    if s.len() == 0 { 0 } else { digits_value(s.drop_last()) * 10 + digit_val(s.last()) }
}

/// Seconds in one unit of a date prefix: `d`, `h` or `m`; 0 for anything else.
pub open spec fn unit_secs(c: char) -> nat {
    if c == 'd' { 86400 } else if c == 'h' { 3600 } else if c == 'm' { 60 } else { 0 }
}

/// Number of leading digits after the `>`.
pub open spec fn digit_run(q: Seq<char>, k: int) -> bool {
    &&& 1 <= k < q.len()
    &&& forall|j: int| 1 <= j < k ==> is_digit(#[trigger] q[j])
    &&& !is_digit(q[k])
}

/// The query has a date prefix whose digits end (exclusive) at `k`: `>`,
/// one or more digits, a unit among d/h/m, then the end or a space.
pub open spec fn has_date_prefix(q: Seq<char>, k: int) -> bool {
    &&& q.len() >= 3
    &&& q[0] == '>'
    &&& digit_run(q, k)
    &&& k >= 2
    &&& unit_secs(q[k]) > 0
    &&& (k + 1 == q.len() || q[k + 1] == ' ')
}

/// Drops leading spaces.
pub open spec fn skip_spaces(s: Seq<char>) -> Seq<char>
    decreases s.len(),
{
    if s.len() > 0 && s[0] == ' ' { skip_spaces(s.drop_first()) } else { s }
}

/// `now` minus `amount` seconds, saturating at 0.
pub open spec fn cutoff_spec(now: u64, amount: nat) -> u64 {
    if amount >= now { 0 } else { (now - amount) as u64 }
}

/// The date cutoff of a search string: with a date prefix, `now` minus the
/// duration (saturating at 0); otherwise none.
pub open spec fn query_cutoff(q: Seq<char>, now: u64) -> Option<u64> {
    if exists|k: int| has_date_prefix(q, k) {
        let k = choose|k: int| has_date_prefix(q, k);
        Some(cutoff_spec(now, digits_value(q.subrange(1, k)) * unit_secs(q[k])))
    } else {
        None
    }
}

/// The fuzzy text of a search string: after a date prefix, what follows it
/// (none if nothing follows); otherwise the whole string (none if empty).
pub open spec fn query_text(q: Seq<char>) -> Option<Seq<char>> {
    if exists|k: int| has_date_prefix(q, k) {
        let k = choose|k: int| has_date_prefix(q, k);
        let rest = skip_spaces(q.skip(k + 1));
        if rest.len() == 0 { None } else { Some(rest) }
    } else {
        if q.len() == 0 { None } else { Some(q) }
    }
}

/// The parsed form of a search query: its text part and its activity cutoff.
pub open spec fn search_query_spec(q: Seq<char>, now: u64, text: Option<Seq<char>>, cutoff: Option<u64>) -> bool {
    text == query_text(q) && cutoff == query_cutoff(q, now)
}

/// The character sequence of an optional string.
pub open spec fn opt_string_view(o: Option<String>) -> Option<Seq<char>> {
    match o {
        Some(s) => Some(s@),
        None => None,
    }
}

proof fn lemma_digit_run_unique(q: Seq<char>, k1: int, k2: int)
    requires
        digit_run(q, k1),
        digit_run(q, k2),
    ensures
        k1 == k2,
{
    if k1 < k2 {
        assert(is_digit(q[k1]));
    } else if k2 < k1 {
        assert(is_digit(q[k2]));
    }
}

/// Splits a sidebar search into its date cutoff and fuzzy text.
pub fn parse_search_query(query: &str, now: u64) -> (r: SearchQuery)
    ensures
        search_query_spec(query@, now, opt_string_view(r.text), r.min_last_active),
{
    let q = chars_of(query);
    let n = q.len();
    if n >= 3 && q[0] == '>' {
        // scan digits
        let mut k: usize = 1;
        let mut value: u64 = 0;
        let mut overflow = false;
        while k < n && '0' <= q[k] && q[k] <= '9'
            invariant
                q@ == query@,
                n == q.len(),
                1 <= k <= n,
                forall|j: int| 1 <= j < k ==> is_digit(#[trigger] q@[j]),
                !overflow ==> value as nat == digits_value(q@.subrange(1, k as int)),
                overflow ==> digits_value(q@.subrange(1, k as int)) > u64::MAX,
            decreases n - k,
        {
            let d = ((q[k] as u32) - ('0' as u32)) as u64;
            let ghost prev = q@.subrange(1, k as int);
            assert(q@.subrange(1, k + 1).drop_last() =~= prev);
            if !overflow {
                if value > (u64::MAX - d) / 10 {
                    overflow = true;
                    assert(value * 10 + d > u64::MAX) by (nonlinear_arith)
                        requires value > (u64::MAX - d) / 10, d <= 9;
                } else {
                    assert(value * 10 + d <= u64::MAX) by (nonlinear_arith)
                        requires value <= (u64::MAX - d) / 10, d <= 9;
                    value = value * 10 + d;
                }
            } else {
                assert(digits_value(q@.subrange(1, k + 1)) >= digits_value(prev) * 10);
            }
            k = k + 1;
        }
        if k >= 2 && k < n && (q[k] == 'd' || q[k] == 'h' || q[k] == 'm') && (k + 1 == n || q[k + 1] == ' ') {
            proof {
                assert(digit_run(q@, k as int));
                assert(has_date_prefix(q@, k as int));
                let kk = choose|kk: int| has_date_prefix(query@, kk);
                lemma_digit_run_unique(q@, k as int, kk);
            }
            let unit: u64 = if q[k] == 'd' { 86400 } else if q[k] == 'h' { 3600 } else { 60 };
            let cutoff: u64 = if overflow {
                proof {
                    assert(digits_value(q@.subrange(1, k as int)) * unit_secs(q@[k as int]) >= digits_value(q@.subrange(1, k as int))) by (nonlinear_arith)
                        requires unit_secs(q@[k as int]) >= 1;
                }
                0
            } else {
                match value.checked_mul(unit) {
                    Some(amount) => if amount >= now { 0 } else { now - amount },
                    None => 0,
                }
            };
            // text after the unit, with leading spaces dropped
            let mut s: usize = k + 1;
            proof { lemma_skip_spaces_prefix(q@.skip(k + 1), 0); }
            while s < n && q[s] == ' '
                invariant
                    q@ == query@,
                    n == q.len(),
                    k + 1 <= s <= n,
                    skip_spaces(q@.skip(k + 1)) == skip_spaces(q@.skip(s as int)),
                decreases n - s,
            {
                assert(q@.skip(s as int).drop_first() =~= q@.skip(s + 1));
                s = s + 1;
            }
            let mut rest: Vec<char> = Vec::new();
            let mut t: usize = s;
            while t < n
                invariant
                    q@ == query@,
                    n == q.len(),
                    s <= t <= n,
                    rest@ == q@.subrange(s as int, t as int),
                decreases n - t,
            {
                rest.push(q[t]);
                t = t + 1;
                assert(rest@ =~= q@.subrange(s as int, t as int));
            }
            proof {
                assert(rest@ =~= q@.skip(s as int));
                if s < n {
                    assert(q@.skip(s as int)[0] != ' ');
                }
                assert(skip_spaces(q@.skip(s as int)) == q@.skip(s as int));
            }
            let text = if rest.len() == 0 { None } else { Some(string_from_chars(&rest)) };
            return SearchQuery { text, min_last_active: Some(cutoff) };
        }
        proof {
            if exists|kk: int| has_date_prefix(query@, kk) {
                let kk = choose|kk: int| has_date_prefix(query@, kk);
                assert(digit_run(q@, k as int));
                lemma_digit_run_unique(q@, k as int, kk);
            }
        }
    }
    let text = if n == 0 { None } else { Some(string_from_chars(&q)) };
    SearchQuery { text, min_last_active: None }
}

/// A session matches a transcript search for `q` when its title or its
/// last message contains `q`, ignoring case.
pub open spec fn text_hit(s: Session, q: Seq<char>) -> bool {
    ||| contains_spec(lowercase(s.title@), lowercase(q))
    ||| (s.last_message matches Some(m) && contains_spec(lowercase(m@), lowercase(q)))
}

/// The ids of the matching sessions among the first `n`, in order.
pub open spec fn text_hits(ss: Seq<Session>, q: Seq<char>, n: nat) -> Seq<Seq<char>>
    decreases n,
{
    if n == 0 {
        Seq::empty()
    } else {
        let i = n - 1;
        text_hits(ss, q, i as nat) + (if text_hit(ss[i], q) { seq![ss[i].id@] } else { Seq::empty() })
    }
}

/// The ids of the sessions whose title or last message contains `query`,
/// ignoring case, in session order.
pub fn search_sessions(sessions: &Vec<Session>, query: &str) -> (r: Vec<String>)
    ensures
        r@.map_values(|x: String| x@) == text_hits(sessions@, query@, sessions.len() as nat),
{
    let q = to_lowercase(query);
    let mut out: Vec<String> = Vec::new();
    let mut i: usize = 0;
    while i < sessions.len()
        invariant
            i <= sessions.len(),
            q@ == lowercase(query@),
            out@.map_values(|x: String| x@) == text_hits(sessions@, query@, i as nat),
        decreases sessions.len() - i,
    {
        let s = &sessions[i];
        let title = to_lowercase(s.title.as_str());
        let mut hit = contains_str(title.as_str(), q.as_str());
        if !hit {
            if let Some(m) = &s.last_message {
                let lm = to_lowercase(m.as_str());
                hit = contains_str(lm.as_str(), q.as_str());
            }
        }
        assert(hit == text_hit(sessions@[i as int], query@));
        let ghost before = out@;
        if hit {
            out.push(s.id.clone());
        }
        assert(out@.map_values(|x: String| x@) =~= text_hits(sessions@, query@, (i + 1) as nat));
        i = i + 1;
    }
    out
}

proof fn lemma_skip_spaces_prefix(s: Seq<char>, i: int)
    requires
        i == 0,
    ensures
        skip_spaces(s) == skip_spaces(s.skip(i)),
{
    assert(s.skip(0) =~= s);
}

} // verus!
