//! Text shown in the sidebar and tab bar: truncation to a byte budget and
//! the secondary line under a session.

use vstd::prelude::*;
use crate::text::{chars_of, decimal, push_decimal, push_str, string_from_chars};
use crate::types::DiffSummary;

verus! {

/// Bytes `c` takes in UTF-8.
pub open spec fn utf8_width(c: char) -> nat {
    if (c as u32) < 0x80 { 1 } else if (c as u32) < 0x800 { 2 } else if (c as u32) < 0x10000 { 3 } else { 4 }
}

/// Length in bytes of the UTF-8 encoding of `s` (what `str::len` returns).
pub open spec fn byte_len(s: Seq<char>) -> nat
    decreases s.len(),
{
    if s.len() == 0 { 0 } else { byte_len(s.drop_last()) + utf8_width(s.last()) }
}

pub(crate) fn char_width(c: char) -> (w: usize)
    ensures
        w as nat == utf8_width(c),
{
    let u = c as u32;
    if u < 0x80 { 1 } else if u < 0x800 { 2 } else if u < 0x10000 { 3 } else { 4 }
}

/// How long ago `then` was, seen at `now`: `just now` under a minute, then
/// whole minutes, hours or days (`5m ago`, `2h ago`, `3d ago`).
pub open spec fn relative_time_spec(now: nat, then: nat) -> Seq<char> {
    let d: nat = if now >= then { (now - then) as nat } else { 0 };
    if d < 60 {
        "just now"@
    } else if d < 3600 {
        decimal(d / 60) + "m ago"@
    } else if d < 86400 {
        decimal(d / 3600) + "h ago"@
    } else {
        decimal(d / 86400) + "d ago"@
    }
}

/// The relative time shown for a session last active at `then`.
pub fn relative_time(now: u64, then: u64) -> (r: String)
    ensures
        r@ == relative_time_spec(now as nat, then as nat),
{
    let d: u64 = if now >= then { now - then } else { 0 };
    let mut v: Vec<char> = Vec::new();
    if d < 60 {
        push_str(&mut v, "just now");
    } else if d < 3600 {
        push_decimal(&mut v, d / 60);
        push_str(&mut v, "m ago");
    } else if d < 86400 {
        push_decimal(&mut v, d / 3600);
        push_str(&mut v, "h ago");
    } else {
        push_decimal(&mut v, d / 86400);
        push_str(&mut v, "d ago");
    }
    assert(v@ =~= relative_time_spec(now as nat, then as nat));
    string_from_chars(&v)
}

/// `k` is the number of leading characters of `s` that fit in `budget` bytes.
pub open spec fn fitting_prefix(s: Seq<char>, budget: nat, k: int) -> bool {
    &&& 0 <= k <= s.len()
    &&& byte_len(s.take(k)) <= budget
    &&& (k < s.len() ==> byte_len(s.take(k + 1)) > budget)
}

proof fn lemma_byte_len_take_step(s: Seq<char>, k: int)
    requires
        0 <= k < s.len(),
    ensures
        byte_len(s.take(k + 1)) == byte_len(s.take(k)) + utf8_width(s[k]),
{
    assert(s.take(k + 1).drop_last() =~= s.take(k));
}

proof fn lemma_byte_len_monotone(s: Seq<char>, a: int, b: int)
    requires
        0 <= a <= b <= s.len(),
    ensures
        byte_len(s.take(a)) <= byte_len(s.take(b)),
    decreases b - a,
{
    if a < b {
        lemma_byte_len_monotone(s, a, b - 1);
        lemma_byte_len_take_step(s, b - 1);
    }
}

/// There is exactly one fitting prefix length.
pub proof fn lemma_fitting_prefix_unique(s: Seq<char>, budget: nat, k1: int, k2: int)
    requires
        fitting_prefix(s, budget, k1),
        fitting_prefix(s, budget, k2),
    ensures
        k1 == k2,
{
    if k1 < k2 {
        lemma_byte_len_monotone(s, k1 + 1, k2);
    } else if k2 < k1 {
        lemma_byte_len_monotone(s, k2 + 1, k1);
    }
}

/// Length of the longest prefix fitting `budget` bytes.
fn fit(v: &Vec<char>, budget: usize) -> (k: usize)
    ensures
        fitting_prefix(v@, budget as nat, k as int),
        (k == v.len()) == (byte_len(v@) <= budget),
{
    let mut k: usize = 0;
    let mut used: usize = 0;
    while k < v.len()
        invariant
            k <= v.len(),
            used as nat == byte_len(v@.take(k as int)),
            used <= budget,
        decreases v.len() - k,
    {
        let w = char_width(v[k]);
        proof { lemma_byte_len_take_step(v@, k as int); }
        if w > budget - used {
            assert(fitting_prefix(v@, budget as nat, k as int));
            proof {
                assert(v@.take(v.len() as int) =~= v@);
                lemma_byte_len_monotone(v@, k + 1, v.len() as int);
            }
            return k;
        }
        used = used + w;
        k = k + 1;
    }
    assert(v@.take(v.len() as int) =~= v@);
    k
}

fn take_chars(v: &Vec<char>, k: usize) -> (r: Vec<char>)
    requires
        k <= v.len(),
    ensures
        r@ == v@.take(k as int),
{
    let mut out: Vec<char> = Vec::new();
    let mut i: usize = 0;
    while i < k
        invariant
            i <= k,
            k <= v.len(),
            out@ == v@.take(i as int),
        decreases k - i,
    {
        out.push(v[i]);
        i = i + 1;
        assert(out@ =~= v@.take(i as int));
    }
    out
}

/// The longest prefix of `s` that fits `budget` bytes.
pub open spec fn fit_prefix(s: Seq<char>, budget: nat) -> Seq<char> {
    s.take(choose|k: int| #[trigger] fitting_prefix(s, budget, k))
}


proof fn lemma_fitting_from(s: Seq<char>, budget: nat, k: int) -> (r: int)
    requires
        0 <= k <= s.len(),
        byte_len(s.take(k)) <= budget,
    ensures
        fitting_prefix(s, budget, r),
    decreases s.len() - k,
{
    if k == s.len() || byte_len(s.take(k + 1)) > budget {
        k
    } else {
        lemma_fitting_from(s, budget, k + 1)
    }
}

/// The longest fitting prefix does fit: it is a prefix of `s` of at most
/// `budget` bytes.
pub proof fn lemma_fit_prefix_fits(s: Seq<char>, budget: nat)
    ensures
        byte_len(fit_prefix(s, budget)) <= budget,
        s.take(fit_prefix(s, budget).len() as int) == fit_prefix(s, budget),
{
    assert(s.take(0) =~= Seq::<char>::empty());
    let k = lemma_fitting_from(s, budget, 0);
    let c = choose|c: int| #[trigger] fitting_prefix(s, budget, c);
    lemma_fitting_prefix_unique(s, budget, k, c);
    assert(s.take(c).len() == c);
}

/// A title truncated to `max_len` bytes with `...` appended; unchanged when
/// it fits or when `max_len <= 3`.
pub open spec fn truncate_title_spec(title: Seq<char>, max_len: nat) -> Seq<char> {
    if max_len <= 3 || byte_len(title) <= max_len {
        title
    } else {
        fit_prefix(title, (max_len - 3) as nat) + "..."@
    }
}


proof fn lemma_byte_len_add(a: Seq<char>, b: Seq<char>)
    ensures
        byte_len(a + b) == byte_len(a) + byte_len(b),
    decreases b.len(),
{
    if b.len() == 0 {
        assert(a + b =~= a);
    } else {
        lemma_byte_len_add(a, b.drop_last());
        assert((a + b).drop_last() =~= a + b.drop_last());
    }
}

/// A title truncated for a budget of more than three bytes fits the budget.
pub proof fn lemma_truncate_title_fits(title: Seq<char>, max_len: nat)
    requires
        max_len > 3,
    ensures
        byte_len(truncate_title_spec(title, max_len)) <= max_len,
{
    if byte_len(title) > max_len {
        reveal_strlit("...");
        lemma_fit_prefix_fits(title, (max_len - 3) as nat);
        lemma_byte_len_add(fit_prefix(title, (max_len - 3) as nat), "..."@);
        let d = "..."@;
        assert(d =~= seq!['.', '.', '.']);
        assert(byte_len(d) == 3) by {
            assert(d.drop_last() =~= seq!['.', '.']);
            assert(seq!['.', '.'].drop_last() =~= seq!['.']);
            assert(seq!['.'].drop_last() =~= Seq::<char>::empty());
            assert(('.' as u32) < 0x80);
            assert(utf8_width('.') == 1);
            assert(byte_len(Seq::<char>::empty()) == 0);
            assert(byte_len(seq!['.']) == 1);
            assert(byte_len(seq!['.', '.']) == 2);
        }
    }
}

/// Truncates a title to `max_len` bytes, appending `...` when truncated.
/// Returns the title unchanged when `max_len <= 3` or it fits.
pub fn truncate_title(title: &str, max_len: usize) -> (r: String)
    ensures
        r@ == truncate_title_spec(title@, max_len as nat),
{
    proof { reveal_strlit("..."); }
    let v = chars_of(title);
    if max_len <= 3 {
        return string_from_chars(&v);
    }
    let all = fit(&v, max_len);
    if all == v.len() {
        return string_from_chars(&v);
    }
    let k = fit(&v, max_len - 3);
    proof {
        let c = choose|c: int| #[trigger] fitting_prefix(title@, (max_len - 3) as nat, c);
        lemma_fitting_prefix_unique(title@, (max_len - 3) as nat, k as int, c);
    }
    let mut out = take_chars(&v, k);
    push_str(&mut out, "...");
    string_from_chars(&out)
}

/// `s` cut to its longest prefix of at most `max` bytes (at a character
/// boundary).
pub fn cut_to_bytes(s: &str, max: usize) -> (r: String)
    ensures
        r@ == fit_prefix(s@, max as nat),
        byte_len(r@) <= max,
{
    let v = chars_of(s);
    let k = fit(&v, max);
    proof {
        let c = choose|c: int| #[trigger] fitting_prefix(s@, max as nat, c);
        lemma_fitting_prefix_unique(s@, max as nat, k as int, c);
    }
    let out = take_chars(&v, k);
    string_from_chars(&out)
}

/// A string cut to `max_len` bytes with `...` appended when it does not fit.
pub open spec fn truncate_str_spec(s: Seq<char>, max_len: nat) -> Seq<char> {
    if byte_len(s) <= max_len { s } else { fit_prefix(s, max_len) + "..."@ }
}

/// Truncates `s` to at most `max_len` bytes (at a character boundary) and
/// appends `...` when it had to be cut.
pub fn truncate_str(s: &str, max_len: usize) -> (r: String)
    ensures
        r@ == truncate_str_spec(s@, max_len as nat),
{
    proof { reveal_strlit("..."); }
    let v = chars_of(s);
    let k = fit(&v, max_len);
    if k == v.len() {
        return string_from_chars(&v);
    }
    proof {
        let c = choose|c: int| #[trigger] fitting_prefix(s@, max_len as nat, c);
        lemma_fitting_prefix_unique(s@, max_len as nat, k as int, c);
    }
    let mut out = take_chars(&v, k);
    push_str(&mut out, "...");
    string_from_chars(&out)
}

/// `parts` joined with `sep` between consecutive parts.
pub open spec fn join(parts: Seq<Seq<char>>, sep: Seq<char>) -> Seq<char>
    decreases parts.len(),
{
    if parts.len() == 0 {
        Seq::empty()
    } else if parts.len() == 1 {
        parts[0]
    } else {
        join(parts.drop_last(), sep) + sep + parts.last()
    }
}

/// The parts of a session's secondary line, in order: relative time with
/// short id, state label, tags, diff statistics (when files changed), last
/// message (when non-empty).
pub open spec fn secondary_parts(relative_time: Seq<char>, short_id: Seq<char>, state_label: Option<Seq<char>>, tags: Seq<Seq<char>>, diff: Option<(nat, nat, nat)>, last_message: Option<Seq<char>>) -> Seq<Seq<char>> {
    seq![relative_time + " ("@ + short_id + ")"@]
        + (match state_label { Some(l) => seq![l], None => Seq::empty() })
        + (if tags.len() > 0 { seq!["tags: "@ + join(tags, ", "@)] } else { Seq::empty() })
        + (match diff {
            Some((ins, del, files)) => if files > 0 { seq!["+"@ + decimal(ins) + "/-"@ + decimal(del) + " "@ + decimal(files) + "f"@] } else { Seq::empty() },
            None => Seq::empty(),
        })
        + (match last_message { Some(m) => if m.len() > 0 { seq![m] } else { Seq::empty() }, None => Seq::empty() })
}

/// The character sequences of a list of strings.
pub open spec fn strings_view(v: Seq<String>) -> Seq<Seq<char>> {
    v.map_values(|s: String| s@)
}

/// The character sequence of an optional string slice.
pub open spec fn opt_str_view(o: Option<&str>) -> Option<Seq<char>> {
    match o { Some(s) => Some(s@), None => None }
}

/// Insertions, deletions and the number of changed files of a diff summary.
pub open spec fn diff_view(d: Option<&DiffSummary>) -> Option<(nat, nat, nat)> {
    match d { Some(x) => Some((x.insertions as nat, x.deletions as nat, x.files_changed.len() as nat)), None => None }
}

/// Appends `parts` joined by `sep`.
pub(crate) fn push_joined(v: &mut Vec<char>, parts: &Vec<String>, sep: &str)
    ensures
        final(v)@ == old(v)@ + join(strings_view(parts@), sep@),
{
    let ghost start = v@;
    let mut i: usize = 0;
    while i < parts.len()
        invariant
            i <= parts.len(),
            v@ == start + join(strings_view(parts@.take(i as int)), sep@),
        decreases parts.len() - i,
    {
        let ghost before = v@;
        if i > 0 {
            push_str(v, sep);
        }
        push_str(v, parts[i].as_str());
        proof {
            let pv = strings_view(parts@.take(i + 1));
            assert(pv.drop_last() =~= strings_view(parts@.take(i as int)));
            assert(pv.last() == parts@[i as int]@);
            if i == 0 {
                assert(pv.len() == 1);
            }
        }
        i = i + 1;
        assert(v@ =~= start + join(strings_view(parts@.take(i as int)), sep@));
    }
    assert(parts@.take(parts.len() as int) =~= parts@);
}

/// The dimmed line under a session row: its parts joined by ` · `, indented
/// by three spaces.
pub fn session_secondary_text(
    relative_time: &str,
    short_id: &str,
    state_label: Option<&str>,
    tags: &Vec<String>,
    diff_summary: Option<&DiffSummary>,
    last_message: Option<&str>,
) -> (r: String)
    ensures
        r@ == "   "@ + join(secondary_parts(relative_time@, short_id@, opt_str_view(state_label), strings_view(tags@), diff_view(diff_summary), opt_str_view(last_message)), " · "@),
{
    proof {
        reveal_strlit(" (");
        reveal_strlit(")");
        reveal_strlit("tags: ");
        reveal_strlit(", ");
        reveal_strlit("+");
        reveal_strlit("/-");
        reveal_strlit(" ");
        reveal_strlit("f");
        reveal_strlit("   ");
        reveal_strlit(" · ");
    }
    let mut parts: Vec<String> = Vec::new();
    let mut first: Vec<char> = Vec::new();
    push_str(&mut first, relative_time);
    push_str(&mut first, " (");
    push_str(&mut first, short_id);
    push_str(&mut first, ")");
    parts.push(string_from_chars(&first));
    match state_label {
        Some(l) => { parts.push(String::from_str(l)); },
        None => {},
    }
    if tags.len() > 0 {
        let mut t: Vec<char> = Vec::new();
        push_str(&mut t, "tags: ");
        push_joined(&mut t, tags, ", ");
        parts.push(string_from_chars(&t));
    }
    match diff_summary {
        Some(d) => {
            if d.files_changed.len() > 0 {
                let mut t: Vec<char> = Vec::new();
                push_str(&mut t, "+");
                push_decimal(&mut t, d.insertions as u64);
                push_str(&mut t, "/-");
                push_decimal(&mut t, d.deletions as u64);
                push_str(&mut t, " ");
                push_decimal(&mut t, d.files_changed.len() as u64);
                push_str(&mut t, "f");
                parts.push(string_from_chars(&t));
            }
        },
        None => {},
    }
    match last_message {
        Some(m) => {
            if m.unicode_len() > 0 {
                parts.push(String::from_str(m));
            }
        },
        None => {},
    }
    assert(strings_view(parts@) =~= secondary_parts(relative_time@, short_id@, opt_str_view(state_label), strings_view(tags@), diff_view(diff_summary), opt_str_view(last_message)));
    let mut out: Vec<char> = Vec::new();
    push_str(&mut out, "   ");
    push_joined(&mut out, &parts, " · ");
    string_from_chars(&out)
}

} // verus!
