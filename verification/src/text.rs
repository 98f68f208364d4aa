//! Character-level text utilities shared by the rest of the library.

use vstd::prelude::*;
use vstd::string::StrSliceExecFns;

verus! {

/// The characters of a string slice, in order.
pub fn chars_of(s: &str) -> (v: Vec<char>)
    ensures
        v@ == s@,
{
    let n = s.unicode_len();
    let mut v: Vec<char> = Vec::new();
    let mut i: usize = 0;
    while i < n
        invariant
            n == s@.len(),
            i <= n,
            v@ == s@.subrange(0, i as int),
        decreases n - i,
    {
        let c = s.get_char(i);
        v.push(c);
        i = i + 1;
        assert(v@ == s@.subrange(0, i as int));
    }
    v
}

/// Builds a `String` holding exactly the given characters (via
/// `FromIterator<char> for String`, which concatenates the characters).
#[verifier::external_body]
pub(crate) fn string_from_chars(v: &Vec<char>) -> (s: String)
    ensures
        s@ == v@,
{
    v.iter().collect()
}

/// The decimal digit character for `d` (`d < 10`).
pub open spec fn digit_char(d: nat) -> char {
    if d == 0 { '0' }
    else if d == 1 { '1' }
    else if d == 2 { '2' }
    else if d == 3 { '3' }
    else if d == 4 { '4' }
    else if d == 5 { '5' }
    else if d == 6 { '6' }
    else if d == 7 { '7' }
    else if d == 8 { '8' }
    else { '9' }
}

/// The decimal representation of `n`, without sign or leading zeros.
pub open spec fn decimal(n: nat) -> Seq<char>
    decreases n,
{
    if n < 10 {
        seq![digit_char(n)]
    } else {
        decimal(n / 10).push(digit_char(n % 10))
    }
}

fn digit_to_char(d: u64) -> (c: char)
    requires
        d < 10,
    ensures
        c == digit_char(d as nat),
{
    if d == 0 { '0' }
    else if d == 1 { '1' }
    else if d == 2 { '2' }
    else if d == 3 { '3' }
    else if d == 4 { '4' }
    else if d == 5 { '5' }
    else if d == 6 { '6' }
    else if d == 7 { '7' }
    else if d == 8 { '8' }
    else { '9' }
}

/// The decimal digits of `n`, as `format!("{}", n)` writes them.
pub fn decimal_chars(n: u64) -> (v: Vec<char>)
    ensures
        v@ == decimal(n as nat),
{
    let mut acc: Vec<char> = Vec::new();
    if n == 0 {
        acc.push('0');
        assert(acc@ == decimal(0));
        return acc;
    }
    let mut m: u64 = n;
    loop
        invariant
            0 < m <= n,
            decimal(n as nat) == decimal(m as nat) + acc@,
        decreases m,
    {
        let d = m % 10;
        let c = digit_to_char(d);
        let ghost old_acc = acc@;
        acc.insert(0, c);
        assert(acc@ == seq![c] + old_acc);
        let next = m / 10;
        if next == 0 {
            assert(decimal(m as nat) == seq![digit_char(m as nat)]);
            assert(decimal(n as nat) == acc@);
            return acc;
        }
        assert(decimal(m as nat) == decimal(next as nat).push(c));
        assert(decimal(m as nat) + old_acc == decimal(next as nat) + acc@);
        m = next;
    }
}

/// `n` written in decimal, as a `String`.
pub fn u64_to_string(n: u64) -> (s: String)
    ensures
        s@ == decimal(n as nat),
{
    let v = decimal_chars(n);
    string_from_chars(&v)
}

/// Appends the characters of `s`.
pub fn push_str(v: &mut Vec<char>, s: &str)
    ensures
        final(v)@ == old(v)@ + s@,
{
    let c = chars_of(s);
    let ghost start = v@;
    let mut i: usize = 0;
    while i < c.len()
        invariant
            i <= c.len(),
            c@ == s@,
            v@ == start + s@.take(i as int),
        decreases c.len() - i,
    {
        v.push(c[i]);
        i = i + 1;
        assert(v@ =~= start + s@.take(i as int));
    }
    assert(s@.take(s@.len() as int) =~= s@);
}

/// Appends the decimal digits of `n`.
pub fn push_decimal(v: &mut Vec<char>, n: u64)
    ensures
        final(v)@ == old(v)@ + decimal(n as nat),
{
    let d = decimal_chars(n);
    let ghost start = v@;
    let mut i: usize = 0;
    while i < d.len()
        invariant
            i <= d.len(),
            d@ == decimal(n as nat),
            v@ == start + d@.take(i as int),
        decreases d.len() - i,
    {
        v.push(d[i]);
        i = i + 1;
        assert(v@ =~= start + d@.take(i as int));
    }
    assert(d@.take(d@.len() as int) =~= d@);
}

/// The Unicode `White_Space` property, which `char::is_whitespace` tests:
/// tab through carriage return, space, next line, no-break space, ogham
/// space mark, the spaces from en quad to hair space, line and paragraph
/// separators, narrow no-break space, medium mathematical space and
/// ideographic space.
pub open spec fn is_whitespace(c: char) -> bool {
    let u = c as u32;
    ||| 0x9 <= u <= 0xD
    ||| u == 0x20
    ||| u == 0x85
    ||| u == 0xA0
    ||| u == 0x1680
    ||| 0x2000 <= u <= 0x200A
    ||| u == 0x2028
    ||| u == 0x2029
    ||| u == 0x202F
    ||| u == 0x205F
    ||| u == 0x3000
}

/// Whether `c` is whitespace, as `char::is_whitespace` answers.
pub(crate) fn char_is_whitespace(c: char) -> (r: bool)
    ensures
        r == is_whitespace(c),
        (c as u32) < 128 ==> (r <==> (c == ' ' || c == '\t' || c == '\n' || c == '\x0B' || c == '\x0C' || c == '\r')),
{
    let u = c as u32;
    (0x9 <= u && u <= 0xD) || u == 0x20 || u == 0x85 || u == 0xA0 || u == 0x1680 || (0x2000 <= u && u <= 0x200A)
        || u == 0x2028 || u == 0x2029 || u == 0x202F || u == 0x205F || u == 0x3000
}

/// Leading whitespace characters of `s`.
pub open spec fn lead_ws(s: Seq<char>, k: int) -> bool {
    &&& 0 <= k <= s.len()
    &&& forall|j: int| 0 <= j < k ==> is_whitespace(#[trigger] s[j])
    &&& (k < s.len() ==> !is_whitespace(s[k]))
}

/// `s` without leading and trailing whitespace (what `str::trim` returns).
pub open spec fn trim_spec(s: Seq<char>) -> Seq<char> {
    let a = choose|a: int| #[trigger] lead_ws(s, a);
    let b = choose|b: int| #[trigger] trail_ws(s, a, b);
    s.subrange(a, b)
}

/// `b` is where trailing whitespace starts, not before `a`.
pub open spec fn trail_ws(s: Seq<char>, a: int, b: int) -> bool {
    &&& a <= b <= s.len()
    &&& forall|j: int| b <= j < s.len() ==> is_whitespace(#[trigger] s[j])
    &&& (b > a ==> !is_whitespace(s[b - 1]))
}

proof fn lemma_lead_unique(s: Seq<char>, a1: int, a2: int)
    requires
        lead_ws(s, a1),
        lead_ws(s, a2),
    ensures
        a1 == a2,
{
    if a1 < a2 {
        assert(is_whitespace(s[a1]));
    } else if a2 < a1 {
        assert(is_whitespace(s[a2]));
    }
}

proof fn lemma_trail_unique(s: Seq<char>, a: int, b1: int, b2: int)
    requires
        trail_ws(s, a, b1),
        trail_ws(s, a, b2),
    ensures
        b1 == b2,
{
    if b1 < b2 {
        assert(is_whitespace(s[b2 - 1]));
    } else if b2 < b1 {
        assert(is_whitespace(s[b1 - 1]));
    }
}

/// Removes leading and trailing whitespace.
pub fn trim(s: &str) -> (r: String)
    ensures
        r@ == trim_spec(s@),
{
    let v = chars_of(s);
    let mut a: usize = 0;
    while a < v.len() && char_is_whitespace(v[a])
        invariant
            v@ == s@,
            a <= v.len(),
            forall|j: int| 0 <= j < a ==> is_whitespace(#[trigger] s@[j]),
        decreases v.len() - a,
    {
        a = a + 1;
    }
    let mut b: usize = v.len();
    while b > a && char_is_whitespace(v[b - 1])
        invariant
            v@ == s@,
            a <= b <= v.len(),
            forall|j: int| b <= j < v.len() ==> is_whitespace(#[trigger] s@[j]),
        decreases b - a,
    {
        b = b - 1;
    }
    proof {
        assert(lead_ws(s@, a as int));
        let ca = choose|ca: int| #[trigger] lead_ws(s@, ca);
        lemma_lead_unique(s@, a as int, ca);
        assert(trail_ws(s@, a as int, b as int));
        let cb = choose|cb: int| #[trigger] trail_ws(s@, a as int, cb);
        lemma_trail_unique(s@, a as int, b as int, cb);
    }
    let mut out: Vec<char> = Vec::new();
    let mut i = a;
    while i < b
        invariant
            v@ == s@,
            a <= i <= b,
            b <= v.len(),
            out@ == s@.subrange(a as int, i as int),
        decreases b - i,
    {
        out.push(v[i]);
        i = i + 1;
        assert(out@ =~= s@.subrange(a as int, i as int));
    }
    string_from_chars(&out)
}

/// `pat` occurs somewhere in `text`.
pub open spec fn contains_spec(text: Seq<char>, pat: Seq<char>) -> bool {
    exists|i: int| #[trigger] occurs_at(text, pat, i)
}

/// Whether `pat` occurs in `text` (what `str::contains` does for a `&str` pattern).
pub fn contains_str(text: &str, pat: &str) -> (r: bool)
    ensures
        r == contains_spec(text@, pat@),
{
    let t = chars_of(text);
    let p = chars_of(pat);
    if p.len() > t.len() {
        proof {
            if exists|i: int| #[trigger] occurs_at(text@, pat@, i) {
                let i = choose|i: int| #[trigger] occurs_at(text@, pat@, i);
                assert(false);
            }
        }
        return false;
    }
    let mut i: usize = 0;
    while i <= t.len() - p.len()
        invariant
            t@ == text@,
            p@ == pat@,
            p.len() <= t.len(),
            i <= t.len() - p.len() + 1,
            forall|j: int| 0 <= j < i ==> !occurs_at(text@, pat@, j),
        decreases t.len() - p.len() + 1 - i,
    {
        let mut k: usize = 0;
        let mut ok = true;
        while k < p.len()
            invariant
                k <= p.len(),
                i + p.len() <= t.len(),
                t@ == text@,
                p@ == pat@,
                ok == forall|j: int| 0 <= j < k ==> t@[i + j] == p@[j],
            decreases p.len() - k,
        {
            if t[i + k] != p[k] {
                ok = false;
            }
            k = k + 1;
        }
        if ok {
            assert(text@.subrange(i as int, i + pat@.len()) =~= pat@);
            assert(occurs_at(text@, pat@, i as int));
            return true;
        }
        proof {
            if occurs_at(text@, pat@, i as int) {
                assert forall|j: int| 0 <= j < p.len() implies t@[i + j] == p@[j] by {
                    assert(text@.subrange(i as int, i + pat@.len())[j] == t@[i + j]);
                }
            }
        }
        i = i + 1;
    }
    proof {
        if exists|j: int| #[trigger] occurs_at(text@, pat@, j) {
            let j = choose|j: int| #[trigger] occurs_at(text@, pat@, j);
            assert(j < i);
        }
    }
    false
}

/// Compares two strings for equality.
pub fn str_eq(a: &str, b: &str) -> (r: bool)
    ensures
        r == (a@ == b@),
{
    let va = chars_of(a);
    let vb = chars_of(b);
    if va.len() != vb.len() {
        return false;
    }
    let mut i: usize = 0;
    while i < va.len()
        invariant
            va@ == a@,
            vb@ == b@,
            va.len() == vb.len(),
            i <= va.len(),
            forall|j: int| 0 <= j < i ==> a@[j] == b@[j],
        decreases va.len() - i,
    {
        if va[i] != vb[i] {
            return false;
        }
        i = i + 1;
    }
    assert(a@ =~= b@);
    true
}

/// `text` with every occurrence of `pat` replaced by `rep`, scanning left to
/// right and never re-examining replaced text (what `str::replace` does for a
/// non-empty pattern).
pub open spec fn replace_all(text: Seq<char>, pat: Seq<char>, rep: Seq<char>) -> Seq<char>
    decreases text.len(),
{
    if pat.len() == 0 || text.len() < pat.len() {
        text
    } else if text.take(pat.len() as int) == pat {
        rep + replace_all(text.skip(pat.len() as int), pat, rep)
    } else {
        seq![text[0]] + replace_all(text.drop_first(), pat, rep)
    }
}

/// `pat` occurs in `text` starting at `i`.
pub open spec fn occurs_at(text: Seq<char>, pat: Seq<char>, i: int) -> bool {
    0 <= i && i + pat.len() <= text.len() && text.subrange(i, i + pat.len()) == pat
}

/// Text without any occurrence of the pattern is left unchanged by replacement.
pub proof fn lemma_replace_absent(text: Seq<char>, pat: Seq<char>, rep: Seq<char>)
    requires
        forall|i: int| !occurs_at(text, pat, i),
    ensures
        replace_all(text, pat, rep) == text,
    decreases text.len(),
{
    if pat.len() == 0 || text.len() < pat.len() {
    } else {
        assert(text.take(pat.len() as int) == text.subrange(0, pat.len() as int));
        assert(!occurs_at(text, pat, 0));
        let rest = text.drop_first();
        assert forall|i: int| !occurs_at(rest, pat, i) by {
            if occurs_at(rest, pat, i) {
                assert(rest.subrange(i, i + pat.len()) =~= text.subrange(i + 1, i + 1 + pat.len()));
                assert(occurs_at(text, pat, i + 1));
            }
        }
        lemma_replace_absent(rest, pat, rep);
        assert(seq![text[0]] + rest =~= text);
    }
}

fn starts_with_at(t: &Vec<char>, p: &Vec<char>, i: usize) -> (r: bool)
    requires
        i <= t.len(),
    ensures
        r == (i + p.len() <= t.len() && t@.skip(i as int).take(p.len() as int) == p@),
{
    if p.len() > t.len() - i {
        return false;
    }
    let mut k: usize = 0;
    while k < p.len()
        invariant
            k <= p.len(),
            i + p.len() <= t.len(),
            forall|j: int| 0 <= j < k ==> t@[i + j] == p@[j],
        decreases p.len() - k,
    {
        if t[i + k] != p[k] {
            assert(t@.skip(i as int).take(p.len() as int)[k as int] != p@[k as int]);
            return false;
        }
        k = k + 1;
    }
    assert(t@.skip(i as int).take(p.len() as int) =~= p@);
    true
}

/// Replaces every occurrence of `pat` in `text` by `rep`.
#[verifier::spinoff_prover]
#[verifier::rlimit(50)]
pub fn replace_str(text: &str, pat: &str, rep: &str) -> (r: String)
    ensures
        r@ == replace_all(text@, pat@, rep@),
{
    let t = chars_of(text);
    let p = chars_of(pat);
    let rv = chars_of(rep);
    let mut out: Vec<char> = Vec::new();
    let mut i: usize = 0;
    if p.len() == 0 {
        return string_from_chars(&t);
    }
    assert(text@.skip(0) =~= text@);
    assert(out@ + replace_all(text@.skip(0), pat@, rep@) =~= replace_all(text@, pat@, rep@));
    while i < t.len()
        invariant
            t@ == text@,
            p@ == pat@,
            rv@ == rep@,
            p.len() > 0,
            i <= t.len(),
            out@ + replace_all(text@.skip(i as int), pat@, rep@) == replace_all(text@, pat@, rep@),
        decreases t.len() - i,
    {
        let ghost rest = text@.skip(i as int);
        if starts_with_at(&t, &p, i) {
            let mut k: usize = 0;
            let ghost o0 = out@;
            while k < rv.len()
                invariant
                    k <= rv.len(),
                    rv@ == rep@,
                    out@ == o0 + rep@.take(k as int),
                decreases rv.len() - k,
            {
                out.push(rv[k]);
                k = k + 1;
                assert(out@ =~= o0 + rep@.take(k as int));
            }
            assert(rep@.take(rep@.len() as int) =~= rep@);
            assert(rest.take(pat@.len() as int) == pat@);
            assert(rest.skip(pat@.len() as int) =~= text@.skip(i + p.len()));
            assert(replace_all(rest, pat@, rep@) == rep@ + replace_all(text@.skip(i + p.len()), pat@, rep@));
            assert(out@ + replace_all(text@.skip(i + p.len()), pat@, rep@) =~= o0 + replace_all(rest, pat@, rep@));
            i = i + p.len();
        } else {
            let ghost o0 = out@;
            out.push(t[i]);
            proof {
                if rest.len() >= pat@.len() {
                    assert(rest.take(pat@.len() as int) != pat@);
                }
                assert(rest.drop_first() =~= text@.skip(i + 1));
                assert(rest[0] == t@[i as int]);
                assert(replace_all(rest, pat@, rep@) == seq![rest[0]] + replace_all(rest.drop_first(), pat@, rep@));
                assert(out@ + replace_all(text@.skip(i + 1), pat@, rep@) =~= o0 + replace_all(rest, pat@, rep@));
            }
            i = i + 1;
        }
    }
    assert(text@.skip(i as int).len() == 0);
    assert(out@ + replace_all(text@.skip(i as int), pat@, rep@) =~= out@);
    string_from_chars(&out)
}

/// Concatenates three strings.
pub fn concat3(a: &str, b: &str, c: &str) -> (r: String)
    ensures
        r@ == a@ + b@ + c@,
{
    let mut v = chars_of(a);
    let vb = chars_of(b);
    let vc = chars_of(c);
    let mut i: usize = 0;
    let ghost va = v@;
    while i < vb.len()
        invariant
            i <= vb.len(),
            vb@ == b@,
            v@ == va + b@.take(i as int),
        decreases vb.len() - i,
    {
        v.push(vb[i]);
        i = i + 1;
        assert(v@ =~= va + b@.take(i as int));
    }
    assert(b@.take(b@.len() as int) =~= b@);
    let ghost vab = v@;
    let mut j: usize = 0;
    while j < vc.len()
        invariant
            j <= vc.len(),
            vc@ == c@,
            v@ == vab + c@.take(j as int),
        decreases vc.len() - j,
    {
        v.push(vc[j]);
        j = j + 1;
        assert(v@ =~= vab + c@.take(j as int));
    }
    assert(c@.take(c@.len() as int) =~= c@);
    assert(v@ =~= a@ + b@ + c@);
    string_from_chars(&v)
}

/// Component-wise path prefix on normalized paths (what `Path::starts_with`
/// computes when neither path has a trailing separator, `.` or empty
/// components): equal, or `base` followed by a separator.
pub open spec fn path_starts_with_spec(path: Seq<char>, base: Seq<char>) -> bool {
    ||| base.len() == 0
    ||| path == base
    ||| (base.len() < path.len() && path.take(base.len() as int) == base && (base.last() == '/' || path[base.len() as int] == '/'))
}

/// Executable `path_starts_with_spec`.
pub fn path_starts_with(path: &str, base: &str) -> (r: bool)
    ensures
        r == path_starts_with_spec(path@, base@),
{
    let p = chars_of(path);
    let b = chars_of(base);
    if b.len() == 0 {
        return true;
    }
    if b.len() > p.len() {
        proof {
            if path@ == base@ {
                assert(false);
            }
        }
        return false;
    }
    let mut i: usize = 0;
    while i < b.len()
        invariant
            p@ == path@,
            b@ == base@,
            b.len() <= p.len(),
            i <= b.len(),
            forall|j: int| 0 <= j < i ==> p@[j] == b@[j],
        decreases b.len() - i,
    {
        if p[i] != b[i] {
            proof {
                assert(path@ != base@);
                if base@.len() < path@.len() {
                    assert(path@.take(base@.len() as int)[i as int] != base@[i as int]);
                }
            }
            return false;
        }
        i = i + 1;
    }
    assert(path@.take(base@.len() as int) =~= base@);
    if b.len() == p.len() {
        assert(path@ =~= base@);
        return true;
    }
    b[b.len() - 1] == '/' || p[b.len()] == '/'
}

} // verus!
