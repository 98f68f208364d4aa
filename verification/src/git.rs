//! Interpreting git's output: diff statistics of a finished session and
//! readable messages for failed git commands.

use vstd::prelude::*;
use crate::text::{chars_of, contains_spec, contains_str, push_str, string_from_chars, trim, trim_spec};
use crate::display::join;
use crate::types::{DiffSummary, GitInfo};

verus! {

// ───────────────────────── lines and fields ─────────────────────────

/// Index of the first `c` in `s` at or after `from`, or `s.len()`.
pub open spec fn find_char(s: Seq<char>, c: char, from: int) -> int
    decreases s.len() - from,
{
    if from >= s.len() { s.len() as int } else if s[from] == c { from } else { find_char(s, c, from + 1) }
}

/// `find_char` finds the first `c` at or after `from`, or the end when there is none.
pub proof fn lemma_find_char_bounds(s: Seq<char>, c: char, from: int)
    requires
        0 <= from <= s.len(),
    ensures
        from <= find_char(s, c, from) <= s.len(),
        find_char(s, c, from) < s.len() ==> s[find_char(s, c, from)] == c,
        forall|j: int| from <= j < find_char(s, c, from) ==> s[j] != c,
    decreases s.len() - from,
{
    if from < s.len() && s[from] != c {
        lemma_find_char_bounds(s, c, from + 1);
    }
}

/// The pieces of `s` between the occurrences of `c`, as `str::split(c)`
/// yields them.
pub open spec fn split_on(s: Seq<char>, c: char) -> Seq<Seq<char>>
    decreases s.len(),
{
    let i = find_char(s, c, 0);
    proof { lemma_find_char_bounds(s, c, 0); }
    if i >= s.len() {
        seq![s]
    } else {
        seq![s.take(i)] + split_on(s.skip(i + 1), c)
    }
}

/// Searching a suffix is searching the whole from the suffix's start.
pub proof fn lemma_find_char_skip(s: Seq<char>, c: char, a: int, k: int)
    requires
        0 <= a <= s.len(),
        0 <= k <= s.len() - a,
    ensures
        find_char(s.skip(a), c, k) == find_char(s, c, a + k) - a,
    decreases s.len() - a - k,
{
    if k < s.len() - a && s.skip(a)[k] != c {
        lemma_find_char_skip(s, c, a, k + 1);
    }
}

/// A line without its `\r` before the line feed.
pub open spec fn strip_cr(line: Seq<char>) -> Seq<char> {
    if line.len() > 0 && line.last() == '\r' { line.drop_last() } else { line }
}

/// The lines of `s` as `str::lines` yields them: split at `\n`, a `\r`
/// right before the `\n` removed, no empty line after a final `\n`.
pub open spec fn lines_spec(s: Seq<char>) -> Seq<Seq<char>>
    decreases s.len(),
{
    if s.len() == 0 {
        Seq::empty()
    } else {
        let i = find_char(s, '\n', 0);
        proof { lemma_find_char_bounds(s, '\n', 0); }
        if i >= s.len() {
            seq![s]
        } else {
            seq![strip_cr(s.take(i))] + lines_spec(s.skip(i + 1))
        }
    }
}

/// The fields of a line as `str::split('\t')` yields them.
pub open spec fn split_tabs(s: Seq<char>) -> Seq<Seq<char>>
    decreases s.len(),
{
    let i = find_char(s, '\t', 0);
    proof { lemma_find_char_bounds(s, '\t', 0); }
    if i >= s.len() {
        seq![s]
    } else {
        seq![s.take(i)] + split_tabs(s.skip(i + 1))
    }
}

pub(crate) fn find_char_exec(v: &Vec<char>, c: char, from: usize) -> (r: usize)
    requires
        from <= v.len(),
    ensures
        r as int == find_char(v@, c, from as int),
{
    let mut i = from;
    while i < v.len() && v[i] != c
        invariant
            from <= i <= v.len(),
            find_char(v@, c, from as int) == find_char(v@, c, i as int),
        decreases v.len() - i,
    {
        i = i + 1;
    }
    i
}

pub(crate) fn sub_chars(v: &Vec<char>, a: usize, b: usize) -> (r: Vec<char>)
    requires
        a <= b <= v.len(),
    ensures
        r@ == v@.subrange(a as int, b as int),
{
    let mut out: Vec<char> = Vec::new();
    let mut i = a;
    while i < b
        invariant
            a <= i <= b,
            b <= v.len(),
            out@ == v@.subrange(a as int, i as int),
        decreases b - i,
    {
        out.push(v[i]);
        i = i + 1;
        assert(out@ =~= v@.subrange(a as int, i as int));
    }
    out
}

/// Splits text into lines the way `str::lines` does.
pub fn split_lines(s: &str) -> (r: Vec<Vec<char>>)
    ensures
        r@.map_values(|l: Vec<char>| l@) == lines_spec(s@),
{
    let v = chars_of(s);
    let mut out: Vec<Vec<char>> = Vec::new();
    let mut start: usize = 0;
    let n = v.len();
    assert(s@.skip(0) =~= s@);
    while start < n
        invariant
            v@ == s@,
            n == v.len(),
            start <= n,
            out@.map_values(|l: Vec<char>| l@) + lines_spec(s@.skip(start as int)) == lines_spec(s@),
        decreases n - start,
    {
        let ghost rest = s@.skip(start as int);
        let i = find_char_exec(&v, '\n', start);
        proof {
            lemma_find_char_bounds(v@, '\n', start as int);
            lemma_find_char_bounds(rest, '\n', 0);
            lemma_find_shift(v@, '\n', start as int, 0);
        }
        let ghost before = out@.map_values(|l: Vec<char>| l@);
        if i >= n {
            let line = sub_chars(&v, start, n);
            assert(line@ =~= rest);
            out.push(line);
            assert(out@.map_values(|l: Vec<char>| l@) =~= before.push(rest));
            assert(lines_spec(rest) == seq![rest]);
            assert(s@.skip(n as int).len() == 0);
            assert(out@.map_values(|l: Vec<char>| l@) + lines_spec(s@.skip(n as int)) =~= before + lines_spec(rest));
            start = n;
        } else {
            let mut end = i;
            if end > start && v[end - 1] == '\r' {
                end = end - 1;
            }
            let line = sub_chars(&v, start, end);
            assert(line@ =~= strip_cr(rest.take(i - start)));
            out.push(line);
            assert(rest.skip(i - start + 1) =~= s@.skip(i + 1));
            assert(out@.map_values(|l: Vec<char>| l@) + lines_spec(s@.skip(i + 1)) =~= before + lines_spec(rest));
            start = i + 1;
        }
    }
    assert(s@.skip(n as int).len() == 0);
    assert(out@.map_values(|l: Vec<char>| l@) =~= lines_spec(s@));
    out
}

proof fn lemma_find_shift(s: Seq<char>, c: char, k: int, j: int)
    requires
        0 <= k <= s.len(),
        0 <= j <= s.len() - k,
    ensures
        find_char(s.skip(k), c, j) == find_char(s, c, k + j) - k,
    decreases s.len() - k - j,
{
    if k + j < s.len() && s[k + j] != c {
        lemma_find_shift(s, c, k, j + 1);
    }
}

/// Splits a line at tab characters.
pub fn split_fields(line: &Vec<char>) -> (r: Vec<Vec<char>>)
    ensures
        r@.map_values(|l: Vec<char>| l@) == split_tabs(line@),
{
    let n = line.len();
    let mut out: Vec<Vec<char>> = Vec::new();
    let mut start: usize = 0;
    assert(line@.skip(0) =~= line@);
    loop
        invariant
            n == line.len(),
            start <= n,
            out@.map_values(|l: Vec<char>| l@) + split_tabs(line@.skip(start as int)) == split_tabs(line@),
        decreases n - start,
    {
        let ghost rest = line@.skip(start as int);
        let i = find_char_exec(line, '\t', start);
        proof {
            lemma_find_char_bounds(line@, '\t', start as int);
            lemma_find_shift(line@, '\t', start as int, 0);
        }
        let ghost before = out@.map_values(|l: Vec<char>| l@);
        let field = sub_chars(line, start, i);
        if i >= n {
            assert(field@ =~= rest);
            out.push(field);
            assert(out@.map_values(|l: Vec<char>| l@) =~= split_tabs(line@));
            return out;
        }
        assert(field@ =~= rest.take(i - start));
        out.push(field);
        assert(rest.skip(i - start + 1) =~= line@.skip(i + 1));
        assert(out@.map_values(|l: Vec<char>| l@) + split_tabs(line@.skip(i + 1)) =~= before + split_tabs(rest));
        start = i + 1;
    }
}

// ───────────────────────── u32 parsing ─────────────────────────

/// Every character is a decimal digit.
pub open spec fn all_digits(s: Seq<char>) -> bool {
    forall|i: int| 0 <= i < s.len() ==> '0' <= #[trigger] s[i] && s[i] <= '9'
}

/// The value of a sequence of decimal digits.
pub open spec fn digits_nat(s: Seq<char>) -> nat
    decreases s.len(),
{
    if s.len() == 0 { 0 } else { digits_nat(s.drop_last()) * 10 + ((s.last() as u32) - ('0' as u32)) as nat }
}

/// `str::parse::<u32>` followed by `unwrap_or(0)`: an optional `+`, then one
/// or more decimal digits whose value fits in `u32`; anything else gives 0.
pub open spec fn parse_u32_or_zero(s: Seq<char>) -> nat {
    let d = if s.len() > 0 && s[0] == '+' { s.drop_first() } else { s };
    if d.len() > 0 && all_digits(d) && digits_nat(d) <= u32::MAX { digits_nat(d) } else { 0 }
}

fn parse_u32_or_zero_exec(s: &Vec<char>) -> (r: u32)
    ensures
        r as nat == parse_u32_or_zero(s@),
{
    let start: usize = if s.len() > 0 && s[0] == '+' { 1 } else { 0 };
    let ghost d = if s@.len() > 0 && s@[0] == '+' { s@.drop_first() } else { s@ };
    assert(d =~= s@.skip(start as int));
    if start >= s.len() {
        return 0;
    }
    let mut i = start;
    let mut val: u64 = 0;
    while i < s.len()
        invariant
            start <= i <= s.len(),
            d =~= s@.skip(start as int),
            d == (if s@.len() > 0 && s@[0] == '+' { s@.drop_first() } else { s@ }),
            all_digits(s@.subrange(start as int, i as int)),
            val as nat == digits_nat(s@.subrange(start as int, i as int)),
            val <= u32::MAX,
        decreases s.len() - i,
    {
        let c = s[i];
        if !('0' <= c && c <= '9') {
            proof {
                assert(d[i - start] == c);
                assert(!all_digits(d));
            }
            return 0;
        }
        let dv = ((c as u32) - ('0' as u32)) as u64;
        assert(s@.subrange(start as int, i + 1).drop_last() =~= s@.subrange(start as int, i as int));
        let nv = val * 10 + dv;
        assert(digits_nat(s@.subrange(start as int, i + 1)) == nv);
        if nv > u32::MAX as u64 {
            proof {
                lemma_digits_grow(d, i + 1 - start);
                assert(d.take(i + 1 - start) =~= s@.subrange(start as int, i + 1));
                assert forall|j: int| 0 <= j < i + 1 - start implies '0' <= #[trigger] d.take(i + 1 - start)[j] && d.take(i + 1 - start)[j] <= '9' by {
                    if j < i - start {
                        assert(s@.subrange(start as int, i as int)[j] == d[j]);
                    }
                }
            }
            return 0;
        }
        val = nv;
        i = i + 1;
        assert(all_digits(s@.subrange(start as int, i as int)));
    }
    assert(s@.subrange(start as int, s.len() as int) =~= d);
    val as u32
}

/// The value of a digit string is at least that of any prefix.
pub(crate) proof fn lemma_digits_grow(d: Seq<char>, k: int)
    requires
        0 <= k <= d.len(),
        all_digits(d.take(k)),
    ensures
        all_digits(d) ==> digits_nat(d) >= digits_nat(d.take(k)),
    decreases d.len() - k,
{
    if k < d.len() && all_digits(d) {
        assert(all_digits(d.take(k + 1)));
        lemma_digits_grow(d, k + 1);
        assert(d.take(k + 1).drop_last() =~= d.take(k));
    } else if k == d.len() {
        assert(d.take(k) =~= d);
    }
}

// ───────────────────────── numstat ─────────────────────────

/// Totals of `git diff --numstat` lines: changed files (third field of lines
/// with at least three fields) and summed insertions / deletions (first two
/// fields of lines with at least two fields, unparsable numbers count 0).
pub open spec fn numstat_totals(lines: Seq<Seq<char>>) -> (Seq<Seq<char>>, nat, nat)
    decreases lines.len(),
{
    if lines.len() == 0 {
        (Seq::empty(), 0, 0)
    } else {
        let prev = numstat_totals(lines.drop_last());
        let l = lines.last();
        let parts = split_tabs(l);
        if l.len() == 0 {
            prev
        } else if parts.len() >= 3 {
            (prev.0.push(parts[2]), prev.1 + parse_u32_or_zero(parts[0]), prev.2 + parse_u32_or_zero(parts[1]))
        } else if parts.len() >= 2 {
            (prev.0, prev.1 + parse_u32_or_zero(parts[0]), prev.2 + parse_u32_or_zero(parts[1]))
        } else {
            prev
        }
    }
}

/// The totals of numstat lines add up: those of two runs of lines one after
/// the other are the files of both in order and the sums of their
/// insertions and of their deletions.
pub proof fn lemma_numstat_additive(l1: Seq<Seq<char>>, l2: Seq<Seq<char>>)
    ensures
        numstat_totals(l1 + l2) == ({
            let a = numstat_totals(l1);
            let b = numstat_totals(l2);
            (a.0 + b.0, a.1 + b.1, a.2 + b.2)
        }),
    decreases l2.len(),
{
    if l2.len() == 0 {
        assert(l1 + l2 =~= l1);
        assert(numstat_totals(l1).0 + Seq::<Seq<char>>::empty() =~= numstat_totals(l1).0);
    } else {
        lemma_numstat_additive(l1, l2.drop_last());
        assert((l1 + l2).drop_last() =~= l1 + l2.drop_last());
        assert((l1 + l2).last() == l2.last());
        let a = numstat_totals(l1);
        let p = numstat_totals(l2.drop_last());
        let parts = split_tabs(l2.last());
        if l2.last().len() > 0 && parts.len() >= 3 {
            assert(a.0 + p.0.push(parts[2]) =~= (a.0 + p.0).push(parts[2]));
        }
    }
}

proof fn lemma_first_tab(s: Seq<char>, k: int)
    requires
        0 <= k < s.len(),
        s[k] == '\t',
        forall|j: int| 0 <= j < k ==> s[j] != '\t',
    ensures
        find_char(s, '\t', 0) == k,
{
    lemma_find_char_bounds(s, '\t', 0);
    let f = find_char(s, '\t', 0);
    if f < k {
        assert(s[f] == '\t');
    }
}

/// A numstat line of decimal insertions, a tab, decimal deletions, a tab
/// and a file name (without tabs) counts that file with exactly those
/// insertions and deletions (when each fits in `u32`).
pub proof fn lemma_numstat_line(ins: Seq<char>, del: Seq<char>, file: Seq<char>)
    requires
        ins.len() > 0 && all_digits(ins) && digits_nat(ins) <= u32::MAX,
        del.len() > 0 && all_digits(del) && digits_nat(del) <= u32::MAX,
        forall|j: int| 0 <= j < file.len() ==> file[j] != '\t',
    ensures
        numstat_totals(seq![ins + seq!['\t'] + del + seq!['\t'] + file]) == (seq![file], digits_nat(ins), digits_nat(del)),
{
    let l = ins + seq!['\t'] + del + seq!['\t'] + file;
    let one = seq![l];
    assert(one.drop_last() =~= Seq::<Seq<char>>::empty());
    assert(one.last() == l);
    assert forall|j: int| 0 <= j < ins.len() implies l[j] != '\t' by {
        assert(l[j] == ins[j]);
        assert('0' <= ins[j] && ins[j] <= '9');
    }
    lemma_first_tab(l, ins.len() as int);
    let r1 = l.skip(ins.len() + 1 as int);
    assert(r1 =~= del + seq!['\t'] + file);
    assert forall|j: int| 0 <= j < del.len() implies r1[j] != '\t' by {
        assert(r1[j] == del[j]);
        assert('0' <= del[j] && del[j] <= '9');
    }
    lemma_first_tab(r1, del.len() as int);
    let r2 = r1.skip(del.len() + 1 as int);
    assert(r2 =~= file);
    lemma_find_char_bounds(r2, '\t', 0);
    if find_char(r2, '\t', 0) < r2.len() {
        assert(r2[find_char(r2, '\t', 0)] == file[find_char(r2, '\t', 0)]);
    }
    assert(l.take(ins.len() as int) =~= ins);
    assert(r1.take(del.len() as int) =~= del);
    assert(split_tabs(r2) == seq![r2]);
    assert(split_tabs(r1) =~= seq![del] + seq![r2]);
    assert(split_tabs(l) =~= seq![ins] + (seq![del] + seq![r2]));
    assert(ins[0] != '+');
    assert(del[0] != '+');
    assert(parse_u32_or_zero(ins) == digits_nat(ins));
    assert(parse_u32_or_zero(del) == digits_nat(del));
    let parts = split_tabs(l);
    assert(parts.len() == 3 && parts[0] == ins && parts[1] == del && parts[2] == file);
    assert(l.len() > 0);
    let e = Seq::<Seq<char>>::empty();
    assert(numstat_totals(e) == (Seq::<Seq<char>>::empty(), 0nat, 0nat));
    assert(numstat_totals(one) == (numstat_totals(e).0.push(parts[2]), numstat_totals(e).1 + parse_u32_or_zero(parts[0]), numstat_totals(e).2 + parse_u32_or_zero(parts[1])));
    assert(Seq::<Seq<char>>::empty().push(file) =~= seq![file]);
}

proof fn lemma_numstat_prefix_bounded(lines: Seq<Seq<char>>, k: int)
    requires
        0 <= k <= lines.len(),
    ensures
        numstat_totals(lines.take(k)).1 <= numstat_totals(lines).1,
        numstat_totals(lines.take(k)).2 <= numstat_totals(lines).2,
    decreases lines.len() - k,
{
    if k < lines.len() {
        lemma_numstat_prefix_bounded(lines, k + 1);
        assert(lines.take(k + 1).drop_last() =~= lines.take(k));
    } else {
        assert(lines.take(k) =~= lines);
    }
}

/// The last line of `git diff --stat` output (its summary), if any.
pub open spec fn last_line(s: Seq<char>) -> Option<Seq<char>> {
    if s.len() == 0 || lines_spec(s).len() == 0 { None } else { Some(lines_spec(s).last()) }
}

fn last_line_exec(s: &str) -> (r: Option<String>)
    ensures
        match r { Some(x) => last_line(s@) == Some(x@), None => last_line(s@) is None },
{
    let ls = split_lines(s);
    if ls.len() == 0 {
        return None;
    }
    let ghost lv = ls@.map_values(|l: Vec<char>| l@);
    assert(lv.last() == ls@[ls.len() - 1]@);
    let last = string_from_chars(&ls[ls.len() - 1]);
    proof {
        if s@.len() == 0 {
            assert(lines_spec(s@).len() == 0);
        }
    }
    Some(last)
}

/// The character sequence of an optional string.
pub open spec fn opt_view(o: Option<String>) -> Option<Seq<char>> {
    match o { Some(s) => Some(s@), None => None }
}

/// The summary line of `git diff --stat`: its last line.
pub open spec fn stat_summary(stat: Option<Seq<char>>) -> Option<Seq<char>> {
    match stat { Some(s) => last_line(s), None => None }
}

/// Changed files, insertions and deletions read from `git diff --numstat`.
pub open spec fn numstat_of(numstat: Option<Seq<char>>) -> (Seq<Seq<char>>, nat, nat) {
    match numstat { Some(s) => numstat_totals(lines_spec(s)), None => (Seq::empty(), 0, 0) }
}

/// Git state and diff summary of a finished session, from the outputs of
/// `git rev-parse --abbrev-ref HEAD`, `git rev-parse --short HEAD`,
/// `git diff --stat` and `git diff --numstat` (`None` where a command failed).
pub fn collect_git_info(branch: Option<String>, commit: Option<String>, stat_output: Option<String>, numstat_output: Option<String>) -> (r: (GitInfo, DiffSummary))
    requires
        numstat_of(opt_view(numstat_output)).1 <= u32::MAX,
        numstat_of(opt_view(numstat_output)).2 <= u32::MAX,
    ensures
        opt_view(r.0.branch) == opt_view(branch),
        opt_view(r.0.commit) == opt_view(commit),
        opt_view(r.0.diff_stat) == stat_summary(opt_view(stat_output)),
        opt_view(r.1.summary_line) == stat_summary(opt_view(stat_output)),
        r.1.files_changed@.map_values(|f: String| f@) == numstat_of(opt_view(numstat_output)).0,
        r.1.insertions as nat == numstat_of(opt_view(numstat_output)).1,
        r.1.deletions as nat == numstat_of(opt_view(numstat_output)).2,
{
    let diff_stat = match &stat_output {
        Some(s) => last_line_exec(s.as_str()),
        None => None,
    };
    let summary_line = match &stat_output {
        Some(s) => last_line_exec(s.as_str()),
        None => None,
    };
    let mut files: Vec<String> = Vec::new();
    let mut ins: u32 = 0;
    let mut del: u32 = 0;
    match &numstat_output {
        Some(s) => {
            let ls = split_lines(s.as_str());
            let ghost lv = ls@.map_values(|l: Vec<char>| l@);
            let mut k: usize = 0;
            while k < ls.len()
                invariant
                    k <= ls.len(),
                    lv == ls@.map_values(|l: Vec<char>| l@),
                    lv == lines_spec(s@),
                    numstat_totals(lv).1 <= u32::MAX,
                    numstat_totals(lv).2 <= u32::MAX,
                    files@.map_values(|f: String| f@) == numstat_totals(lv.take(k as int)).0,
                    ins as nat == numstat_totals(lv.take(k as int)).1,
                    del as nat == numstat_totals(lv.take(k as int)).2,
                decreases ls.len() - k,
            {
                let line = &ls[k];
                proof {
                    assert(lv.take(k + 1).drop_last() =~= lv.take(k as int));
                    assert(lv.take(k + 1).last() == line@);
                    lemma_numstat_prefix_bounded(lv, k + 1);
                }
                if line.len() > 0 {
                    let parts = split_fields(line);
                    let ghost pv = parts@.map_values(|l: Vec<char>| l@);
                    if parts.len() >= 3 {
                        assert(pv[0] == parts@[0]@ && pv[1] == parts@[1]@ && pv[2] == parts@[2]@);
                        let a = parse_u32_or_zero_exec(&parts[0]);
                        let b = parse_u32_or_zero_exec(&parts[1]);
                        let ghost fv = files@.map_values(|f: String| f@);
                        files.push(string_from_chars(&parts[2]));
                        assert(files@.map_values(|f: String| f@) =~= fv.push(pv[2]));
                        ins = ins + a;
                        del = del + b;
                    } else if parts.len() >= 2 {
                        assert(pv[0] == parts@[0]@ && pv[1] == parts@[1]@);
                        let a = parse_u32_or_zero_exec(&parts[0]);
                        let b = parse_u32_or_zero_exec(&parts[1]);
                        ins = ins + a;
                        del = del + b;
                    }
                }
                k = k + 1;
            }
            assert(lv.take(ls.len() as int) =~= lv);
        },
        None => {
            assert(files@.map_values(|f: String| f@) =~= Seq::<Seq<char>>::empty());
        },
    }
    (
        GitInfo { branch, commit, diff_stat },
        DiffSummary { files_changed: files, insertions: ins, deletions: del, summary_line },
    )
}

// ───────────────────────── failed commands ─────────────────────────

/// The message for a failed git command: known failures get an explanation,
/// otherwise git's own (trimmed) error text, otherwise the command and its
/// exit status.
pub open spec fn git_failure_spec(stderr: Seq<char>, args: Seq<Seq<char>>, status: Seq<char>) -> Seq<char> {
    let e = trim_spec(stderr);
    if contains_spec(e, "not a git repository"@) {
        "Not a git repo. Run 'git init' or check workspace path."@
    } else if contains_spec(e, "detached HEAD"@) {
        "Detached HEAD state. Checkout a branch first."@
    } else if e.len() > 0 {
        e
    } else {
        "git "@ + join(args, " "@) + " failed (exit "@ + status + ")"@
    }
}

/// Turns the error output of a failed git command into a message for the
/// status bar; `status` is how the exit status is written.
pub fn git_failure_message(stderr: &str, args: &Vec<String>, status: &str) -> (r: String)
    ensures
        r@ == git_failure_spec(stderr@, args@.map_values(|a: String| a@), status@),
{
    proof {
        reveal_strlit("not a git repository");
        reveal_strlit("detached HEAD");
        reveal_strlit("Not a git repo. Run 'git init' or check workspace path.");
        reveal_strlit("Detached HEAD state. Checkout a branch first.");
        reveal_strlit("git ");
        reveal_strlit(" ");
        reveal_strlit(" failed (exit ");
        reveal_strlit(")");
    }
    let e = trim(stderr);
    if contains_str(e.as_str(), "not a git repository") {
        return String::from_str("Not a git repo. Run 'git init' or check workspace path.");
    }
    if contains_str(e.as_str(), "detached HEAD") {
        return String::from_str("Detached HEAD state. Checkout a branch first.");
    }
    if e.as_str().unicode_len() > 0 {
        return e;
    }
    let mut v: Vec<char> = Vec::new();
    push_str(&mut v, "git ");
    let ghost start = v@;
    let mut i: usize = 0;
    while i < args.len()
        invariant
            i <= args.len(),
            v@ == start + join(args@.take(i as int).map_values(|a: String| a@), " "@),
        decreases args.len() - i,
    {
        if i > 0 {
            push_str(&mut v, " ");
        }
        push_str(&mut v, args[i].as_str());
        proof {
            let pv = args@.take(i + 1).map_values(|a: String| a@);
            assert(pv.drop_last() =~= args@.take(i as int).map_values(|a: String| a@));
            assert(pv.last() == args@[i as int]@);
        }
        i = i + 1;
        assert(v@ =~= start + join(args@.take(i as int).map_values(|a: String| a@), " "@));
    }
    assert(args@.take(args.len() as int) =~= args@);
    push_str(&mut v, " failed (exit ");
    push_str(&mut v, status);
    push_str(&mut v, ")");
    string_from_chars(&v)
}

} // verus!
