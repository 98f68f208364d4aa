//! Terminal output with ANSI SGR escape sequences, read as runs of text that
//! each carry one style.

use vstd::prelude::*;
use crate::git::{
    all_digits, digits_nat, find_char, find_char_exec, lemma_digits_grow, lemma_find_char_bounds, lemma_find_char_skip, split_on,
    sub_chars,
};
use crate::text::{chars_of, string_from_chars};

verus! {

/// The foreground colors that the SGR codes 30–37 and 90–97 select.
#[derive(Clone, Copy, Debug, PartialEq, Eq)]
pub enum AnsiColor {
    Black,
    Red,
    Green,
    Yellow,
    Blue,
    Magenta,
    Cyan,
    White,
    DarkGray,
    LightRed,
    LightGreen,
    LightYellow,
    LightBlue,
    LightMagenta,
    LightCyan,
    Gray,
}

/// The style of a run: its foreground color and text attributes.
#[derive(Clone, Copy, Debug, PartialEq, Eq)]
pub struct AnsiStyle {
    pub fg: Option<AnsiColor>,
    pub bold: bool,
    pub italic: bool,
    pub underlined: bool,
}

/// A stretch of text drawn in one style.
#[derive(Clone, Debug)]
pub struct StyledRun {
    pub text: String,
    pub style: AnsiStyle,
}

/// No color and no attributes.
pub open spec fn plain_style() -> AnsiStyle {
    AnsiStyle { fg: None, bold: false, italic: false, underlined: false }
}

/// The color an SGR code selects, if it selects one.
pub open spec fn code_color(code: nat) -> Option<AnsiColor> {
    if code == 30 { Some(AnsiColor::Black) }
    else if code == 31 { Some(AnsiColor::Red) }
    else if code == 32 { Some(AnsiColor::Green) }
    else if code == 33 { Some(AnsiColor::Yellow) }
    else if code == 34 { Some(AnsiColor::Blue) }
    else if code == 35 { Some(AnsiColor::Magenta) }
    else if code == 36 { Some(AnsiColor::Cyan) }
    else if code == 37 { Some(AnsiColor::White) }
    else if code == 90 { Some(AnsiColor::DarkGray) }
    else if code == 91 { Some(AnsiColor::LightRed) }
    else if code == 92 { Some(AnsiColor::LightGreen) }
    else if code == 93 { Some(AnsiColor::LightYellow) }
    else if code == 94 { Some(AnsiColor::LightBlue) }
    else if code == 95 { Some(AnsiColor::LightMagenta) }
    else if code == 96 { Some(AnsiColor::LightCyan) }
    else if code == 97 { Some(AnsiColor::Gray) }
    else { None }
}

/// The style after one SGR code: 0 resets, 1, 3 and 4 set bold, italic and
/// underline, 22 clears bold, the color codes set the foreground, and any
/// other code changes nothing.
pub open spec fn apply_code(st: AnsiStyle, code: nat) -> AnsiStyle {
    if code == 0 {
        plain_style()
    } else if code == 1 {
        AnsiStyle { bold: true, ..st }
    } else if code == 3 {
        AnsiStyle { italic: true, ..st }
    } else if code == 4 {
        AnsiStyle { underlined: true, ..st }
    } else if code == 22 {
        AnsiStyle { bold: false, ..st }
    } else {
        match code_color(code) {
            Some(c) => AnsiStyle { fg: Some(c), ..st },
            None => st,
        }
    }
}

/// `str::parse::<u8>`: an optional `+`, then one or more decimal digits
/// whose value is at most 255.
pub open spec fn parse_u8(f: Seq<char>) -> Option<nat> {
    let d = if f.len() > 0 && f[0] == '+' { f.drop_first() } else { f };
    if d.len() > 0 && all_digits(d) && digits_nat(d) <= 255 { Some(digits_nat(d)) } else { None }
}

/// The style after applying, in order, each field that parses as a `u8`
/// as an SGR code.
pub open spec fn apply_fields(st: AnsiStyle, fields: Seq<Seq<char>>) -> AnsiStyle
    decreases fields.len(),
{
    if fields.len() == 0 {
        st
    } else {
        let next = match parse_u8(fields[0]) {
            Some(c) => apply_code(st, c),
            None => st,
        };
        apply_fields(next, fields.drop_first())
    }
}

/// A character of an SGR parameter list: a digit or `;`.
pub open spec fn is_param_char(c: char) -> bool {
    ('0' <= c && c <= '9') || c == ';'
}

/// An ASCII letter.
pub open spec fn is_ascii_alpha(c: char) -> bool {
    ('a' <= c && c <= 'z') || ('A' <= c && c <= 'Z')
}

/// The end of the run of parameter characters that starts at `i`.
pub open spec fn params_end(s: Seq<char>, i: int) -> int
    decreases s.len() - i,
{
    if 0 <= i < s.len() && is_param_char(s[i]) { params_end(s, i + 1) } else { i }
}

/// `params_end` lies between its start and the end of the text.
pub proof fn lemma_params_end(s: Seq<char>, i: int)
    requires
        0 <= i <= s.len(),
    ensures
        i <= params_end(s, i) <= s.len(),
        forall|k: int| i <= k < params_end(s, i) ==> is_param_char(#[trigger] s[k]),
        params_end(s, i) < s.len() ==> !is_param_char(s[params_end(s, i)]),
    decreases s.len() - i,
{
    if i < s.len() && is_param_char(s[i]) {
        lemma_params_end(s, i + 1);
    }
}

/// The finished runs with the pending text closed off as a run, unless it
/// is empty.
pub open spec fn close_run(runs: Seq<(Seq<char>, AnsiStyle)>, buf: Seq<char>, st: AnsiStyle) -> Seq<(Seq<char>, AnsiStyle)> {
    if buf.len() > 0 { runs.push((buf, st)) } else { runs }
}

/// Reading `s` from position `i` in style `st`, with pending text `buf` and
/// finished `runs`: ESC followed by `[` closes the pending text, takes the
/// parameter characters after it and the letter that ends them (when one
/// does), and applies the parameters; any other character is pending text.
pub open spec fn scan(s: Seq<char>, i: int, st: AnsiStyle, buf: Seq<char>, runs: Seq<(Seq<char>, AnsiStyle)>) -> Seq<(Seq<char>, AnsiStyle)>
    decreases s.len() - i,
{
    if i < 0 || i >= s.len() {
        close_run(runs, buf, st)
    } else if s[i] == '\u{1b}' && i + 1 < s.len() && s[i + 1] == '[' {
        let j = params_end(s, i + 2);
        proof { lemma_params_end(s, i + 2); }
        let next = if j < s.len() && is_ascii_alpha(s[j]) { j + 1 } else { j };
        scan(s, next, apply_fields(st, split_on(s.subrange(i + 2, j), ';')), Seq::empty(), close_run(runs, buf, st))
    } else {
        scan(s, i + 1, st, buf.push(s[i]), runs)
    }
}

/// The styled runs of a line of output; when no run has text, the whole
/// line as it is, unstyled.
pub open spec fn ansi_runs_spec(s: Seq<char>) -> Seq<(Seq<char>, AnsiStyle)> {
    let r = scan(s, 0, plain_style(), Seq::empty(), Seq::empty());
    if r.len() == 0 { seq![(s, plain_style())] } else { r }
}

proof fn lemma_scan_plain(s: Seq<char>, i: int, st: AnsiStyle, buf: Seq<char>, runs: Seq<(Seq<char>, AnsiStyle)>)
    requires
        0 <= i <= s.len(),
        forall|k: int| i <= k < s.len() ==> s[k] != '\u{1b}',
    ensures
        scan(s, i, st, buf, runs) == close_run(runs, buf + s.skip(i), st),
    decreases s.len() - i,
{
    if i < s.len() {
        lemma_scan_plain(s, i + 1, st, buf.push(s[i]), runs);
        assert(buf.push(s[i]) + s.skip(i + 1) =~= buf + s.skip(i));
    } else {
        assert(buf + s.skip(i) =~= buf);
    }
}

/// The standard SGR foreground codes: 30 to 37 select black, red, green,
/// yellow, blue, magenta, cyan and white, and 90 to 97 their bright forms
/// (dark gray, light red, light green, light yellow, light blue, light
/// magenta, light cyan, gray); each changes only the foreground, and two
/// different codes of 30 to 37 select different colors.
pub proof fn lemma_standard_foreground_codes(st: AnsiStyle)
    ensures
        apply_code(st, 30) == (AnsiStyle { fg: Some(AnsiColor::Black), ..st }),
        apply_code(st, 31) == (AnsiStyle { fg: Some(AnsiColor::Red), ..st }),
        apply_code(st, 32) == (AnsiStyle { fg: Some(AnsiColor::Green), ..st }),
        apply_code(st, 33) == (AnsiStyle { fg: Some(AnsiColor::Yellow), ..st }),
        apply_code(st, 34) == (AnsiStyle { fg: Some(AnsiColor::Blue), ..st }),
        apply_code(st, 35) == (AnsiStyle { fg: Some(AnsiColor::Magenta), ..st }),
        apply_code(st, 36) == (AnsiStyle { fg: Some(AnsiColor::Cyan), ..st }),
        apply_code(st, 37) == (AnsiStyle { fg: Some(AnsiColor::White), ..st }),
        apply_code(st, 90) == (AnsiStyle { fg: Some(AnsiColor::DarkGray), ..st }),
        apply_code(st, 91) == (AnsiStyle { fg: Some(AnsiColor::LightRed), ..st }),
        apply_code(st, 92) == (AnsiStyle { fg: Some(AnsiColor::LightGreen), ..st }),
        apply_code(st, 93) == (AnsiStyle { fg: Some(AnsiColor::LightYellow), ..st }),
        apply_code(st, 94) == (AnsiStyle { fg: Some(AnsiColor::LightBlue), ..st }),
        apply_code(st, 95) == (AnsiStyle { fg: Some(AnsiColor::LightMagenta), ..st }),
        apply_code(st, 96) == (AnsiStyle { fg: Some(AnsiColor::LightCyan), ..st }),
        apply_code(st, 97) == (AnsiStyle { fg: Some(AnsiColor::Gray), ..st }),
        forall|a: nat, b: nat| 30 <= a <= 37 && 30 <= b <= 37 && a != b
            ==> #[trigger] apply_code(st, a).fg != #[trigger] apply_code(st, b).fg,
{
}

/// Text without escape characters is one run of the whole text, unstyled.
pub proof fn lemma_plain_text_one_run(s: Seq<char>)
    requires
        forall|k: int| 0 <= k < s.len() ==> s[k] != '\u{1b}',
    ensures
        ansi_runs_spec(s) == seq![(s, plain_style())],
{
    lemma_scan_plain(s, 0, plain_style(), Seq::empty(), Seq::empty());
    assert(Seq::<char>::empty() + s.skip(0) =~= s);
}

/// The text and style of each run.
pub open spec fn runs_view(v: Seq<StyledRun>) -> Seq<(Seq<char>, AnsiStyle)> {
    v.map_values(|r: StyledRun| (r.text@, r.style))
}

fn code_color_exec(code: u8) -> (r: Option<AnsiColor>)
    ensures
        r == code_color(code as nat),
{
    match code {
        30 => Some(AnsiColor::Black),
        31 => Some(AnsiColor::Red),
        32 => Some(AnsiColor::Green),
        33 => Some(AnsiColor::Yellow),
        34 => Some(AnsiColor::Blue),
        35 => Some(AnsiColor::Magenta),
        36 => Some(AnsiColor::Cyan),
        37 => Some(AnsiColor::White),
        90 => Some(AnsiColor::DarkGray),
        91 => Some(AnsiColor::LightRed),
        92 => Some(AnsiColor::LightGreen),
        93 => Some(AnsiColor::LightYellow),
        94 => Some(AnsiColor::LightBlue),
        95 => Some(AnsiColor::LightMagenta),
        96 => Some(AnsiColor::LightCyan),
        97 => Some(AnsiColor::Gray),
        _ => None,
    }
}

/// The style after one SGR code.
pub fn apply_sgr_code(st: AnsiStyle, code: u8) -> (r: AnsiStyle)
    ensures
        r == apply_code(st, code as nat),
{
    if code == 0 {
        AnsiStyle { fg: None, bold: false, italic: false, underlined: false }
    } else if code == 1 {
        AnsiStyle { bold: true, ..st }
    } else if code == 3 {
        AnsiStyle { italic: true, ..st }
    } else if code == 4 {
        AnsiStyle { underlined: true, ..st }
    } else if code == 22 {
        AnsiStyle { bold: false, ..st }
    } else {
        match code_color_exec(code) {
            Some(c) => AnsiStyle { fg: Some(c), ..st },
            None => st,
        }
    }
}

fn parse_u8_exec(f: &Vec<char>) -> (r: Option<u8>)
    ensures
        match r {
            Some(v) => parse_u8(f@) == Some(v as nat),
            None => parse_u8(f@) is None,
        },
{
    let start: usize = if f.len() > 0 && f[0] == '+' { 1 } else { 0 };
    let ghost d = if f@.len() > 0 && f@[0] == '+' { f@.drop_first() } else { f@ };
    assert(d =~= f@.skip(start as int));
    if start >= f.len() {
        return None;
    }
    let mut i = start;
    let mut val: u32 = 0;
    while i < f.len()
        invariant
            start <= i <= f.len(),
            start < f.len(),
            d =~= f@.skip(start as int),
            d == (if f@.len() > 0 && f@[0] == '+' { f@.drop_first() } else { f@ }),
            all_digits(f@.subrange(start as int, i as int)),
            val as nat == digits_nat(f@.subrange(start as int, i as int)),
            val <= 255,
        decreases f.len() - i,
    {
        let c = f[i];
        if !('0' <= c && c <= '9') {
            proof {
                assert(d[i - start] == c);
                assert(!all_digits(d));
            }
            return None;
        }
        let dv = (c as u32) - ('0' as u32);
        assert(f@.subrange(start as int, i + 1).drop_last() =~= f@.subrange(start as int, i as int));
        let nv = val * 10 + dv;
        assert(digits_nat(f@.subrange(start as int, i + 1)) == nv);
        if nv > 255 {
            proof {
                lemma_digits_grow(d, i + 1 - start);
                assert(d.take(i + 1 - start) =~= f@.subrange(start as int, i + 1));
                assert forall|j: int| 0 <= j < i + 1 - start implies '0' <= #[trigger] d.take(i + 1 - start)[j] && d.take(i + 1 - start)[j] <= '9' by {
                    if j < i - start {
                        assert(f@.subrange(start as int, i as int)[j] == d[j]);
                    }
                }
            }
            return None;
        }
        val = nv;
        i = i + 1;
        assert(all_digits(f@.subrange(start as int, i as int)));
    }
    assert(f@.subrange(start as int, f.len() as int) =~= d);
    Some(val as u8)
}

/// The style after the SGR parameter list `p`: each `;`-separated field
/// that parses as a `u8` is applied as a code, in order.
pub fn apply_sgr_params(st: AnsiStyle, p: &Vec<char>) -> (r: AnsiStyle)
    ensures
        r == apply_fields(st, split_on(p@, ';')),
{
    let ghost target = apply_fields(st, split_on(p@, ';'));
    let mut cur = st;
    let mut start: usize = 0;
    assert(p@.skip(0) =~= p@);
    loop
        invariant
            start <= p.len(),
            apply_fields(cur, split_on(p@.skip(start as int), ';')) == target,
            target == apply_fields(st, split_on(p@, ';')),
        decreases p.len() - start,
    {
        let k = find_char_exec(p, ';', start);
        proof {
            lemma_find_char_bounds(p@, ';', start as int);
            lemma_find_char_skip(p@, ';', start as int, 0);
        }
        let field = sub_chars(p, start, k);
        let ghost q = p@.skip(start as int);
        assert(find_char(q, ';', 0) == k - start);
        assert(field@ =~= q.take(k - start));
        let next = match parse_u8_exec(&field) {
            Some(c) => apply_sgr_code(cur, c),
            None => cur,
        };
        if k >= p.len() {
            assert(split_on(q, ';') == seq![q]);
            assert(q.take(k - start) =~= q);
            assert(seq![q].drop_first() =~= Seq::<Seq<char>>::empty());
            assert(apply_fields(next, seq![q].drop_first()) == next);
            assert(apply_fields(cur, seq![q]) == apply_fields(next, seq![q].drop_first()));
            return next;
        }
        assert(q.skip(k - start + 1) =~= p@.skip(k + 1));
        let ghost rest = split_on(q.skip(k - start + 1), ';');
        assert(split_on(q, ';') == seq![q.take(k - start)] + rest);
        assert((seq![q.take(k - start)] + rest).drop_first() =~= rest);
        cur = next;
        start = k + 1;
    }
}

fn close_run_exec(runs: &mut Vec<StyledRun>, buf: &mut Vec<char>, st: AnsiStyle)
    ensures
        runs_view(final(runs)@) == close_run(runs_view(old(runs)@), old(buf)@, st),
        final(buf)@.len() == 0,
{
    if buf.len() > 0 {
        let text = string_from_chars(buf);
        runs.push(StyledRun { text, style: st });
        assert(runs_view(runs@) =~= runs_view(old(runs)@).push((old(buf)@, st)));
    }
    *buf = Vec::new();
}

/// Splits a line of terminal output into styled runs: SGR sequences (ESC
/// `[`, digits and `;`, a final letter) change the style of the text after
/// them and are not part of any run; a line with no text outside them
/// comes back whole and unstyled.
pub fn ansi_runs(input: &str) -> (r: Vec<StyledRun>)
    ensures
        runs_view(r@) == ansi_runs_spec(input@),
{
    let s = chars_of(input);
    let n = s.len();
    let mut runs: Vec<StyledRun> = Vec::new();
    let mut buf: Vec<char> = Vec::new();
    let mut st = AnsiStyle { fg: None, bold: false, italic: false, underlined: false };
    let ghost total = scan(s@, 0, plain_style(), Seq::empty(), Seq::empty());
    assert(runs_view(runs@) =~= Seq::<(Seq<char>, AnsiStyle)>::empty());
    let mut i: usize = 0;
    while i < n
        invariant
            n == s.len(),
            s@ == input@,
            i <= n,
            scan(s@, i as int, st, buf@, runs_view(runs@)) == total,
        decreases n - i,
    {
        if s[i] == '\u{1b}' && i + 1 < n && s[i + 1] == '[' {
            let mut j = i + 2;
            proof { lemma_params_end(s@, i + 2); }
            while j < n && (('0' <= s[j] && s[j] <= '9') || s[j] == ';')
                invariant
                    n == s.len(),
                    i + 2 <= j <= n,
                    params_end(s@, i + 2) == params_end(s@, j as int),
                decreases n - j,
            {
                j = j + 1;
            }
            let p = sub_chars(&s, i + 2, j);
            let ghost old_runs = runs_view(runs@);
            let ghost old_buf = buf@;
            close_run_exec(&mut runs, &mut buf, st);
            st = apply_sgr_params(st, &p);
            let next = if j < n && (('a' <= s[j] && s[j] <= 'z') || ('A' <= s[j] && s[j] <= 'Z')) { j + 1 } else { j };
            assert(buf@ =~= Seq::<char>::empty());
            i = next;
        } else {
            let c = s[i];
            buf.push(c);
            i = i + 1;
        }
    }
    close_run_exec(&mut runs, &mut buf, st);
    if runs.len() == 0 {
        let text = string_from_chars(&s);
        runs.push(StyledRun { text, style: AnsiStyle { fg: None, bold: false, italic: false, underlined: false } });
        assert(runs_view(runs@) =~= seq![(input@, plain_style())]);
    }
    runs
}

} // verus!
