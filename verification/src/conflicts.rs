//! Warnings about running sessions that change the same files in one
//! workspace.

use vstd::prelude::*;
use crate::display::{join, push_joined, strings_view};
use crate::git::{find_char, find_char_exec, lemma_find_char_bounds, lemma_find_char_skip, lines_spec, split_lines, split_on, sub_chars};
use crate::sidebar::ActiveTab;
use crate::text::{chars_of, decimal, push_decimal, push_str, str_eq, string_from_chars};

verus! {

// ───────────────────────── the last path component ─────────────────────────

/// A path segment that names nothing: empty (between doubled slashes) or `.`.
pub open spec fn is_blank_segment(seg: Seq<char>) -> bool {
    seg.len() == 0 || (seg.len() == 1 && seg[0] == '.')
}

/// The segment `..`.
pub open spec fn is_parent_segment(seg: Seq<char>) -> bool {
    seg.len() == 2 && seg[0] == '.' && seg[1] == '.'
}

/// The last segment of `segs` that is not blank, else `prev`.
pub open spec fn last_named(prev: Option<Seq<char>>, segs: Seq<Seq<char>>) -> Option<Seq<char>>
    decreases segs.len(),
{
    if segs.len() == 0 {
        prev
    } else {
        last_named(if is_blank_segment(segs[0]) { prev } else { Some(segs[0]) }, segs.drop_first())
    }
}

/// The final component of a `/`-separated path, as `Path::file_name` gives
/// it: the last segment that is neither empty nor `.`; none when there is no
/// such segment or it is `..`.
pub open spec fn file_name_spec(p: Seq<char>) -> Option<Seq<char>> {
    match last_named(None, split_on(p, '/')) {
        Some(n) => if is_parent_segment(n) { None } else { Some(n) },
        None => None,
    }
}

/// How a workspace is named in a warning: the final component of its path,
/// else `?`.
pub open spec fn ws_label(p: Seq<char>) -> Seq<char> {
    match file_name_spec(p) {
        Some(n) => n,
        None => "?"@,
    }
}

/// The characters of an optional character vector.
pub open spec fn opt_chars(o: Option<Vec<char>>) -> Option<Seq<char>> {
    match o {
        Some(v) => Some(v@),
        None => None,
    }
}

/// The final component of a `/`-separated path (see `file_name_spec`).
pub fn path_file_name(path: &str) -> (r: Option<String>)
    ensures
        match r {
            Some(n) => file_name_spec(path@) == Some(n@),
            None => file_name_spec(path@) is None,
        },
{
    let p = chars_of(path);
    let ghost target = last_named(None, split_on(p@, '/'));
    let mut last: Option<Vec<char>> = None;
    let mut start: usize = 0;
    let mut found: Option<Vec<char>> = None;
    assert(p@.skip(0) =~= p@);
    loop
        invariant_except_break
            start <= p.len(),
            p@ == path@,
            target == last_named(None, split_on(p@, '/')),
            last_named(opt_chars(last), split_on(p@.skip(start as int), '/')) == target,
        ensures
            opt_chars(found) == target,
        decreases p.len() - start,
    {
        let k = find_char_exec(&p, '/', start);
        proof {
            lemma_find_char_bounds(p@, '/', start as int);
            lemma_find_char_skip(p@, '/', start as int, 0);
        }
        let seg = sub_chars(&p, start, k);
        let ghost q = p@.skip(start as int);
        let ghost prev = opt_chars(last);
        assert(find_char(q, '/', 0) == k - start);
        assert(seg@ =~= q.take(k - start));
        let blank = seg.len() == 0 || (seg.len() == 1 && seg[0] == '.');
        let next = if blank { last } else { Some(seg) };
        let ghost nv = opt_chars(next);
        assert(nv == (if is_blank_segment(seg@) { prev } else { Some(seg@) }));
        if k >= p.len() {
            assert(split_on(q, '/') == seq![q]);
            assert(q.take(k - start) =~= q);
            assert(seq![q].drop_first() =~= Seq::<Seq<char>>::empty());
            assert(last_named(nv, seq![q].drop_first()) == nv);
            found = next;
            break;
        }
        assert(q.skip(k - start + 1) =~= p@.skip(k + 1));
        let ghost rest = split_on(q.skip(k - start + 1), '/');
        assert(split_on(q, '/') == seq![q.take(k - start)] + rest);
        assert((seq![q.take(k - start)] + rest).drop_first() =~= rest);
        last = next;
        start = k + 1;
    }
    match found {
        Some(v) => {
            if v.len() == 2 && v[0] == '.' && v[1] == '.' {
                None
            } else {
                Some(string_from_chars(&v))
            }
        },
        None => None,
    }
}

// ───────────────────────── groups of tabs ─────────────────────────

/// Tab `i` is running in the workspace `path`.
pub open spec fn runs_in(tabs: Seq<ActiveTab>, running: Seq<bool>, i: int, path: Seq<char>) -> bool {
    running[i] && tabs[i].workspace_path@ == path
}

/// The running tabs among the first `n` that are in the workspace `path`,
/// in order.
pub open spec fn running_in(tabs: Seq<ActiveTab>, running: Seq<bool>, path: Seq<char>, n: nat) -> Seq<usize>
    decreases n,
{
    if n == 0 {
        Seq::empty()
    } else {
        let i = n - 1;
        running_in(tabs, running, path, i as nat) + (if runs_in(tabs, running, i, path) { seq![i as usize] } else { Seq::empty() })
    }
}

/// Tab `i` is the first running tab of its workspace.
pub open spec fn leads_group(tabs: Seq<ActiveTab>, running: Seq<bool>, i: int) -> bool {
    running[i] && forall|j: int| 0 <= j < i ==> !runs_in(tabs, running, j, tabs[i].workspace_path@)
}

/// The groups of two or more running tabs that share a workspace (among
/// the groups whose first tab is one of the first `n`), ordered by their
/// first tab; each group lists its tabs in order.
pub open spec fn shared_groups(tabs: Seq<ActiveTab>, running: Seq<bool>, n: nat) -> Seq<Seq<usize>>
    decreases n,
{
    if n == 0 {
        Seq::empty()
    } else {
        let i = n - 1;
        let g = running_in(tabs, running, tabs[i].workspace_path@, tabs.len());
        shared_groups(tabs, running, i as nat) + (if leads_group(tabs, running, i) && g.len() >= 2 { seq![g] } else { Seq::empty() })
    }
}

proof fn lemma_running_in_bounded(tabs: Seq<ActiveTab>, running: Seq<bool>, path: Seq<char>, n: nat)
    ensures
        forall|k: int| 0 <= k < running_in(tabs, running, path, n).len() ==> (#[trigger] running_in(tabs, running, path, n)[k]) < n,
    decreases n,
{
    if n > 0 {
        let i = n - 1;
        lemma_running_in_bounded(tabs, running, path, i as nat);
        let prev = running_in(tabs, running, path, i as nat);
        assert forall|k: int| 0 <= k < running_in(tabs, running, path, n).len() implies (#[trigger] running_in(tabs, running, path, n)[k]) < n by {
            if k < prev.len() {
                assert(running_in(tabs, running, path, n)[k] == prev[k]);
            }
        }
    }
}

proof fn lemma_groups_bounded(tabs: Seq<ActiveTab>, running: Seq<bool>, n: nat)
    ensures
        forall|g: int, k: int| 0 <= g < shared_groups(tabs, running, n).len() && 0 <= k < shared_groups(tabs, running, n)[g].len()
            ==> (#[trigger] shared_groups(tabs, running, n)[g][k]) < tabs.len(),
    decreases n,
{
    if n > 0 {
        let i = n - 1;
        lemma_groups_bounded(tabs, running, i as nat);
        lemma_running_in_bounded(tabs, running, tabs[i as int].workspace_path@, tabs.len());
        let prev = shared_groups(tabs, running, i as nat);
        let g = running_in(tabs, running, tabs[i as int].workspace_path@, tabs.len());
        assert forall|x: int, k: int| 0 <= x < shared_groups(tabs, running, n).len() && 0 <= k < shared_groups(tabs, running, n)[x].len()
            implies (#[trigger] shared_groups(tabs, running, n)[x][k]) < tabs.len() by {
            if x < prev.len() {
                assert(shared_groups(tabs, running, n)[x] == prev[x]);
            } else {
                assert(shared_groups(tabs, running, n)[x] == g);
            }
        }
    }
}

/// The groups of view of a list of index lists.
pub open spec fn groups_view(v: Seq<Vec<usize>>) -> Seq<Seq<usize>> {
    v.map_values(|g: Vec<usize>| g@)
}

/// The groups of two or more running tabs (`running[i]` for tab `i`) that
/// share a workspace path, ordered by their first tab.
pub fn conflict_groups(tabs: &Vec<ActiveTab>, running: &Vec<bool>) -> (r: Vec<Vec<usize>>)
    requires
        running.len() == tabs.len(),
    ensures
        groups_view(r@) == shared_groups(tabs@, running@, tabs.len() as nat),
        forall|g: int, k: int| 0 <= g < r@.len() && 0 <= k < r@[g]@.len() ==> (#[trigger] r@[g]@[k]) < tabs.len(),
{
    let n = tabs.len();
    let mut out: Vec<Vec<usize>> = Vec::new();
    let mut i: usize = 0;
    while i < n
        invariant
            n == tabs.len(),
            running.len() == n,
            i <= n,
            groups_view(out@) == shared_groups(tabs@, running@, i as nat),
        decreases n - i,
    {
        let ghost path = tabs@[i as int].workspace_path@;
        let mut leads = running[i];
        if leads {
            let mut j: usize = 0;
            while j < i
                invariant
                    i < n,
                    n == tabs.len(),
                    running.len() == n,
                    j <= i,
                    path == tabs@[i as int].workspace_path@,
                    leads == (running@[i as int] && forall|x: int| 0 <= x < j ==> !runs_in(tabs@, running@, x, path)),
                decreases i - j,
            {
                if running[j] && str_eq(tabs[j].workspace_path.as_str(), tabs[i].workspace_path.as_str()) {
                    assert(runs_in(tabs@, running@, j as int, path));
                    leads = false;
                }
                j = j + 1;
            }
        }
        assert(leads == leads_group(tabs@, running@, i as int));
        let mut members: Vec<usize> = Vec::new();
        if leads {
            let mut j: usize = 0;
            while j < n
                invariant
                    i < n,
                    n == tabs.len(),
                    running.len() == n,
                    j <= n,
                    path == tabs@[i as int].workspace_path@,
                    members@ == running_in(tabs@, running@, path, j as nat),
                decreases n - j,
            {
                if running[j] && str_eq(tabs[j].workspace_path.as_str(), tabs[i].workspace_path.as_str()) {
                    members.push(j);
                }
                j = j + 1;
            }
        }
        let ghost before = out@;
        if leads && members.len() >= 2 {
            out.push(members);
            assert(groups_view(out@) =~= groups_view(before).push(running_in(tabs@, running@, path, n as nat)));
        }
        i = i + 1;
    }
    proof {
        lemma_groups_bounded(tabs@, running@, n as nat);
        assert forall|g: int, k: int| 0 <= g < out@.len() && 0 <= k < out@[g]@.len() implies (#[trigger] out@[g]@[k]) < tabs.len() by {
            assert(groups_view(out@)[g] == out@[g]@);
            assert(shared_groups(tabs@, running@, n as nat)[g][k] < tabs.len());
        }
    }
    out
}

// ───────────────────────── warnings ─────────────────────────

/// The lines of `lines` that are not empty, in order.
pub open spec fn nonempty(lines: Seq<Seq<char>>) -> Seq<Seq<char>>
    decreases lines.len(),
{
    if lines.len() == 0 {
        Seq::empty()
    } else {
        nonempty(lines.drop_last()) + (if lines.last().len() > 0 { seq![lines.last()] } else { Seq::empty() })
    }
}

/// The changed files listed by `git diff --name-only`: its non-empty lines.
pub fn changed_files(output: &str) -> (r: Vec<String>)
    ensures
        strings_view(r@) == nonempty(lines_spec(output@)),
{
    let lines = split_lines(output);
    let ghost lv = lines@.map_values(|l: Vec<char>| l@);
    let mut out: Vec<String> = Vec::new();
    let mut k: usize = 0;
    while k < lines.len()
        invariant
            k <= lines.len(),
            lv == lines@.map_values(|l: Vec<char>| l@),
            lv == lines_spec(output@),
            strings_view(out@) == nonempty(lv.take(k as int)),
        decreases lines.len() - k,
    {
        let ghost before = strings_view(out@);
        if lines[k].len() > 0 {
            out.push(string_from_chars(&lines[k]));
        }
        proof {
            let t = lv.take(k + 1);
            assert(t.drop_last() =~= lv.take(k as int));
            assert(t.last() == lines@[k as int]@);
            assert(strings_view(out@) =~= nonempty(t));
        }
        k = k + 1;
    }
    assert(lv.take(lines.len() as int) =~= lv);
    out
}

/// The files of `fa` that `fb` has too, in the order of `fa`.
pub open spec fn overlap(fa: Seq<Seq<char>>, fb: Seq<Seq<char>>) -> Seq<Seq<char>>
    decreases fa.len(),
{
    if fa.len() == 0 {
        Seq::empty()
    } else {
        overlap(fa.drop_last(), fb) + (if fb.contains(fa.last()) { seq![fa.last()] } else { Seq::empty() })
    }
}

/// The warning for two tabs of one workspace that change the same files.
pub open spec fn pair_warning(label: Seq<char>, title_a: Seq<char>, title_b: Seq<char>, files: Seq<Seq<char>>) -> Seq<char> {
    "["@ + label + "] "@ + title_a + " & "@ + title_b + " both modifying: "@ + join(files, ", "@)
}

/// The warning for tabs `x` and `y`, when the files they change overlap.
pub open spec fn pair_warnings(tabs: Seq<ActiveTab>, changed: Seq<Seq<Seq<char>>>, x: usize, y: usize) -> Seq<Seq<char>> {
    let ov = overlap(changed[x as int], changed[y as int]);
    if ov.len() > 0 {
        seq![pair_warning(ws_label(tabs[x as int].workspace_path@), tabs[x as int].title@, tabs[y as int].title@, ov)]
    } else {
        Seq::empty()
    }
}

/// The warnings for the pairs `(g[a], g[b])` with `a < b < m`, by `b`.
pub open spec fn warnings_with(tabs: Seq<ActiveTab>, changed: Seq<Seq<Seq<char>>>, g: Seq<usize>, a: int, m: int) -> Seq<Seq<char>>
    decreases m - a,
{
    if m <= a + 1 {
        Seq::empty()
    } else {
        warnings_with(tabs, changed, g, a, m - 1) + pair_warnings(tabs, changed, g[a], g[m - 1])
    }
}

/// The warnings for the pairs of a group whose first member is one of its
/// first `k`, by first and then second member.
pub open spec fn group_warnings(tabs: Seq<ActiveTab>, changed: Seq<Seq<Seq<char>>>, g: Seq<usize>, k: int) -> Seq<Seq<char>>
    decreases k,
{
    if k <= 0 {
        Seq::empty()
    } else {
        group_warnings(tabs, changed, g, k - 1) + warnings_with(tabs, changed, g, k - 1, g.len() as int)
    }
}

/// The warnings of the first `k` groups, group by group.
pub open spec fn all_warnings(tabs: Seq<ActiveTab>, changed: Seq<Seq<Seq<char>>>, groups: Seq<Seq<usize>>, k: int) -> Seq<Seq<char>>
    decreases k,
{
    if k <= 0 {
        Seq::empty()
    } else {
        all_warnings(tabs, changed, groups, k - 1) + group_warnings(tabs, changed, groups[k - 1], groups[k - 1].len() as int)
    }
}

/// The conflict warnings: for each group of running tabs sharing a
/// workspace, each pair of its tabs (in order) whose changed files overlap.
pub open spec fn conflicts_spec(tabs: Seq<ActiveTab>, running: Seq<bool>, changed: Seq<Seq<Seq<char>>>) -> Seq<Seq<char>> {
    let groups = shared_groups(tabs, running, tabs.len());
    all_warnings(tabs, changed, groups, groups.len() as int)
}

/// The changed files of each tab, as character sequences.
pub open spec fn changed_view(changed: Seq<Vec<String>>) -> Seq<Seq<Seq<char>>> {
    changed.map_values(|v: Vec<String>| strings_view(v@))
}

fn has_file(files: &Vec<String>, f: &String) -> (r: bool)
    ensures
        r == strings_view(files@).contains(f@),
{
    let mut k: usize = 0;
    while k < files.len()
        invariant
            k <= files.len(),
            forall|j: int| 0 <= j < k ==> (#[trigger] files@[j])@ != f@,
        decreases files.len() - k,
    {
        if str_eq(files[k].as_str(), f.as_str()) {
            assert(strings_view(files@)[k as int] == f@);
            return true;
        }
        k = k + 1;
    }
    proof {
        if strings_view(files@).contains(f@) {
            let j = choose|j: int| 0 <= j < strings_view(files@).len() && strings_view(files@)[j] == f@;
            assert(files@[j]@ == f@);
        }
    }
    false
}

fn overlap_exec(fa: &Vec<String>, fb: &Vec<String>) -> (r: Vec<String>)
    ensures
        strings_view(r@) == overlap(strings_view(fa@), strings_view(fb@)),
{
    let mut out: Vec<String> = Vec::new();
    let mut k: usize = 0;
    while k < fa.len()
        invariant
            k <= fa.len(),
            strings_view(out@) == overlap(strings_view(fa@.take(k as int)), strings_view(fb@)),
        decreases fa.len() - k,
    {
        let ghost before = out@;
        let hit = has_file(fb, &fa[k]);
        if hit {
            out.push(fa[k].clone());
        }
        proof {
            let t = strings_view(fa@.take(k + 1));
            assert(t.drop_last() =~= strings_view(fa@.take(k as int)));
            assert(t.last() == fa@[k as int]@);
            assert(strings_view(out@) =~= overlap(t, strings_view(fb@)));
        }
        k = k + 1;
    }
    assert(fa@.take(fa.len() as int) =~= fa@);
    out
}

fn pair_warning_exec(label: &str, title_a: &str, title_b: &str, files: &Vec<String>) -> (r: String)
    ensures
        r@ == pair_warning(label@, title_a@, title_b@, strings_view(files@)),
{
    proof {
        reveal_strlit("[");
        reveal_strlit("] ");
        reveal_strlit(" & ");
        reveal_strlit(" both modifying: ");
    }
    let mut v: Vec<char> = Vec::new();
    push_str(&mut v, "[");
    push_str(&mut v, label);
    push_str(&mut v, "] ");
    push_str(&mut v, title_a);
    push_str(&mut v, " & ");
    push_str(&mut v, title_b);
    push_str(&mut v, " both modifying: ");
    push_joined(&mut v, files, ", ");
    string_from_chars(&v)
}

fn ws_label_exec(path: &str) -> (r: String)
    ensures
        r@ == ws_label(path@),
{
    match path_file_name(path) {
        Some(n) => n,
        None => {
            proof { reveal_strlit("?"); }
            "?".to_string()
        },
    }
}

/// The warnings about running tabs (`running[i]` for tab `i`) in one
/// workspace that change the same files (`changed[i]` for tab `i`): for
/// each group of such tabs, ordered by its first tab, each pair of its tabs
/// in order whose files overlap gives
/// `[workspace] title & title both modifying: file, file`.
pub fn file_conflicts(tabs: &Vec<ActiveTab>, running: &Vec<bool>, changed: &Vec<Vec<String>>) -> (r: Vec<String>)
    requires
        running.len() == tabs.len(),
        changed.len() == tabs.len(),
    ensures
        strings_view(r@) == conflicts_spec(tabs@, running@, changed_view(changed@)),
{
    let groups = conflict_groups(tabs, running);
    let ghost gv = groups_view(groups@);
    let ghost cv = changed_view(changed@);
    let mut out: Vec<String> = Vec::new();
    let mut gi: usize = 0;
    while gi < groups.len()
        invariant
            gi <= groups.len(),
            running.len() == tabs.len(),
            changed.len() == tabs.len(),
            gv == groups_view(groups@),
            cv == changed_view(changed@),
            forall|g: int, k: int| 0 <= g < groups@.len() && 0 <= k < groups@[g]@.len() ==> (#[trigger] groups@[g]@[k]) < tabs.len(),
            strings_view(out@) == all_warnings(tabs@, cv, gv, gi as int),
        decreases groups.len() - gi,
    {
        let g = &groups[gi];
        let ghost gs = g@;
        assert(gv[gi as int] == gs);
        let ghost base = strings_view(out@);
        let mut a: usize = 0;
        while a < g.len()
            invariant
                a <= g.len(),
                gi < groups.len(),
                g@ == gs,
                gs == groups@[gi as int]@,
                running.len() == tabs.len(),
                changed.len() == tabs.len(),
                cv == changed_view(changed@),
                forall|k: int| 0 <= k < gs.len() ==> (#[trigger] gs[k]) < tabs.len(),
                strings_view(out@) == base + group_warnings(tabs@, cv, gs, a as int),
            decreases g.len() - a,
        {
            let ghost mid = strings_view(out@);
            let mut b: usize = a + 1;
            assert(warnings_with(tabs@, cv, gs, a as int, b as int) == Seq::<Seq<char>>::empty());
            assert(mid =~= mid + warnings_with(tabs@, cv, gs, a as int, b as int));
            while b < g.len()
                invariant
                    a < b <= g.len(),
                    g@ == gs,
                    running.len() == tabs.len(),
                    changed.len() == tabs.len(),
                    cv == changed_view(changed@),
                    forall|k: int| 0 <= k < gs.len() ==> (#[trigger] gs[k]) < tabs.len(),
                    strings_view(out@) == mid + warnings_with(tabs@, cv, gs, a as int, b as int),
                decreases g.len() - b,
            {
                let x = g[a];
                let y = g[b];
                assert(x < tabs.len() && y < tabs.len());
                let ov = overlap_exec(&changed[x], &changed[y]);
                assert(cv[x as int] == strings_view(changed@[x as int]@));
                assert(cv[y as int] == strings_view(changed@[y as int]@));
                let ghost before = strings_view(out@);
                if ov.len() > 0 {
                    let label = ws_label_exec(tabs[x].workspace_path.as_str());
                    let w = pair_warning_exec(label.as_str(), tabs[x].title.as_str(), tabs[y].title.as_str(), &ov);
                    out.push(w);
                    assert(strings_view(out@) =~= before.push(w@));
                }
                proof {
                    assert(strings_view(ov@).len() == ov@.len());
                    assert(warnings_with(tabs@, cv, gs, a as int, b + 1) == warnings_with(tabs@, cv, gs, a as int, b as int)
                        + pair_warnings(tabs@, cv, gs[a as int], gs[b as int]));
                    assert(strings_view(out@) =~= mid + warnings_with(tabs@, cv, gs, a as int, b + 1));
                }
                b = b + 1;
            }
            proof {
                assert(group_warnings(tabs@, cv, gs, a + 1) == group_warnings(tabs@, cv, gs, a as int)
                    + warnings_with(tabs@, cv, gs, a as int, gs.len() as int));
                assert(strings_view(out@) =~= base + group_warnings(tabs@, cv, gs, a + 1));
            }
            a = a + 1;
        }
        proof {
            assert(all_warnings(tabs@, cv, gv, gi + 1) == all_warnings(tabs@, cv, gv, gi as int)
                + group_warnings(tabs@, cv, gv[gi as int], gv[gi as int].len() as int));
            assert(strings_view(out@) =~= all_warnings(tabs@, cv, gv, gi + 1));
        }
        gi = gi + 1;
    }
    out
}

// ───────────────────────── isolating conflicting sessions ─────────────────────────

/// The status after moving conflicting sessions into their own worktrees:
/// how many were moved (or that there was nothing to move, when nothing
/// failed either; otherwise the previous status stays), followed by the
/// errors, joined by `; `, when there were any.
pub open spec fn isolation_status_spec(prior: Seq<char>, isolated: nat, errors: Seq<Seq<char>>) -> Seq<char> {
    let base = if isolated > 0 {
        "Isolated "@ + decimal(isolated) + " session(s) into worktrees."@
    } else if errors.len() == 0 {
        "No conflicts to isolate."@
    } else {
        prior
    };
    if errors.len() == 0 { base } else { base + " Errors: "@ + join(errors, "; "@) }
}

/// The status line after isolating conflicting sessions, given the status
/// before, the number of sessions moved into worktrees and the errors met.
pub fn isolation_status(prior: &str, isolated: usize, errors: &Vec<String>) -> (r: String)
    ensures
        r@ == isolation_status_spec(prior@, isolated as nat, strings_view(errors@)),
{
    let mut v: Vec<char> = Vec::new();
    if isolated > 0 {
        push_str(&mut v, "Isolated ");
        push_decimal(&mut v, isolated as u64);
        push_str(&mut v, " session(s) into worktrees.");
    } else if errors.len() == 0 {
        push_str(&mut v, "No conflicts to isolate.");
    } else {
        push_str(&mut v, prior);
    }
    if errors.len() > 0 {
        push_str(&mut v, " Errors: ");
        push_joined(&mut v, errors, "; ");
    }
    proof {
        assert(v@ =~= isolation_status_spec(prior@, isolated as nat, strings_view(errors@)));
    }
    string_from_chars(&v)
}


// ───────────────────────── every overlapping pair is reported ─────────────────────────

proof fn lemma_contains_add(a: Seq<Seq<char>>, b: Seq<Seq<char>>, w: Seq<char>)
    requires
        a.contains(w) || b.contains(w),
    ensures
        (a + b).contains(w),
{
    if a.contains(w) {
        let i = choose|i: int| 0 <= i < a.len() && a[i] == w;
        assert((a + b)[i] == w);
    } else {
        let i = choose|i: int| 0 <= i < b.len() && b[i] == w;
        assert((a + b)[a.len() + i] == w);
    }
}

proof fn lemma_running_in_prefix(tabs: Seq<ActiveTab>, running: Seq<bool>, path: Seq<char>, m: nat, n: nat)
    requires
        m <= n,
    ensures
        running_in(tabs, running, path, m).len() <= running_in(tabs, running, path, n).len(),
        running_in(tabs, running, path, n).take(running_in(tabs, running, path, m).len() as int) == running_in(tabs, running, path, m),
    decreases n,
{
    if m < n {
        lemma_running_in_prefix(tabs, running, path, m, (n - 1) as nat);
        let a = running_in(tabs, running, path, m);
        let p = running_in(tabs, running, path, (n - 1) as nat);
        let q = running_in(tabs, running, path, n);
        assert(q.take(p.len() as int) =~= p);
        assert(q.take(a.len() as int) =~= p.take(a.len() as int));
    } else {
        let a = running_in(tabs, running, path, m);
        assert(a.take(a.len() as int) =~= a);
    }
}

/// Tab `i`, running in `path`, sits at position `running_in(.., i).len()`
/// of the whole group.
proof fn lemma_running_in_position(tabs: Seq<ActiveTab>, running: Seq<bool>, path: Seq<char>, i: int, n: nat)
    requires
        0 <= i < n <= usize::MAX,
        runs_in(tabs, running, i, path),
    ensures
        running_in(tabs, running, path, i as nat).len() < running_in(tabs, running, path, n).len(),
        running_in(tabs, running, path, n)[running_in(tabs, running, path, i as nat).len() as int] == i,
{
    lemma_running_in_prefix(tabs, running, path, (i + 1) as nat, n);
    let a = running_in(tabs, running, path, i as nat);
    let b = running_in(tabs, running, path, (i + 1) as nat);
    assert(b =~= a + seq![i as usize]);
    assert(b[a.len() as int] == i as usize);
    let q = running_in(tabs, running, path, n);
    assert(q.take(b.len() as int)[a.len() as int] == b[a.len() as int]);
    assert(q[a.len() as int] == q.take(b.len() as int)[a.len() as int]);
}

proof fn lemma_running_in_order(tabs: Seq<ActiveTab>, running: Seq<bool>, path: Seq<char>, x: int, y: int)
    requires
        0 <= x < y <= usize::MAX,
        runs_in(tabs, running, x, path),
    ensures
        running_in(tabs, running, path, x as nat).len() < running_in(tabs, running, path, y as nat).len(),
{
    lemma_running_in_position(tabs, running, path, x, y as nat);
}

proof fn lemma_shared_groups_prefix(tabs: Seq<ActiveTab>, running: Seq<bool>, m: nat, n: nat, g: Seq<usize>)
    requires
        m <= n,
        shared_groups(tabs, running, m).contains(g),
    ensures
        shared_groups(tabs, running, n).contains(g),
    decreases n,
{
    if m < n {
        lemma_shared_groups_prefix(tabs, running, m, (n - 1) as nat, g);
        let p = shared_groups(tabs, running, (n - 1) as nat);
        let k = choose|k: int| 0 <= k < p.len() && p[k] == g;
        assert(shared_groups(tabs, running, n)[k] == g);
    }
}

/// The group of a workspace with two or more running tabs, one of them
/// among the first `n`, is one of the groups led by the first `n` tabs.
proof fn lemma_group_listed(tabs: Seq<ActiveTab>, running: Seq<bool>, path: Seq<char>, x: int, n: nat)
    requires
        0 <= x < n <= tabs.len(),
        runs_in(tabs, running, x, path),
        running_in(tabs, running, path, tabs.len()).len() >= 2,
    ensures
        shared_groups(tabs, running, n).contains(running_in(tabs, running, path, tabs.len())),
    decreases n,
{
    let g = running_in(tabs, running, path, tabs.len());
    let i = n - 1;
    if x < i {
        lemma_group_listed(tabs, running, path, x, (n - 1) as nat);
        lemma_shared_groups_prefix(tabs, running, (n - 1) as nat, n, g);
    } else if exists|j: int| 0 <= j < i && runs_in(tabs, running, j, path) {
        let j = choose|j: int| 0 <= j < i && runs_in(tabs, running, j, path);
        lemma_group_listed(tabs, running, path, j, (n - 1) as nat);
        lemma_shared_groups_prefix(tabs, running, (n - 1) as nat, n, g);
    } else {
        assert(x == i);
        assert(leads_group(tabs, running, i));
        let p = shared_groups(tabs, running, (n - 1) as nat);
        assert(shared_groups(tabs, running, n) == p + seq![g]);
        assert(shared_groups(tabs, running, n)[p.len() as int] == g);
    }
}

proof fn lemma_warnings_with_has(tabs: Seq<ActiveTab>, changed: Seq<Seq<Seq<char>>>, g: Seq<usize>, a: int, b: int, m: int, w: Seq<char>)
    requires
        a < b < m,
        pair_warnings(tabs, changed, g[a], g[b]) == seq![w],
    ensures
        warnings_with(tabs, changed, g, a, m).contains(w),
    decreases m - a,
{
    if b == m - 1 {
        assert(pair_warnings(tabs, changed, g[a], g[m - 1])[0] == w);
        lemma_contains_add(warnings_with(tabs, changed, g, a, m - 1), pair_warnings(tabs, changed, g[a], g[m - 1]), w);
    } else {
        lemma_warnings_with_has(tabs, changed, g, a, b, m - 1, w);
        lemma_contains_add(warnings_with(tabs, changed, g, a, m - 1), pair_warnings(tabs, changed, g[a], g[m - 1]), w);
    }
}

proof fn lemma_group_warnings_has(tabs: Seq<ActiveTab>, changed: Seq<Seq<Seq<char>>>, g: Seq<usize>, a: int, k: int, w: Seq<char>)
    requires
        0 <= a < k,
        warnings_with(tabs, changed, g, a, g.len() as int).contains(w),
    ensures
        group_warnings(tabs, changed, g, k).contains(w),
    decreases k,
{
    if a < k - 1 {
        lemma_group_warnings_has(tabs, changed, g, a, k - 1, w);
    }
    lemma_contains_add(group_warnings(tabs, changed, g, k - 1), warnings_with(tabs, changed, g, k - 1, g.len() as int), w);
}

proof fn lemma_all_warnings_has(tabs: Seq<ActiveTab>, changed: Seq<Seq<Seq<char>>>, groups: Seq<Seq<usize>>, gi: int, k: int, w: Seq<char>)
    requires
        0 <= gi < k <= groups.len(),
        group_warnings(tabs, changed, groups[gi], groups[gi].len() as int).contains(w),
    ensures
        all_warnings(tabs, changed, groups, k).contains(w),
    decreases k,
{
    if gi < k - 1 {
        lemma_all_warnings_has(tabs, changed, groups, gi, k - 1, w);
    }
    lemma_contains_add(all_warnings(tabs, changed, groups, k - 1), group_warnings(tabs, changed, groups[k - 1], groups[k - 1].len() as int), w);
}

proof fn lemma_overlap_has(fa: Seq<Seq<char>>, fb: Seq<Seq<char>>, f: Seq<char>)
    requires
        fa.contains(f),
        fb.contains(f),
    ensures
        overlap(fa, fb).contains(f),
    decreases fa.len(),
{
    if fa.last() == f {
        let o = overlap(fa.drop_last(), fb);
        assert(overlap(fa, fb) == o + seq![f]);
        assert(overlap(fa, fb)[o.len() as int] == f);
    } else {
        let i = choose|i: int| 0 <= i < fa.len() && fa[i] == f;
        assert(fa.drop_last()[i] == f);
        lemma_overlap_has(fa.drop_last(), fb, f);
        let o = overlap(fa.drop_last(), fb);
        let j = choose|j: int| 0 <= j < o.len() && o[j] == f;
        assert(overlap(fa, fb)[j] == f);
    }
}

/// Every two running tabs of one workspace, the first before the second,
/// whose changed files share a file are reported: the warnings hold
/// `[workspace] first & second both modifying: ` and their common files,
/// and those include the shared one. Every pair is compared, not only
/// neighbours.
pub proof fn lemma_every_overlapping_pair_warned(tabs: Seq<ActiveTab>, running: Seq<bool>, changed: Seq<Seq<Seq<char>>>, x: int, y: int, f: Seq<char>)
    requires
        running.len() == tabs.len(),
        changed.len() == tabs.len(),
        tabs.len() <= usize::MAX,
        0 <= x < y < tabs.len(),
        running[x],
        running[y],
        tabs[x].workspace_path@ == tabs[y].workspace_path@,
        changed[x].contains(f),
        changed[y].contains(f),
    ensures
        overlap(changed[x], changed[y]).contains(f),
        conflicts_spec(tabs, running, changed).contains(
            "["@ + ws_label(tabs[x].workspace_path@) + "] "@ + tabs[x].title@ + " & "@ + tabs[y].title@ + " both modifying: "@
                + join(overlap(changed[x], changed[y]), ", "@)),
{
    let path = tabs[x].workspace_path@;
    let n = tabs.len();
    let g = running_in(tabs, running, path, n as nat);
    let w = "["@ + ws_label(path) + "] "@ + tabs[x].title@ + " & "@ + tabs[y].title@ + " both modifying: "@
        + join(overlap(changed[x], changed[y]), ", "@);
    assert(runs_in(tabs, running, x, path));
    assert(runs_in(tabs, running, y, path));
    lemma_running_in_position(tabs, running, path, x, n as nat);
    lemma_running_in_position(tabs, running, path, y, n as nat);
    lemma_running_in_order(tabs, running, path, x, y);
    let a = running_in(tabs, running, path, x as nat).len() as int;
    let b = running_in(tabs, running, path, y as nat).len() as int;
    assert(g[a] == x as usize && g[b] == y as usize);
    assert(g.len() >= 2);
    lemma_overlap_has(changed[x], changed[y], f);
    assert(overlap(changed[x], changed[y]).len() > 0);
    assert(pair_warnings(tabs, changed, g[a], g[b]) == seq![w]);
    lemma_warnings_with_has(tabs, changed, g, a, b, g.len() as int, w);
    lemma_group_warnings_has(tabs, changed, g, a, g.len() as int, w);
    lemma_group_listed(tabs, running, path, x, n as nat);
    let groups = shared_groups(tabs, running, n as nat);
    let gi = choose|gi: int| 0 <= gi < groups.len() && groups[gi] == g;
    lemma_all_warnings_has(tabs, changed, groups, gi, groups.len() as int, w);
}

} // verus!
