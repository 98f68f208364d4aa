//! The directory browser that picks the directory of a new workspace.

use vstd::prelude::*;
use vstd::string::StrSliceExecFns;
use crate::keybinds::{KeyCode, KeyPress};
use crate::nav::wrap_spec;
use crate::ordering::{
    chars_lt, lemma_lex_irreflexive, lemma_lex_transitive, lemma_stable_sort_congruent, lemma_stable_sort_elems, lemma_stable_sort_sorted,
    lex_lt, lowercase, sorted_by, stable_sort, strict_order, to_lowercase,
};
use crate::sidebar::{env_wf, tree_spec, tree_view, TreeEnv};
use crate::state::{AppState, Effect, InputMode};
use crate::text::{chars_of, push_str, string_from_chars};
use crate::types::Workspace;

verus! {

/// What a row of the browser does.
#[derive(Clone, Copy, Debug, PartialEq, Eq, Structural)]
pub enum BrowseKind {
    /// Use the directory being shown.
    SelectCurrent,
    /// Make a workspace without a directory.
    SelectVirtual,
    /// Go up to the parent directory.
    Parent,
    /// Go into a subdirectory.
    Subdir,
}

/// A row of the browser: its kind, the name shown (subdirectories only)
/// and the directory it stands for.
#[derive(Clone, Debug)]
pub struct BrowseEntry {
    pub kind: BrowseKind,
    pub name: String,
    pub path: String,
}

/// Kind, name and path of a row.
pub open spec fn entry_view(e: BrowseEntry) -> (BrowseKind, Seq<char>, Seq<char>) {
    (e.kind, e.name@, e.path@)
}

/// The directory a workspace chosen on this row works in: the directory
/// shown for "use this directory", none (a virtual workspace) otherwise.
pub fn chosen_path(entry: &BrowseEntry) -> (r: Option<String>)
    ensures
        match r {
            Some(p) => entry.kind == BrowseKind::SelectCurrent && p@ == entry.path@,
            None => entry.kind != BrowseKind::SelectCurrent,
        },
{
    if entry.kind == BrowseKind::SelectCurrent {
        let v = chars_of(entry.path.as_str());
        Some(string_from_chars(&v))
    } else {
        None
    }
}

/// A name starting with `.`.
pub open spec fn hidden(name: Seq<char>) -> bool {
    name.len() > 0 && name[0] == '.'
}

/// The indices of the first `n` names that are not hidden, in order.
pub open spec fn visible_names(names: Seq<Seq<char>>, n: nat) -> Seq<usize>
    decreases n,
{
    if n == 0 {
        Seq::empty()
    } else {
        let i = n - 1;
        visible_names(names, i as nat) + (if hidden(names[i]) { Seq::empty() } else { seq![i as usize] })
    }
}

/// Names compared by their lower-cased forms.
pub open spec fn name_ci_lt(names: Seq<Seq<char>>) -> spec_fn(usize, usize) -> bool {
    |a: usize, b: usize| lex_lt(lowercase(names[a as int]), lowercase(names[b as int]))
}

/// The rows for directory `dir`: use it, make a virtual workspace, go to
/// `parent` (when there is one), then the subdirectories (`names[i]` at
/// `paths[i]`) whose name does not start with `.`, stably ordered by
/// lower-cased name.
pub open spec fn browse_entries_spec(dir: Seq<char>, parent: Option<Seq<char>>, names: Seq<Seq<char>>, paths: Seq<Seq<char>>)
    -> Seq<(BrowseKind, Seq<char>, Seq<char>)> {
    seq![(BrowseKind::SelectCurrent, Seq::<char>::empty(), dir), (BrowseKind::SelectVirtual, Seq::<char>::empty(), Seq::<char>::empty())]
        + (match parent {
            Some(p) => seq![(BrowseKind::Parent, Seq::<char>::empty(), p)],
            None => Seq::empty(),
        })
        + stable_sort(visible_names(names, names.len()), name_ci_lt(names)).map_values(
            |i: usize| (BrowseKind::Subdir, names[i as int], paths[i as int]))
}

/// The names of a list of strings.
pub open spec fn names_view(v: Seq<String>) -> Seq<Seq<char>> {
    v.map_values(|s: String| s@)
}

proof fn lemma_visible_bounded(names: Seq<Seq<char>>, n: nat)
    ensures
        forall|k: int| 0 <= k < visible_names(names, n).len() ==> (#[trigger] visible_names(names, n)[k]) < n,
    decreases n,
{
    if n > 0 {
        let i = n - 1;
        lemma_visible_bounded(names, i as nat);
        let prev = visible_names(names, i as nat);
        assert forall|k: int| 0 <= k < visible_names(names, n).len() implies (#[trigger] visible_names(names, n)[k]) < n by {
            if k < prev.len() {
                assert(visible_names(names, n)[k] == prev[k]);
            }
        }
    }
}

/// The subdirectory rows come in case-insensitive order of their names,
/// and none of them is hidden.
pub proof fn lemma_subdirs_ordered(names: Seq<Seq<char>>)
    requires
        names.len() <= usize::MAX,
    ensures
        sorted_by(stable_sort(visible_names(names, names.len()), name_ci_lt(names)), name_ci_lt(names)),
        forall|k: int| 0 <= k < stable_sort(visible_names(names, names.len()), name_ci_lt(names)).len()
            ==> !hidden(names[#[trigger] stable_sort(visible_names(names, names.len()), name_ci_lt(names))[k] as int]),
{
    let lt = name_ci_lt(names);
    assert forall|a: usize| !#[trigger] lt(a, a) by {
        lemma_lex_irreflexive(lowercase(names[a as int]));
    }
    assert forall|a: usize, b: usize, c: usize| #[trigger] lt(a, b) && #[trigger] lt(b, c) implies lt(a, c) by {
        lemma_lex_transitive(lowercase(names[a as int]), lowercase(names[b as int]), lowercase(names[c as int]));
    }
    assert(strict_order(lt));
    lemma_stable_sort_sorted(visible_names(names, names.len()), lt);
    let v = visible_names(names, names.len());
    lemma_visible_hidden_free(names, names.len());
    lemma_stable_sort_elems_in(v, lt);
}

proof fn lemma_visible_hidden_free(names: Seq<Seq<char>>, n: nat)
    requires
        n <= usize::MAX,
    ensures
        forall|k: int| 0 <= k < visible_names(names, n).len() ==> !hidden(names[#[trigger] visible_names(names, n)[k] as int]),
    decreases n,
{
    if n > 0 {
        let i = n - 1;
        lemma_visible_hidden_free(names, i as nat);
        let prev = visible_names(names, i as nat);
        assert forall|k: int| 0 <= k < visible_names(names, n).len() implies !hidden(names[#[trigger] visible_names(names, n)[k] as int]) by {
            if k < prev.len() {
                assert(visible_names(names, n)[k] == prev[k]);
                assert(!hidden(names[prev[k] as int]));
            } else {
                assert(!hidden(names[i as int]));
                assert(visible_names(names, n)[k] == i as usize);
            }
        }
    }
}

proof fn lemma_stable_sort_elems_in(v: Seq<usize>, lt: spec_fn(usize, usize) -> bool)
    ensures
        forall|k: int| 0 <= k < stable_sort(v, lt).len() ==> v.contains(#[trigger] stable_sort(v, lt)[k]),
{
    broadcast use vstd::seq_lib::group_to_multiset_ensures;
    crate::ordering::lemma_stable_sort_multiset(v, lt);
    assert forall|k: int| 0 <= k < stable_sort(v, lt).len() implies v.contains(#[trigger] stable_sort(v, lt)[k]) by {
        let x = stable_sort(v, lt)[k];
        assert(stable_sort(v, lt).contains(x));
        assert(stable_sort(v, lt).to_multiset().count(x) > 0);
        assert(v.to_multiset().count(x) > 0);
    }
}

/// The rows of the browser for directory `dir` (see `browse_entries_spec`).
pub fn browse_entries(dir: &str, parent: Option<String>, names: &Vec<String>, paths: &Vec<String>) -> (r: Vec<BrowseEntry>)
    requires
        names.len() == paths.len(),
    ensures
        r@.map_values(|e: BrowseEntry| entry_view(e)) == browse_entries_spec(dir@, match parent {
            Some(p) => Some(p@),
            None => None,
        }, names_view(names@), names_view(paths@)),
{
    let ghost nv = names_view(names@);
    let ghost pv = names_view(paths@);
    let ghost lt = name_ci_lt(nv);
    // visible subdirectories, in listing order
    let mut vis: Vec<usize> = Vec::new();
    let mut i: usize = 0;
    while i < names.len()
        invariant
            i <= names.len(),
            nv == names_view(names@),
            vis@ == visible_names(nv, i as nat),
        decreases names.len() - i,
    {
        let nm = names[i].as_str();
        let hid = nm.unicode_len() > 0 && nm.get_char(0) == '.';
        proof {
            if names@[i as int]@.len() > 0 {
                assert(nv[i as int] == names@[i as int]@);
            }
        }
        assert(hid == hidden(nv[i as int])) by {
            assert(nv[i as int] == names@[i as int]@);
        }
        if !hid {
            vis.push(i);
        }
        i = i + 1;
    }
    proof { lemma_visible_bounded(nv, names.len() as nat); }
    // lower-cased names
    let mut keys: Vec<Vec<char>> = Vec::new();
    let mut k: usize = 0;
    while k < names.len()
        invariant
            k <= names.len(),
            keys.len() == k,
            nv == names_view(names@),
            forall|t: int| 0 <= t < k ==> (#[trigger] keys@[t])@ == lowercase(nv[t]),
        decreases names.len() - k,
    {
        let l = to_lowercase(names[k].as_str());
        keys.push(chars_of(l.as_str()));
        assert(nv[k as int] == names@[k as int]@);
        k = k + 1;
    }
    // insertion sort of the visible indices
    let ghost klt = |a: usize, b: usize| lex_lt(keys@[a as int]@, keys@[b as int]@);
    let mut out: Vec<usize> = Vec::new();
    let mut j: usize = 0;
    while j < vis.len()
        invariant
            j <= vis.len(),
            keys.len() == names.len(),
            vis@ == visible_names(nv, names.len() as nat),
            forall|t: int| 0 <= t < vis.len() ==> (#[trigger] vis@[t]) < names.len(),
            forall|t: int| 0 <= t < out.len() ==> (#[trigger] out@[t]) < names.len(),
            out@ == stable_sort(vis@.take(j as int), klt),
            klt == (|a: usize, b: usize| lex_lt(keys@[a as int]@, keys@[b as int]@)),
        decreases vis.len() - j,
    {
        let x = vis[j];
        let mut p: usize = 0;
        while p < out.len() && !chars_lt(&keys[x], &keys[out[p]])
            invariant
                p <= out.len(),
                x < keys.len(),
                keys.len() == names.len(),
                forall|t: int| 0 <= t < out.len() ==> (#[trigger] out@[t]) < names.len(),
                klt == (|a: usize, b: usize| lex_lt(keys@[a as int]@, keys@[b as int]@)),
                forall|t: int| 0 <= t < p ==> !klt(x, #[trigger] out@[t]),
            decreases out.len() - p,
        {
            p = p + 1;
        }
        proof {
            crate::ordering::lemma_insert_sorted_at(out@, x, klt, p as int);
            assert(vis@.take(j + 1).drop_last() =~= vis@.take(j as int));
            assert(vis@.take(j + 1).last() == x);
        }
        out.insert(p, x);
        assert(out@ =~= stable_sort(vis@.take(j as int), klt).take(p as int) + seq![x]
            + stable_sort(vis@.take(j as int), klt).skip(p as int));
        j = j + 1;
    }
    proof {
        assert(vis@.take(vis.len() as int) =~= vis@);
        assert forall|a: usize, b: usize| a < names.len() && b < names.len() implies #[trigger] klt(a, b) == #[trigger] lt(a, b) by {
            assert(keys@[a as int]@ == lowercase(nv[a as int]));
            assert(keys@[b as int]@ == lowercase(nv[b as int]));
        }
        lemma_stable_sort_congruent(vis@, klt, lt, names.len() as nat);
        lemma_stable_sort_elems(vis@, lt, names.len() as nat);
    }
    // the rows
    let mut rows: Vec<BrowseEntry> = Vec::new();
    rows.push(BrowseEntry { kind: BrowseKind::SelectCurrent, name: String::new(), path: string_from_chars(&chars_of(dir)) });
    rows.push(BrowseEntry { kind: BrowseKind::SelectVirtual, name: String::new(), path: String::new() });
    match parent {
        Some(p) => rows.push(BrowseEntry { kind: BrowseKind::Parent, name: String::new(), path: p }),
        None => {},
    }
    let ghost head = rows@.map_values(|e: BrowseEntry| entry_view(e));
    let ghost f = |i: usize| (BrowseKind::Subdir, nv[i as int], pv[i as int]);
    let mut q: usize = 0;
    while q < out.len()
        invariant
            q <= out.len(),
            names.len() == paths.len(),
            nv == names_view(names@),
            pv == names_view(paths@),
            forall|t: int| 0 <= t < out.len() ==> (#[trigger] out@[t]) < names.len(),
            rows@.map_values(|e: BrowseEntry| entry_view(e)) == head + out@.take(q as int).map_values(f),
            f == (|i: usize| (BrowseKind::Subdir, nv[i as int], pv[i as int])),
        decreases out.len() - q,
    {
        let x = out[q];
        let ghost before = rows@.map_values(|e: BrowseEntry| entry_view(e));
        rows.push(BrowseEntry { kind: BrowseKind::Subdir, name: names[x].clone(), path: paths[x].clone() });
        proof {
            assert(nv[x as int] == names@[x as int]@);
            assert(pv[x as int] == paths@[x as int]@);
            assert(out@.take(q + 1).map_values(f) =~= out@.take(q as int).map_values(f).push(f(x)));
            assert(rows@.map_values(|e: BrowseEntry| entry_view(e)) =~= before.push(f(x)));
        }
        q = q + 1;
    }
    assert(out@.take(out.len() as int) =~= out@);
    assert(rows@.map_values(|e: BrowseEntry| entry_view(e)) =~= browse_entries_spec(dir@, match parent {
        Some(p) => Some(p@),
        None => None,
    }, nv, pv));
    rows
}

/// What a key does in the browser.
#[derive(Clone, Debug)]
pub enum BrowseStep {
    /// Nothing more to do (the highlight may have moved).
    Stay,
    /// The browser closed without a choice.
    Cancelled,
    /// Show this directory next (the highlight is back on the first row).
    Open(String),
    /// The highlighted row (at this position) makes the workspace.
    Select(usize),
}

/// What a key does in the browser showing `entries`, whose directory's
/// parent is `parent`.
pub open spec fn browse_key_post(a: AppState, b: AppState, key: KeyPress, entries: Seq<BrowseEntry>, parent: Option<Seq<char>>, r: BrowseStep) -> bool {
    let len = entries.len();
    let cur: int = match a.menu_selected { Some(c) => if (c as int) < len { c as int } else { len - 1 }, None => 0 };
    match key.code {
        KeyCode::Esc => r is Cancelled && b.status@ == "Cancelled."@
            && b == (AppState { input_mode: InputMode::Normal, new_workspace_name: None, status: b.status, ..a }),
        KeyCode::Enter => match a.menu_selected {
            Some(i) if i < len => {
                let e = entries[i as int];
                if e.kind == BrowseKind::SelectCurrent || e.kind == BrowseKind::SelectVirtual {
                    r == BrowseStep::Select(i) && b == a
                } else {
                    (r matches BrowseStep::Open(p) && p@ == e.path@) && b == (AppState { menu_selected: Some(0), ..a })
                }
            },
            _ => r is Stay && b == a,
        },
        KeyCode::Down | KeyCode::Char('j') => r is Stay && (if len == 0 { b == a } else {
            b == (AppState { menu_selected: Some(wrap_spec(cur, 1, len as int) as usize), ..a }) }),
        KeyCode::Up | KeyCode::Char('k') => r is Stay && (if len == 0 { b == a } else {
            b == (AppState { menu_selected: Some(wrap_spec(cur, -1, len as int) as usize), ..a }) }),
        KeyCode::Backspace | KeyCode::Char('h') => match parent {
            Some(p) => (r matches BrowseStep::Open(q) && q@ == p) && b == (AppState { menu_selected: Some(0), ..a }),
            None => r is Stay && b == a,
        },
        _ => r is Stay && b == a,
    }
}

/// The workspace a browser choice makes: named as typed, in `path` (none
/// for a virtual one), created at `now`, expanded.
pub open spec fn made_workspace(a: AppState, id: Seq<char>, path: Option<Seq<char>>, now: u64, w: Workspace) -> bool {
    &&& w.id@ == id
    &&& w.name@ == (match a.new_workspace_name { Some(n) => n@, None => Seq::<char>::empty() })
    &&& (match w.path { Some(p) => Some(p@), None => None }) == path
    &&& w.created_at == now
    &&& w.expanded
}

impl AppState {
    /// Opens the directory browser for the new workspace.
    pub fn start_browse(&mut self)
        ensures
            final(self).status@ == "Select directory \u{b7} Enter: open/select \u{b7} Backspace: up \u{b7} Esc: cancel"@,
            *final(self) == (AppState { input_mode: InputMode::BrowseDir, menu_selected: Some(0), status: final(self).status, ..*old(self) }),
    {
        self.input_mode = InputMode::BrowseDir;
        self.menu_selected = Some(0);
        self.status = String::from_str("Select directory \u{b7} Enter: open/select \u{b7} Backspace: up \u{b7} Esc: cancel");
    }

    /// Keys of the directory browser showing `entries` (of a directory whose
    /// parent is `parent`): up and down move the highlight (wrapping), Enter
    /// picks the highlighted row (opening a directory, or choosing where the
    /// workspace goes), Backspace or `h` goes up, Esc cancels.
    pub fn handle_browse_key(&mut self, key: KeyPress, entries: &Vec<BrowseEntry>, parent: Option<String>) -> (r: BrowseStep)
        ensures
            browse_key_post(*old(self), *final(self), key, entries@, match parent {
                Some(p) => Some(p@),
                None => None,
            }, r),
    {
        match key.code {
            KeyCode::Esc => {
                self.input_mode = InputMode::Normal;
                self.new_workspace_name = None;
                self.status = String::from_str("Cancelled.");
                BrowseStep::Cancelled
            },
            KeyCode::Enter => {
                match self.menu_selected {
                    Some(i) => {
                        if i < entries.len() {
                            let k = entries[i].kind;
                            if k == BrowseKind::SelectCurrent || k == BrowseKind::SelectVirtual {
                                BrowseStep::Select(i)
                            } else {
                                self.menu_selected = Some(0);
                                BrowseStep::Open(entries[i].path.clone())
                            }
                        } else {
                            BrowseStep::Stay
                        }
                    },
                    None => BrowseStep::Stay,
                }
            },
            KeyCode::Down | KeyCode::Char('j') => {
                self.browse_move(1, entries.len());
                BrowseStep::Stay
            },
            KeyCode::Up | KeyCode::Char('k') => {
                self.browse_move(-1, entries.len());
                BrowseStep::Stay
            },
            KeyCode::Backspace | KeyCode::Char('h') => {
                match parent {
                    Some(p) => {
                        self.menu_selected = Some(0);
                        BrowseStep::Open(p)
                    },
                    None => BrowseStep::Stay,
                }
            },
            _ => BrowseStep::Stay,
        }
    }

    /// Makes the new workspace chosen in the browser: named as typed, in
    /// `path` (`None` for a virtual workspace, which works in `virtual_dir`),
    /// with id `id`, created at `now`; `exists` tells whether its directory
    /// exists. The browser closes, the tree is rebuilt, and the workspace
    /// list is to be saved.
    pub fn create_workspace(&mut self, path: Option<String>, virtual_dir: String, id: String, now: u64, exists: bool) -> (e: Effect)
        requires
            old(self).wf(),
        ensures
            final(self).wf(),
            final(self).tree_fresh(),
            e is SaveConfig,
            final(self).store.workspaces@.len() == old(self).store.workspaces@.len() + 1,
            final(self).store.workspaces@.drop_last() == old(self).store.workspaces@,
            made_workspace(*old(self), id@, match path { Some(p) => Some(p@), None => None }, now, final(self).store.workspaces@.last()),
            final(self).env == (TreeEnv {
                cwds: final(self).env.cwds,
                path_exists: final(self).env.path_exists,
                ..old(self).env }),
            final(self).env.cwds@ == old(self).env.cwds@.push(match path { Some(p) => p, None => virtual_dir }),
            final(self).env.path_exists@ == old(self).env.path_exists@.push(exists),
            final(self).store.sessions == old(self).store.sessions,
            final(self).store.archived_sessions == old(self).store.archived_sessions,
            final(self).status@ == (match path {
                Some(p) => "Created workspace: "@ + (match old(self).new_workspace_name { Some(n) => n@, None => Seq::<char>::empty() })
                    + " \u{2192} "@ + p@,
                None => "Created virtual workspace: "@ + (match old(self).new_workspace_name { Some(n) => n@, None => Seq::<char>::empty() }),
            }),
            final(self).input_mode == InputMode::Normal,
            final(self).new_workspace_name is None,
            *final(self) == (AppState { store: final(self).store, env: final(self).env, status: final(self).status,
                input_mode: InputMode::Normal, new_workspace_name: None, ..*old(self) }),
    {
        proof {
            reveal_strlit("Created workspace: ");
            reveal_strlit(" \u{2192} ");
            reveal_strlit("Created virtual workspace: ");
        }
        let name = match self.new_workspace_name.take() {
            Some(n) => n,
            None => String::new(),
        };
        let mut v: Vec<char> = Vec::new();
        let cwd = match &path {
            Some(p) => {
                push_str(&mut v, "Created workspace: ");
                push_str(&mut v, name.as_str());
                push_str(&mut v, " \u{2192} ");
                push_str(&mut v, p.as_str());
                p.clone()
            },
            None => {
                push_str(&mut v, "Created virtual workspace: ");
                push_str(&mut v, name.as_str());
                virtual_dir
            },
        };
        let ghost ws0 = self.store.workspaces@;
        let ghost cw0 = self.env.cwds@;
        let w = Workspace { id, name, path, created_at: now, expanded: true };
        self.store.workspaces.push(w);
        self.env.cwds.push(cwd);
        self.env.path_exists.push(exists);
        proof {
            assert forall|j: int| 0 <= j < self.store.workspaces.len() implies
                ((#[trigger] self.store.workspaces[j]).path matches Some(p) ==> self.env.cwds[j]@ == p@) by {
                if j < ws0.len() {
                    assert(self.store.workspaces@[j] == ws0[j] && self.env.cwds@[j] == cw0[j]);
                }
            }
            assert(self.store.workspaces@.drop_last() =~= ws0);
        }
        self.status = string_from_chars(&v);
        self.input_mode = InputMode::Normal;
        self.rebuild();
        Effect::SaveConfig
    }
}

} // verus!
