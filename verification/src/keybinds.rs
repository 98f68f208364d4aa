//! Configurable key bindings: defaults, display, conflict detection, and
//! matching against key presses.

use vstd::prelude::*;
use crate::text::{push_str, string_from_chars};

verus! {

/// Keys a terminal can report, as far as the interface distinguishes them.
#[derive(Clone, Copy, Debug, PartialEq, Eq, Structural)]
pub enum KeyCode {
    Char(char),
    Enter,
    Esc,
    Backspace,
    Tab,
    BackTab,
    Up,
    Down,
    Left,
    Right,
    PageUp,
    PageDown,
    Home,
    End,
    Delete,
    F(u8),
    Other,
}

/// A key press with its modifiers.
#[derive(Clone, Copy, Debug, PartialEq, Eq, Structural)]
pub struct KeyPress {
    pub code: KeyCode,
    pub ctrl: bool,
    pub alt: bool,
    pub shift: bool,
}

impl KeyPress {
    /// A key pressed without modifiers.
    pub fn plain(code: KeyCode) -> (k: KeyPress)
        ensures
            k == (KeyPress { code, ctrl: false, alt: false, shift: false }),
    {
        KeyPress { code, ctrl: false, alt: false, shift: false }
    }
}

/// One binding: a character key with modifiers.
#[derive(Clone, Copy, Debug, PartialEq, Eq, Structural)]
pub struct KeyBind {
    pub ctrl: bool,
    pub alt: bool,
    pub shift: bool,
    pub key: char,
}

/// A press triggers a binding when it is the bound character with the same
/// Ctrl and Alt state (Shift is carried by the character itself).
pub open spec fn bind_matches(b: KeyBind, k: KeyPress) -> bool {
    k.code == KeyCode::Char(b.key) && k.ctrl == b.ctrl && k.alt == b.alt
}

/// The ASCII upper-case form of a character; other characters unchanged.
pub open spec fn upper_ascii(c: char) -> char {
    if 'a' <= c && c <= 'z' { ((c as u32) - 32) as char } else { c }
}

/// How a binding is written: modifiers in the order Ctrl, Alt, Shift, each
/// followed by `+`, then the key (letters upper-cased).
pub open spec fn bind_display(b: KeyBind) -> Seq<char> {
    (if b.ctrl { "Ctrl+"@ } else { Seq::empty() })
        + (if b.alt { "Alt+"@ } else { Seq::empty() })
        + (if b.shift { "Shift+"@ } else { Seq::empty() })
        + seq![upper_ascii(b.key)]
}

fn upper_ascii_exec(c: char) -> (r: char)
    ensures
        r == upper_ascii(c),
{
    if 'a' <= c && c <= 'z' {
        let u = (c as u32) - 32;
        ((u as u8) as char)
    } else {
        c
    }
}

impl KeyBind {
    /// A binding with the Alt modifier.
    pub fn alt(key: char) -> (b: KeyBind)
        ensures
            b == (KeyBind { ctrl: false, alt: true, shift: false, key }),
    {
        KeyBind { ctrl: false, alt: true, shift: false, key }
    }

    /// Whether `k` triggers this binding.
    pub fn matches_event(&self, k: &KeyPress) -> (r: bool)
        ensures
            r == bind_matches(*self, *k),
    {
        match k.code {
            KeyCode::Char(c) => c == self.key && k.ctrl == self.ctrl && k.alt == self.alt,
            _ => false,
        }
    }

    fn display_into(&self, v: &mut Vec<char>)
        ensures
            final(v)@ == old(v)@ + bind_display(*self),
    {
        proof {
            reveal_strlit("Ctrl+");
            reveal_strlit("Alt+");
            reveal_strlit("Shift+");
        }
        let ghost start = v@;
        if self.ctrl {
            push_str(v, "Ctrl+");
        }
        if self.alt {
            push_str(v, "Alt+");
        }
        if self.shift {
            push_str(v, "Shift+");
        }
        v.push(upper_ascii_exec(self.key));
        assert(v@ =~= start + bind_display(*self));
    }

    /// The binding as text, e.g. `Alt+Q`.
    pub fn display(&self) -> (s: String)
        ensures
            s@ == bind_display(*self),
    {
        let mut v: Vec<char> = Vec::new();
        self.display_into(&mut v);
        assert(v@ =~= bind_display(*self));
        string_from_chars(&v)
    }
}

/// All configurable bindings of the sidebar and chat.
#[derive(Clone, Copy, Debug, PartialEq, Eq, Structural)]
pub struct Keybinds {
    pub move_up: KeyBind,
    pub move_down: KeyBind,
    pub expand: KeyBind,
    pub refresh: KeyBind,
    pub rename: KeyBind,
    pub new_workspace: KeyBind,
    pub delete: KeyBind,
    pub new_session: KeyBind,
    pub search: KeyBind,
    pub help: KeyBind,
    pub preview: KeyBind,
    pub export: KeyBind,
    pub copy: KeyBind,
    pub theme: KeyBind,
    pub settings: KeyBind,
    pub tag_filter: KeyBind,
    pub quit: KeyBind,
}

/// The bindings paired with their configuration names, in declaration order.
pub open spec fn bind_list(kb: Keybinds) -> Seq<(Seq<char>, KeyBind)> {
    seq![
        ("move_up"@, kb.move_up),
        ("move_down"@, kb.move_down),
        ("expand"@, kb.expand),
        ("refresh"@, kb.refresh),
        ("rename"@, kb.rename),
        ("new_workspace"@, kb.new_workspace),
        ("delete"@, kb.delete),
        ("new_session"@, kb.new_session),
        ("search"@, kb.search),
        ("help"@, kb.help),
        ("preview"@, kb.preview),
        ("export"@, kb.export),
        ("copy"@, kb.copy),
        ("theme"@, kb.theme),
        ("settings"@, kb.settings),
        ("tag_filter"@, kb.tag_filter),
        ("quit"@, kb.quit),
    ]
}

/// One line of the keybinding list: two spaces, the name, `: `, the binding.
pub open spec fn display_line(name: Seq<char>, b: KeyBind) -> Seq<char> {
    "  "@ + name + ": "@ + bind_display(b)
}

/// The help popup rows as (action, keys) text pairs.
pub open spec fn help_pairs_spec(kb: Keybinds) -> Seq<(Seq<char>, Seq<char>)> {
    seq![
        ("Move selection"@, bind_display(kb.move_up) + "/"@ + bind_display(kb.move_down)),
        ("New session"@, bind_display(kb.new_session)),
        ("Refresh"@, bind_display(kb.refresh)),
        ("Delete"@, bind_display(kb.delete)),
        ("Rename"@, bind_display(kb.rename)),
        ("New workspace"@, bind_display(kb.new_workspace)),
        ("Preview"@, bind_display(kb.preview)),
        ("Expand/collapse"@, bind_display(kb.expand)),
        ("Settings"@, bind_display(kb.settings)),
        ("Theme"@, bind_display(kb.theme)),
        ("Quit"@, bind_display(kb.quit)),
    ]
}

/// Every pair of distinct binding names (first before second in
/// declaration order) that share the same binding, in that order.
pub open spec fn conflicts_spec(kb: Keybinds) -> Seq<(Seq<char>, Seq<char>)> {
    conflict_pairs(bind_list(kb), bind_list(kb).len() as int)
}

/// Conflicting pairs `(i, j)` with `i < j < n`, ordered by `j`, then by `i`.
pub open spec fn conflict_pairs(l: Seq<(Seq<char>, KeyBind)>, n: int) -> Seq<(Seq<char>, Seq<char>)>
    decreases n,
{
    if n <= 0 {
        Seq::empty()
    } else {
        conflict_pairs(l, n - 1) + conflicts_of(l, n - 1, n - 1)
    }
}

/// Pairs `(i, j)` for `i < k` whose binding equals that of `j`.
pub open spec fn conflicts_of(l: Seq<(Seq<char>, KeyBind)>, j: int, k: int) -> Seq<(Seq<char>, Seq<char>)>
    decreases k,
{
    if k <= 0 {
        Seq::empty()
    } else if l[k - 1].1 == l[j].1 {
        conflicts_of(l, j, k - 1).push((l[k - 1].0, l[j].0))
    } else {
        conflicts_of(l, j, k - 1)
    }
}

/// The bindings used when the configuration sets none.
pub open spec fn default_keybinds() -> Keybinds {
    Keybinds {
        move_up: KeyBind { ctrl: false, alt: true, shift: false, key: 'k' },
        move_down: KeyBind { ctrl: false, alt: true, shift: false, key: 'j' },
        expand: KeyBind { ctrl: false, alt: true, shift: false, key: 'e' },
        refresh: KeyBind { ctrl: false, alt: true, shift: false, key: 'r' },
        rename: KeyBind { ctrl: false, alt: true, shift: false, key: 'm' },
        new_workspace: KeyBind { ctrl: false, alt: true, shift: false, key: 'w' },
        delete: KeyBind { ctrl: false, alt: true, shift: false, key: 'd' },
        new_session: KeyBind { ctrl: false, alt: true, shift: false, key: 'n' },
        search: KeyBind { ctrl: false, alt: true, shift: false, key: '/' },
        help: KeyBind { ctrl: false, alt: true, shift: false, key: '?' },
        preview: KeyBind { ctrl: false, alt: true, shift: false, key: 'v' },
        export: KeyBind { ctrl: false, alt: true, shift: false, key: 'x' },
        copy: KeyBind { ctrl: false, alt: true, shift: false, key: 'c' },
        theme: KeyBind { ctrl: false, alt: true, shift: false, key: 't' },
        settings: KeyBind { ctrl: false, alt: true, shift: false, key: 's' },
        tag_filter: KeyBind { ctrl: false, alt: true, shift: false, key: 'f' },
        quit: KeyBind { ctrl: false, alt: true, shift: false, key: 'q' },
    }
}


proof fn lemma_conflicts_of_empty(l: Seq<(Seq<char>, KeyBind)>, j: int, k: int)
    ensures
        conflicts_of(l, j, k).len() == 0 <==> forall|i: int| 0 <= i < k ==> (#[trigger] l[i]).1 != l[j].1,
    decreases k,
{
    if k > 0 {
        lemma_conflicts_of_empty(l, j, k - 1);
        if l[k - 1].1 == l[j].1 {
            assert(conflicts_of(l, j, k).len() > 0);
        } else {
            assert forall|i: int| 0 <= i < k && (forall|i2: int| 0 <= i2 < k - 1 ==> (#[trigger] l[i2]).1 != l[j].1)
                implies (#[trigger] l[i]).1 != l[j].1 by {
                if i < k - 1 {
                    assert(l[i].1 != l[j].1);
                }
            }
        }
    }
}

proof fn lemma_conflict_pairs_empty(l: Seq<(Seq<char>, KeyBind)>, n: int)
    ensures
        conflict_pairs(l, n).len() == 0 <==> forall|i: int, j: int| 0 <= i < j < n ==> (#[trigger] l[i]).1 != (#[trigger] l[j]).1,
    decreases n,
{
    if n > 0 {
        lemma_conflict_pairs_empty(l, n - 1);
        lemma_conflicts_of_empty(l, n - 1, n - 1);
        if conflict_pairs(l, n).len() == 0 {
            assert forall|i: int, j: int| 0 <= i < j < n implies (#[trigger] l[i]).1 != (#[trigger] l[j]).1 by {
                if j < n - 1 {
                } else {
                    assert(l[i].1 != l[n - 1].1);
                }
            }
        } else {
            if forall|i: int, j: int| 0 <= i < j < n ==> (#[trigger] l[i]).1 != (#[trigger] l[j]).1 {
                assert forall|i: int, j: int| 0 <= i < j < n - 1 implies (#[trigger] l[i]).1 != (#[trigger] l[j]).1 by {
                    assert(l[i].1 != l[j].1);
                }
                assert forall|i: int| 0 <= i < n - 1 implies (#[trigger] l[i]).1 != l[n - 1].1 by {
                    assert(l[i].1 != l[n - 1].1);
                }
            }
        }
    }
}

/// `validate` reports nothing exactly when no two actions share a binding.
pub proof fn lemma_no_conflicts_iff_distinct(kb: Keybinds)
    ensures
        conflicts_spec(kb).len() == 0 <==> forall|i: int, j: int| 0 <= i < j < 17
            ==> (#[trigger] bind_list(kb)[i]).1 != (#[trigger] bind_list(kb)[j]).1,
{
    lemma_conflict_pairs_empty(bind_list(kb), 17);
}

/// The default bindings are free of conflicts.
pub proof fn lemma_default_keybinds_conflict_free()
    ensures
        conflicts_spec(default_keybinds()).len() == 0,
{
    let l = bind_list(default_keybinds());
    lemma_conflict_pairs_empty(l, 17);
    assert forall|i: int, j: int| 0 <= i < j < 17 implies (#[trigger] l[i]).1 != (#[trigger] l[j]).1 by {
        assert(l[i].1.key != l[j].1.key);
    }
}

impl Keybinds {
    /// The default bindings: Alt with a letter for each action.
    pub fn default_binds() -> (kb: Keybinds)
        ensures
            kb == default_keybinds(),
    {
        Keybinds {
            move_up: KeyBind::alt('k'),
            move_down: KeyBind::alt('j'),
            expand: KeyBind::alt('e'),
            refresh: KeyBind::alt('r'),
            rename: KeyBind::alt('m'),
            new_workspace: KeyBind::alt('w'),
            delete: KeyBind::alt('d'),
            new_session: KeyBind::alt('n'),
            search: KeyBind::alt('/'),
            help: KeyBind::alt('?'),
            preview: KeyBind::alt('v'),
            export: KeyBind::alt('x'),
            copy: KeyBind::alt('c'),
            theme: KeyBind::alt('t'),
            settings: KeyBind::alt('s'),
            tag_filter: KeyBind::alt('f'),
            quit: KeyBind::alt('q'),
        }
    }

    /// Names and bindings in declaration order.
    pub fn binds(&self) -> (r: Vec<(&'static str, KeyBind)>)
        ensures
            r@.len() == 17,
            forall|i: int| 0 <= i < 17 ==> (#[trigger] r@[i]).0@ == bind_list(*self)[i].0 && r@[i].1 == bind_list(*self)[i].1,
    {
        proof {
            reveal_strlit("move_up");
            reveal_strlit("move_down");
            reveal_strlit("expand");
            reveal_strlit("refresh");
            reveal_strlit("rename");
            reveal_strlit("new_workspace");
            reveal_strlit("delete");
            reveal_strlit("new_session");
            reveal_strlit("search");
            reveal_strlit("help");
            reveal_strlit("preview");
            reveal_strlit("export");
            reveal_strlit("copy");
            reveal_strlit("theme");
            reveal_strlit("settings");
            reveal_strlit("tag_filter");
            reveal_strlit("quit");
        }
        let mut v: Vec<(&'static str, KeyBind)> = Vec::new();
        v.push(("move_up", self.move_up));
        v.push(("move_down", self.move_down));
        v.push(("expand", self.expand));
        v.push(("refresh", self.refresh));
        v.push(("rename", self.rename));
        v.push(("new_workspace", self.new_workspace));
        v.push(("delete", self.delete));
        v.push(("new_session", self.new_session));
        v.push(("search", self.search));
        v.push(("help", self.help));
        v.push(("preview", self.preview));
        v.push(("export", self.export));
        v.push(("copy", self.copy));
        v.push(("theme", self.theme));
        v.push(("settings", self.settings));
        v.push(("tag_filter", self.tag_filter));
        v.push(("quit", self.quit));
        v
    }

    /// One line per binding: `  name: binding`.
    pub fn display_lines(&self) -> (r: Vec<String>)
        ensures
            r@.len() == bind_list(*self).len(),
            forall|i: int| 0 <= i < r@.len() ==> (#[trigger] r@[i])@ == display_line(bind_list(*self)[i].0, bind_list(*self)[i].1),
    {
        proof {
            reveal_strlit("  ");
            reveal_strlit(": ");
        }
        let list = self.binds();
        let mut out: Vec<String> = Vec::new();
        let mut i: usize = 0;
        while i < list.len()
            invariant
                i <= list.len(),
                list@.len() == 17,
                bind_list(*self).len() == 17,
                forall|j: int| 0 <= j < 17 ==> (#[trigger] list@[j]).0@ == bind_list(*self)[j].0 && list@[j].1 == bind_list(*self)[j].1,
                out@.len() == i,
                forall|j: int| 0 <= j < i ==> (#[trigger] out@[j])@ == display_line(bind_list(*self)[j].0, bind_list(*self)[j].1),
            decreases list.len() - i,
        {
            let (name, b) = list[i];
            let mut v: Vec<char> = Vec::new();
            push_str(&mut v, "  ");
            push_str(&mut v, name);
            push_str(&mut v, ": ");
            b.display_into(&mut v);
            assert(v@ =~= display_line(bind_list(*self)[i as int].0, bind_list(*self)[i as int].1));
            out.push(string_from_chars(&v));
            i = i + 1;
        }
        out
    }

    /// Pairs of binding names that share a binding (a conflict).
    pub fn validate(&self) -> (r: Vec<(&'static str, &'static str)>)
        ensures
            r@.len() == conflicts_spec(*self).len(),
            forall|i: int| 0 <= i < r@.len() ==> (#[trigger] r@[i]).0@ == conflicts_spec(*self)[i].0 && r@[i].1@ == conflicts_spec(*self)[i].1,
    {
        let list = self.binds();
        let ghost l = bind_list(*self);
        let mut out: Vec<(&'static str, &'static str)> = Vec::new();
        let mut j: usize = 0;
        while j < list.len()
            invariant
                j <= list.len(),
                list@.len() == 17,
                l == bind_list(*self),
                l.len() == 17,
                forall|t: int| 0 <= t < 17 ==> (#[trigger] list@[t]).0@ == l[t].0 && list@[t].1 == l[t].1,
                out@.len() == conflict_pairs(l, j as int).len(),
                forall|t: int| 0 <= t < out@.len() ==> (#[trigger] out@[t]).0@ == conflict_pairs(l, j as int)[t].0 && out@[t].1@ == conflict_pairs(l, j as int)[t].1,
            decreases list.len() - j,
        {
            let ghost before = conflict_pairs(l, j as int);
            let mut i: usize = 0;
            while i < j
                invariant
                    i <= j,
                    j < list.len(),
                    list@.len() == 17,
                    l.len() == 17,
                    forall|t: int| 0 <= t < 17 ==> (#[trigger] list@[t]).0@ == l[t].0 && list@[t].1 == l[t].1,
                    out@.len() == before.len() + conflicts_of(l, j as int, i as int).len(),
                    forall|t: int| 0 <= t < out@.len() ==> (#[trigger] out@[t]).0@ == (before + conflicts_of(l, j as int, i as int))[t].0
                        && out@[t].1@ == (before + conflicts_of(l, j as int, i as int))[t].1,
                decreases j - i,
            {
                if list[i].1 == list[j].1 {
                    out.push((list[i].0, list[j].0));
                }
                i = i + 1;
                assert(before + conflicts_of(l, j as int, i as int) =~= if l[i - 1].1 == l[j as int].1 {
                    (before + conflicts_of(l, j as int, i - 1)).push((l[i - 1].0, l[j as int].0))
                } else {
                    before + conflicts_of(l, j as int, i - 1)
                });
            }
            j = j + 1;
            assert(conflict_pairs(l, j as int) == before + conflicts_of(l, j - 1, j - 1));
        }
        out
    }

    /// The hint shown in the status bar on start-up.
    pub fn status_hint(&self) -> (s: String)
        ensures
            s@ == bind_display(self.new_session) + " new session · "@ + bind_display(self.help) + " keys · "@ + bind_display(self.quit) + " quit"@,
    {
        proof {
            reveal_strlit(" new session · ");
            reveal_strlit(" keys · ");
            reveal_strlit(" quit");
        }
        let mut v: Vec<char> = Vec::new();
        self.new_session.display_into(&mut v);
        push_str(&mut v, " new session · ");
        self.help.display_into(&mut v);
        push_str(&mut v, " keys · ");
        self.quit.display_into(&mut v);
        push_str(&mut v, " quit");
        string_from_chars(&v)
    }

    /// The (action, keys) rows of the sidebar help popup.
    pub fn help_sidebar_pairs(&self) -> (r: Vec<(String, String)>)
        ensures
            r@.len() == help_pairs_spec(*self).len(),
            forall|i: int| 0 <= i < r@.len() ==> (#[trigger] r@[i]).0@ == help_pairs_spec(*self)[i].0 && r@[i].1@ == help_pairs_spec(*self)[i].1,
    {
        proof {
            reveal_strlit("Move selection");
            reveal_strlit("/");
            reveal_strlit("New session");
            reveal_strlit("Refresh");
            reveal_strlit("Delete");
            reveal_strlit("Rename");
            reveal_strlit("New workspace");
            reveal_strlit("Preview");
            reveal_strlit("Expand/collapse");
            reveal_strlit("Settings");
            reveal_strlit("Theme");
            reveal_strlit("Quit");
        }
        let mut out: Vec<(String, String)> = Vec::new();
        let mut mv: Vec<char> = Vec::new();
        self.move_up.display_into(&mut mv);
        push_str(&mut mv, "/");
        self.move_down.display_into(&mut mv);
        assert(mv@ =~= help_pairs_spec(*self)[0].1);
        out.push((String::from_str("Move selection"), string_from_chars(&mv)));
        out.push((String::from_str("New session"), self.new_session.display()));
        out.push((String::from_str("Refresh"), self.refresh.display()));
        out.push((String::from_str("Delete"), self.delete.display()));
        out.push((String::from_str("Rename"), self.rename.display()));
        out.push((String::from_str("New workspace"), self.new_workspace.display()));
        out.push((String::from_str("Preview"), self.preview.display()));
        out.push((String::from_str("Expand/collapse"), self.expand.display()));
        out.push((String::from_str("Settings"), self.settings.display()));
        out.push((String::from_str("Theme"), self.theme.display()));
        out.push((String::from_str("Quit"), self.quit.display()));
        out
    }
}

} // verus!
