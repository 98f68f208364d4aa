//! The text the interface draws: the sidebar's title, search prompt and
//! tree rows, the panel shown while no tab is open, the tab bar and the
//! status bar, as pieces of text with the tone the theme colours them by.

use vstd::prelude::*;
use crate::chain::ActiveChain;
use crate::display::{diff_view, join, push_joined, secondary_parts, session_secondary_text, strings_view, truncate_title, truncate_title_spec};
use crate::keybinds::{bind_display, bind_list, conflicts_spec, display_line, help_pairs_spec, KeyBind, Keybinds};
use crate::search::{short_id, short_id_spec};
use crate::sidebar::{is_active, is_active_id, selected_node, selected_view, ActiveTab, NodeView, SessionStore, TreeEnv, ViewFilters};
use crate::state::{AppState, TabRunState};
use crate::stats::AgentStats;
use crate::budget::TokenLimits;
use crate::git::{lines_spec, split_lines};
use crate::text::{char_is_whitespace, is_whitespace};
use crate::text::{chars_of, decimal, push_decimal, push_str, str_eq, string_from_chars};
use crate::types::{agent_label_spec, sort_mode_label, Agent, DiffSummary, Focus, Session, SortMode, TreeNode, Workspace};

verus! {

/// The colour role of a piece of text; the theme maps each to a colour.
#[derive(Clone, Copy, Debug, PartialEq, Eq, Structural)]
pub enum Tone {
    /// The terminal's default colour.
    Plain,
    Text,
    Dim,
    Highlight,
    Selected,
    Accent,
    Running,
    Done,
    Added,
    Removed,
    /// The colour of an agent.
    AgentColor(Agent),
    /// The background colour of the focused tab (its edges are drawn in it).
    TabFill,
    /// The status bar's text colour.
    StatusText,
    Error,
    /// Light text on the error colour.
    Alarm,
    /// Dark text on the accent colour.
    Badge,
    /// Grey label text.
    Muted,
    /// A section heading.
    Heading,
    /// Tags and the knowledge base.
    Tag,
}

/// Extra emphasis of a piece of text.
#[derive(Clone, Copy, Debug, PartialEq, Eq, Structural)]
pub enum Emph {
    Normal,
    Bold,
    Faint,
}

/// A run of text in one tone.
#[derive(Clone, Debug)]
pub struct Piece {
    pub text: String,
    pub tone: Tone,
    pub emph: Emph,
}

/// One row of the sidebar: its first line and its second line (empty for a
/// one-line row).
#[derive(Clone, Debug)]
pub struct RowText {
    pub head: Vec<Piece>,
    pub detail: Vec<Piece>,
}

/// The pieces as (text, tone, emphasis) triples.
pub open spec fn pieces_view(ps: Seq<Piece>) -> Seq<(Seq<char>, Tone, Emph)> {
    ps.map_values(|p: Piece| (p.text@, p.tone, p.emph))
}

fn piece(v: &Vec<char>, tone: Tone, emph: Emph) -> (p: Piece)
    ensures
        p.text@ == v@,
        p.tone == tone,
        p.emph == emph,
{
    Piece { text: string_from_chars(v), tone, emph }
}

/// The row as (first line, second line).
pub open spec fn row_view(r: RowText) -> (Seq<(Seq<char>, Tone, Emph)>, Seq<(Seq<char>, Tone, Emph)>) {
    (pieces_view(r.head@), pieces_view(r.detail@))
}

fn push_piece(ps: &mut Vec<Piece>, p: Piece)
    ensures
        pieces_view(final(ps)@) == pieces_view(old(ps)@).push((p.text@, p.tone, p.emph)),
{
    let ghost before = ps@;
    ps.push(p);
    assert(pieces_view(ps@) =~= pieces_view(before).push((p.text@, p.tone, p.emph)));
}

fn lit(s: &str, tone: Tone, emph: Emph) -> (p: Piece)
    ensures
        p.text@ == s@,
        p.tone == tone,
        p.emph == emph,
{
    let v = chars_of(s);
    piece(&v, tone, emph)
}

// ───────────────────────── the title and the search prompt ─────────────────────────

/// The sidebar's title: the agent filter, the search query while searching,
/// the tag filter, `Workspaces` when not searching, and the sort order, each
/// in brackets.
pub open spec fn sidebar_title_spec(searching: bool, agent: Option<Agent>, tag: Option<Seq<char>>, query: Seq<char>, sort: SortMode) -> Seq<char> {
    let agent_part = match agent {
        Some(a) => "["@ + agent_label_spec(a) + "] "@,
        None => Seq::<char>::empty(),
    };
    let search_part = if searching { "[search: "@ + query + "] "@ } else { Seq::<char>::empty() };
    let tag_part = match tag {
        Some(t) => "[tag: "@ + t + "] "@,
        None => Seq::<char>::empty(),
    };
    let heading = if searching { Seq::<char>::empty() } else { "Workspaces "@ };
    " "@ + agent_part + search_part + tag_part + heading + "[sort: "@ + sort_mode_label(sort) + "] "@
}

/// The query being searched for (empty when there is none).
pub open spec fn query_view(q: Option<String>) -> Seq<char> {
    match q {
        Some(s) => s@,
        None => Seq::<char>::empty(),
    }
}

/// The tag filter, as characters.
pub open spec fn tag_view(t: Option<String>) -> Option<Seq<char>> {
    match t {
        Some(s) => Some(s@),
        None => None,
    }
}

/// The title shown above the sidebar tree.
pub fn sidebar_title(searching: bool, filters: &ViewFilters) -> (r: String)
    ensures
        r@ == sidebar_title_spec(searching, filters.agent_filter, tag_view(filters.tag_filter), query_view(filters.search_query), filters.sort_mode),
{
    let ghost agent_part = match filters.agent_filter {
        Some(a) => "["@ + agent_label_spec(a) + "] "@,
        None => Seq::<char>::empty(),
    };
    let ghost search_part = if searching { "[search: "@ + query_view(filters.search_query) + "] "@ } else { Seq::<char>::empty() };
    let ghost tag_part = match tag_view(filters.tag_filter) {
        Some(t) => "[tag: "@ + t + "] "@,
        None => Seq::<char>::empty(),
    };
    let ghost heading = if searching { Seq::<char>::empty() } else { "Workspaces "@ };
    let mut v: Vec<char> = Vec::new();
    push_str(&mut v, " ");
    let ghost v0 = v@;
    match filters.agent_filter {
        Some(a) => {
            push_str(&mut v, "[");
            push_str(&mut v, a.label());
            push_str(&mut v, "] ");
            assert(v@ =~= v0 + agent_part);
        },
        None => {
            assert(v@ =~= v0 + agent_part);
        },
    }
    let ghost v1 = v@;
    if searching {
        push_str(&mut v, "[search: ");
        let ghost w = v@;
        match &filters.search_query {
            Some(q) => push_str(&mut v, q.as_str()),
            None => {},
        }
        assert(v@ =~= w + query_view(filters.search_query));
        push_str(&mut v, "] ");
    }
    assert(v@ =~= v1 + search_part);
    let ghost v2 = v@;
    match &filters.tag_filter {
        Some(t) => {
            push_str(&mut v, "[tag: ");
            push_str(&mut v, t.as_str());
            push_str(&mut v, "] ");
        },
        None => {},
    }
    assert(v@ =~= v2 + tag_part);
    let ghost v3 = v@;
    if !searching {
        push_str(&mut v, "Workspaces ");
    }
    assert(v@ =~= v3 + heading);
    let ghost v4 = v@;
    push_str(&mut v, "[sort: ");
    push_str(&mut v, filters.sort_mode.label());
    push_str(&mut v, "] ");
    assert(v@ =~= v4 + "[sort: "@ + sort_mode_label(filters.sort_mode) + "] "@);
    assert(v@ =~= " "@ + agent_part + search_part + tag_part + heading + "[sort: "@ + sort_mode_label(filters.sort_mode) + "] "@);
    string_from_chars(&v)
}

/// How many rows the search left: `1 match`, otherwise `<n> matches`.
pub open spec fn match_count_spec(n: nat) -> Seq<char> {
    if n == 1 { "1 match"@ } else { decimal(n) + " matches"@ }
}

/// The match count shown beside the search prompt.
pub fn match_count_text(n: usize) -> (r: String)
    ensures
        r@ == match_count_spec(n as nat),
{
    let mut v: Vec<char> = Vec::new();
    if n == 1 {
        push_str(&mut v, "1 match");
    } else {
        push_decimal(&mut v, n as u64);
        push_str(&mut v, " matches");
    }
    proof { assert(v@ =~= match_count_spec(n as nat)); }
    string_from_chars(&v)
}

/// The line under the tree while searching: the prompt, the query, a bar
/// and the match count.
pub open spec fn search_prompt_spec(query: Seq<char>, n: nat) -> Seq<(Seq<char>, Tone, Emph)> {
    seq![
        (" search: "@, Tone::Accent, Emph::Bold),
        (query, Tone::Text, Emph::Normal),
        ("|"@, Tone::Dim, Emph::Normal),
        (" "@ + match_count_spec(n), Tone::Dim, Emph::Normal),
    ]
}

/// The search prompt for `query` with `n` rows left in the tree.
pub fn search_prompt(query: &str, n: usize) -> (r: Vec<Piece>)
    ensures
        pieces_view(r@) == search_prompt_spec(query@, n as nat),
{
    let mut ps: Vec<Piece> = Vec::new();
    push_piece(&mut ps, lit(" search: ", Tone::Accent, Emph::Bold));
    push_piece(&mut ps, lit(query, Tone::Text, Emph::Normal));
    push_piece(&mut ps, lit("|", Tone::Dim, Emph::Normal));
    let mut v: Vec<char> = Vec::new();
    push_str(&mut v, " ");
    let count = match_count_text(n);
    push_str(&mut v, count.as_str());
    push_piece(&mut ps, piece(&v, Tone::Dim, Emph::Normal));
    assert(pieces_view(ps@) =~= search_prompt_spec(query@, n as nat));
    ps
}

// ───────────────────────── group and workspace rows ─────────────────────────

/// The expand marker of a group: down when open, right when closed.
pub open spec fn arrow_spec(expanded: bool) -> Seq<char> {
    if expanded { "\u{25bc}"@ } else { "\u{25b6}"@ }
}

fn arrow(expanded: bool) -> (s: &'static str)
    ensures
        s@ == arrow_spec(expanded),
{
    if expanded { "\u{25bc}" } else { "\u{25b6}" }
}

/// How many of the sessions are pinned.
pub open spec fn pinned_count(ss: Seq<Session>) -> nat
    decreases ss.len(),
{
    if ss.len() == 0 {
        0
    } else {
        pinned_count(ss.drop_last()) + if ss.last().pinned { 1nat } else { 0nat }
    }
}

/// The row of the pinned group (`pinned`) or of the recent group, holding
/// `count` sessions.
pub open spec fn group_row_spec(pinned: bool, expanded: bool, count: nat) -> (Seq<(Seq<char>, Tone, Emph)>, Seq<(Seq<char>, Tone, Emph)>) {
    let icon = if pinned { " \u{1f4cc} "@ } else { " \u{1f550} "@ };
    let name = if pinned { "Pinned"@ } else { "Recent"@ };
    let what = if pinned { " pinned sessions"@ } else { " recent sessions"@ };
    (
        seq![(arrow_spec(expanded) + icon, Tone::Highlight, Emph::Normal), (name, Tone::Highlight, Emph::Normal)],
        seq![("   "@ + decimal(count) + what, Tone::Dim, Emph::Normal)],
    )
}

/// The row of the pinned group (`pinned`, counting the pinned sessions) or
/// of the recent group (counting the recent sessions).
pub fn group_row(store: &SessionStore, pinned: bool) -> (r: RowText)
    ensures
        row_view(r) == group_row_spec(
            pinned,
            if pinned { store.pinned_expanded } else { store.recent_expanded },
            if pinned { pinned_count(store.sessions@) } else { store.recent_count as nat },
        ),
{
    let expanded = if pinned { store.pinned_expanded } else { store.recent_expanded };
    let count: usize = if pinned { count_pinned(&store.sessions) } else { store.recent_count };
    let mut head: Vec<Piece> = Vec::new();
    let mut first: Vec<char> = Vec::new();
    push_str(&mut first, arrow(expanded));
    push_str(&mut first, if pinned { " \u{1f4cc} " } else { " \u{1f550} " });
    push_piece(&mut head, piece(&first, Tone::Highlight, Emph::Normal));
    push_piece(&mut head, lit(if pinned { "Pinned" } else { "Recent" }, Tone::Highlight, Emph::Normal));
    let mut detail: Vec<Piece> = Vec::new();
    let mut second: Vec<char> = Vec::new();
    push_str(&mut second, "   ");
    push_decimal(&mut second, count as u64);
    push_str(&mut second, if pinned { " pinned sessions" } else { " recent sessions" });
    push_piece(&mut detail, piece(&second, Tone::Dim, Emph::Normal));
    let r = RowText { head, detail };
    assert(row_view(r) =~= group_row_spec(pinned, expanded, count as nat));
    r
}

/// A workspace's row: its expand marker, a filled diamond for a directory
/// or a hollow one for a virtual workspace, its name, and below it the
/// number of its sessions and its path (or `virtual`).
pub open spec fn workspace_row_spec(ws: Workspace, count: nat) -> (Seq<(Seq<char>, Tone, Emph)>, Seq<(Seq<char>, Tone, Emph)>) {
    let binding = match ws.path { Some(_) => "\u{25c6}"@, None => "\u{25c7}"@ };
    let tone = match ws.path { Some(_) => Tone::Selected, None => Tone::Highlight };
    let place = match ws.path { Some(p) => p@, None => "virtual"@ };
    (
        seq![(arrow_spec(ws.expanded) + " "@ + binding + " "@, tone, Emph::Bold), (ws.name@, Tone::Selected, Emph::Bold)],
        seq![("   "@ + decimal(count) + " sessions \u{b7} "@ + place, Tone::Dim, Emph::Normal)],
    )
}

/// The number of sessions the tree lists under workspace `wi`.
pub open spec fn workspace_count(store: SessionStore, wi: int) -> nat {
    if 0 <= wi < store.ws_session_map@.len() { store.ws_session_map@[wi]@.len() } else { 0 }
}

/// The row of workspace `wi`.
pub fn workspace_row(store: &SessionStore, wi: usize) -> (r: RowText)
    requires
        wi < store.workspaces@.len(),
    ensures
        row_view(r) == workspace_row_spec(store.workspaces@[wi as int], workspace_count(*store, wi as int)),
{
    let ws = &store.workspaces[wi];
    let count: usize = if wi < store.ws_session_map.len() { store.ws_session_map[wi].len() } else { 0 };
    let mut first: Vec<char> = Vec::new();
    push_str(&mut first, arrow(ws.expanded));
    push_str(&mut first, " ");
    let tone = match &ws.path {
        Some(_) => {
            push_str(&mut first, "\u{25c6}");
            Tone::Selected
        },
        None => {
            push_str(&mut first, "\u{25c7}");
            Tone::Highlight
        },
    };
    push_str(&mut first, " ");
    let mut head: Vec<Piece> = Vec::new();
    push_piece(&mut head, piece(&first, tone, Emph::Bold));
    push_piece(&mut head, lit(ws.name.as_str(), Tone::Selected, Emph::Bold));
    let mut second: Vec<char> = Vec::new();
    push_str(&mut second, "   ");
    push_decimal(&mut second, count as u64);
    push_str(&mut second, " sessions \u{b7} ");
    match &ws.path {
        Some(p) => push_str(&mut second, p.as_str()),
        None => push_str(&mut second, "virtual"),
    }
    let mut detail: Vec<Piece> = Vec::new();
    push_piece(&mut detail, piece(&second, Tone::Dim, Emph::Normal));
    let r = RowText { head, detail };
    assert(row_view(r) =~= workspace_row_spec(store.workspaces@[wi as int], workspace_count(*store, wi as int)));
    r
}

// ───────────────────────── session and tab rows ─────────────────────────

/// The agent tag shown after a row's title.
pub open spec fn agent_tag_spec(a: Agent) -> Seq<char> {
    " ["@ + agent_label_spec(a) + "]"@
}

fn agent_tag(a: Agent) -> (v: Vec<char>)
    ensures
        v@ == agent_tag_spec(a),
{
    let mut v: Vec<char> = Vec::new();
    push_str(&mut v, " [");
    push_str(&mut v, a.label());
    push_str(&mut v, "]");
    v
}

/// Whether a tab's run has ended (completed, or its process exited).
pub open spec fn run_done(run: Option<TabRunState>) -> bool {
    run == Some(TabRunState::Completed) || run == Some(TabRunState::Exited)
}

/// The title width of a session row in a sidebar `width` columns wide: the
/// width less 14, but at least 12.
pub open spec fn session_title_width(width: u16) -> nat {
    if width >= 26 { (width - 14) as nat } else { 12 }
}

/// A session's row. On the first line: a check mark when it is marked, a
/// bar coloured by its tab's state (a light shade when no tab shows it), its
/// agent, its title cut to the row, a pin when pinned and a note mark when it
/// has a note. On the second: its relative time, short id, the tab's state
/// (`running` or `done`), tags, the diff of a finished tab and its last
/// message.
pub open spec fn session_row_spec(
    s: Session,
    marked: bool,
    run: Option<TabRunState>,
    note: bool,
    width: u16,
    relative: Seq<char>,
    diff: Option<(nat, nat, nat)>,
) -> (Seq<(Seq<char>, Tone, Emph)>, Seq<(Seq<char>, Tone, Emph)>) {
    let check = if marked { ("\u{2611} "@, Tone::Done, Emph::Normal) } else { ("  "@, Tone::Plain, Emph::Normal) };
    let marker = if run == Some(TabRunState::Running) {
        (" \u{258c}"@, Tone::Running, Emph::Normal)
    } else if run_done(run) {
        (" \u{258c}"@, Tone::Done, Emph::Normal)
    } else {
        (" \u{2591}"@, Tone::Dim, Emph::Normal)
    };
    let label = if run == Some(TabRunState::Running) {
        Some("running"@)
    } else if run_done(run) {
        Some("done"@)
    } else {
        None
    };
    let head = seq![
        check,
        marker,
        (agent_tag_spec(s.agent), Tone::AgentColor(s.agent), Emph::Normal),
        (" "@, Tone::Plain, Emph::Normal),
        (truncate_title_spec(s.title@, session_title_width(width)), Tone::Text, Emph::Normal),
    ]
        + (if s.pinned { seq![(" \u{1f4cc}"@, Tone::Highlight, Emph::Normal)] } else { Seq::empty() })
        + (if note { seq![(" \u{1f4dd}"@, Tone::Accent, Emph::Normal)] } else { Seq::empty() });
    let shown_diff = if run_done(run) { diff } else { None };
    let second = "   "@ + join(
        secondary_parts(relative, short_id_spec(s.id@), label, strings_view(s.tags@), shown_diff, match s.last_message { Some(m) => Some(m@), None => None }),
        " \u{b7} "@,
    );
    (head, seq![(second, Tone::Dim, Emph::Normal)])
}

/// The row of session `s`: `marked` for a batch operation, `run` the state of
/// the tab showing it (if any), `note` whether it has a note, `width` the
/// sidebar's width, `relative` its last activity as relative time, and `diff`
/// the changes of the tab showing it.
pub fn session_row(
    s: &Session,
    marked: bool,
    run: Option<TabRunState>,
    note: bool,
    width: u16,
    relative: &str,
    diff: Option<&DiffSummary>,
) -> (r: RowText)
    ensures
        row_view(r) == session_row_spec(*s, marked, run, note, width, relative@, diff_view(diff)),
{
    let running = match run { Some(TabRunState::Running) => true, _ => false };
    let done = match run { Some(TabRunState::Completed) | Some(TabRunState::Exited) => true, _ => false };
    let mut head: Vec<Piece> = Vec::new();
    if marked {
        push_piece(&mut head, lit("\u{2611} ", Tone::Done, Emph::Normal));
    } else {
        push_piece(&mut head, lit("  ", Tone::Plain, Emph::Normal));
    }
    let label: Option<&str>;
    if running {
        push_piece(&mut head, lit(" \u{258c}", Tone::Running, Emph::Normal));
        label = Some("running");
    } else if done {
        push_piece(&mut head, lit(" \u{258c}", Tone::Done, Emph::Normal));
        label = Some("done");
    } else {
        push_piece(&mut head, lit(" \u{2591}", Tone::Dim, Emph::Normal));
        label = None;
    }
    let tag = agent_tag(s.agent);
    push_piece(&mut head, piece(&tag, Tone::AgentColor(s.agent), Emph::Normal));
    push_piece(&mut head, lit(" ", Tone::Plain, Emph::Normal));
    let tw: u16 = if width >= 26 { width - 14 } else { 12 };
    let title = truncate_title(s.title.as_str(), tw as usize);
    push_piece(&mut head, lit(title.as_str(), Tone::Text, Emph::Normal));
    let ghost base = pieces_view(head@);
    if s.pinned {
        push_piece(&mut head, lit(" \u{1f4cc}", Tone::Highlight, Emph::Normal));
    }
    let ghost mid = pieces_view(head@);
    assert(mid =~= base + (if s.pinned { seq![(" \u{1f4cc}"@, Tone::Highlight, Emph::Normal)] } else { Seq::empty() }));
    if note {
        push_piece(&mut head, lit(" \u{1f4dd}", Tone::Accent, Emph::Normal));
    }
    assert(pieces_view(head@) =~= mid + (if note { seq![(" \u{1f4dd}"@, Tone::Accent, Emph::Normal)] } else { Seq::empty() }));
    let id = short_id(s.id.as_str());
    let shown = if done { diff } else { None };
    let last = match &s.last_message { Some(m) => Some(m.as_str()), None => None };
    let second = session_secondary_text(relative, id.as_str(), label, &s.tags, shown, last);
    let mut detail: Vec<Piece> = Vec::new();
    push_piece(&mut detail, lit(second.as_str(), Tone::Dim, Emph::Normal));
    let r = RowText { head, detail };
    proof {
        let spec = session_row_spec(*s, marked, run, note, width, relative@, diff_view(diff));
        assert(pieces_view(r.head@) =~= spec.0);
        assert(pieces_view(r.detail@) =~= spec.1);
    }
    r
}

/// A running tab's row: a bar and its state (`[running]`, or a tick and
/// `done` once finished) in the state's colour, its title and agent; below,
/// while it runs, that it waits for the session file, and when done its
/// changes (`+ins/-del in n file(s)`, or that none were detected).
pub open spec fn tab_row_spec(title: Seq<char>, agent: Agent, done: bool, diff: (nat, nat, nat)) -> (Seq<(Seq<char>, Tone, Emph)>, Seq<(Seq<char>, Tone, Emph)>) {
    let tone = if done { Tone::Done } else { Tone::Running };
    let state = if done { " \u{2714} done"@ } else { " [running]"@ };
    let head = seq![
        ("  \u{258c} "@, tone, Emph::Normal),
        (title, Tone::Text, Emph::Normal),
        (state, tone, Emph::Normal),
        (agent_tag_spec(agent), Tone::AgentColor(agent), Emph::Normal),
    ];
    let detail = if !done {
        seq![("     waiting for session file..."@, Tone::Dim, Emph::Normal)]
    } else if diff.2 == 0 {
        seq![("     no changes detected"@, Tone::Dim, Emph::Normal)]
    } else {
        seq![
            ("     "@, Tone::Plain, Emph::Normal),
            ("+"@ + decimal(diff.0), Tone::Added, Emph::Normal),
            ("/"@, Tone::Plain, Emph::Normal),
            ("-"@ + decimal(diff.1), Tone::Removed, Emph::Normal),
            (" in "@ + decimal(diff.2) + " file(s)"@, Tone::Dim, Emph::Normal),
        ]
    };
    (head, detail)
}

/// The row of a running tab titled `title`; `done` once its run finished,
/// with `diff` the changes it left.
pub fn tab_row(title: &str, agent: Agent, done: bool, diff: &DiffSummary) -> (r: RowText)
    ensures
        row_view(r) == tab_row_spec(title@, agent, done, (diff.insertions as nat, diff.deletions as nat, diff.files_changed@.len())),
{
    let tone = if done { Tone::Done } else { Tone::Running };
    let mut head: Vec<Piece> = Vec::new();
    push_piece(&mut head, lit("  \u{258c} ", tone, Emph::Normal));
    push_piece(&mut head, lit(title, Tone::Text, Emph::Normal));
    push_piece(&mut head, lit(if done { " \u{2714} done" } else { " [running]" }, tone, Emph::Normal));
    let tag = agent_tag(agent);
    push_piece(&mut head, piece(&tag, Tone::AgentColor(agent), Emph::Normal));
    let mut detail: Vec<Piece> = Vec::new();
    if !done {
        push_piece(&mut detail, lit("     waiting for session file...", Tone::Dim, Emph::Normal));
    } else if diff.files_changed.len() == 0 {
        push_piece(&mut detail, lit("     no changes detected", Tone::Dim, Emph::Normal));
    } else {
        push_piece(&mut detail, lit("     ", Tone::Plain, Emph::Normal));
        let mut ins: Vec<char> = Vec::new();
        push_str(&mut ins, "+");
        push_decimal(&mut ins, diff.insertions as u64);
        push_piece(&mut detail, piece(&ins, Tone::Added, Emph::Normal));
        push_piece(&mut detail, lit("/", Tone::Plain, Emph::Normal));
        let mut del: Vec<char> = Vec::new();
        push_str(&mut del, "-");
        push_decimal(&mut del, diff.deletions as u64);
        push_piece(&mut detail, piece(&del, Tone::Removed, Emph::Normal));
        let mut files: Vec<char> = Vec::new();
        push_str(&mut files, " in ");
        push_decimal(&mut files, diff.files_changed.len() as u64);
        push_str(&mut files, " file(s)");
        push_piece(&mut detail, piece(&files, Tone::Dim, Emph::Normal));
    }
    let r = RowText { head, detail };
    proof {
        let spec = tab_row_spec(title@, agent, done, (diff.insertions as nat, diff.deletions as nat, diff.files_changed@.len()));
        assert(pieces_view(r.head@) =~= spec.0);
        assert(pieces_view(r.detail@) =~= spec.1);
    }
    r
}

// ───────────────────────── one-line rows ─────────────────────────

/// A workspace warning's row.
pub open spec fn warning_row_spec(msg: Seq<char>) -> Seq<(Seq<char>, Tone, Emph)> {
    seq![("  \u{26a0} "@ + msg, Tone::Highlight, Emph::Normal)]
}

/// The row of a warning about a workspace.
pub fn warning_row(msg: &str) -> (r: RowText)
    ensures
        row_view(r) == (warning_row_spec(msg@), Seq::<(Seq<char>, Tone, Emph)>::empty()),
{
    let mut v: Vec<char> = Vec::new();
    push_str(&mut v, "  \u{26a0} ");
    push_str(&mut v, msg);
    let mut head: Vec<Piece> = Vec::new();
    push_piece(&mut head, piece(&v, Tone::Highlight, Emph::Normal));
    let r = RowText { head, detail: Vec::new() };
    assert(row_view(r) =~= (warning_row_spec(msg@), Seq::<(Seq<char>, Tone, Emph)>::empty()));
    r
}

/// The header over an agent's sessions: its name between rules, faint, in
/// the agent's colour.
pub open spec fn agent_header_spec(a: Agent) -> Seq<(Seq<char>, Tone, Emph)> {
    seq![("  \u{2500}\u{2500} "@ + agent_label_spec(a) + " \u{2500}\u{2500}"@, Tone::AgentColor(a), Emph::Faint)]
}

/// The row heading the sessions of agent `a`.
pub fn agent_header_row(a: Agent) -> (r: RowText)
    ensures
        row_view(r) == (agent_header_spec(a), Seq::<(Seq<char>, Tone, Emph)>::empty()),
{
    let mut v: Vec<char> = Vec::new();
    push_str(&mut v, "  \u{2500}\u{2500} ");
    push_str(&mut v, a.label());
    push_str(&mut v, " \u{2500}\u{2500}");
    let mut head: Vec<Piece> = Vec::new();
    push_piece(&mut head, piece(&v, Tone::AgentColor(a), Emph::Faint));
    let r = RowText { head, detail: Vec::new() };
    assert(row_view(r) =~= (agent_header_spec(a), Seq::<(Seq<char>, Tone, Emph)>::empty()));
    r
}

/// The header of the archived sessions, with their number.
pub open spec fn archived_header_spec(count: nat) -> Seq<(Seq<char>, Tone, Emph)> {
    seq![("  \u{25b6} Archived ("@ + decimal(count) + ")"@, Tone::Dim, Emph::Normal)]
}

/// The row heading the archived sessions.
pub fn archived_header_row(store: &SessionStore) -> (r: RowText)
    ensures
        row_view(r) == (archived_header_spec(store.archived_sessions@.len()), Seq::<(Seq<char>, Tone, Emph)>::empty()),
{
    let mut v: Vec<char> = Vec::new();
    push_str(&mut v, "  \u{25b6} Archived (");
    push_decimal(&mut v, store.archived_sessions.len() as u64);
    push_str(&mut v, ")");
    let mut head: Vec<Piece> = Vec::new();
    push_piece(&mut head, piece(&v, Tone::Dim, Emph::Normal));
    let r = RowText { head, detail: Vec::new() };
    assert(row_view(r) =~= (archived_header_spec(store.archived_sessions@.len()), Seq::<(Seq<char>, Tone, Emph)>::empty()));
    r
}

/// An archived session's row, all dim: a hollow circle, its relative time,
/// short id and (faint) agent; below, its title.
pub open spec fn archived_row_spec(s: Session, relative: Seq<char>) -> (Seq<(Seq<char>, Tone, Emph)>, Seq<(Seq<char>, Tone, Emph)>) {
    (
        seq![
            (" \u{25cb} "@, Tone::Dim, Emph::Normal),
            (relative, Tone::Dim, Emph::Normal),
            (" ("@ + short_id_spec(s.id@) + ")"@, Tone::Dim, Emph::Normal),
            (agent_tag_spec(s.agent), Tone::Dim, Emph::Faint),
        ],
        seq![("     "@ + s.title@, Tone::Dim, Emph::Normal)],
    )
}

/// The row of an archived session last active `relative` ago.
pub fn archived_row(s: &Session, relative: &str) -> (r: RowText)
    ensures
        row_view(r) == archived_row_spec(*s, relative@),
{
    let mut head: Vec<Piece> = Vec::new();
    push_piece(&mut head, lit(" \u{25cb} ", Tone::Dim, Emph::Normal));
    push_piece(&mut head, lit(relative, Tone::Dim, Emph::Normal));
    let id = short_id(s.id.as_str());
    let mut v: Vec<char> = Vec::new();
    push_str(&mut v, " (");
    push_str(&mut v, id.as_str());
    push_str(&mut v, ")");
    push_piece(&mut head, piece(&v, Tone::Dim, Emph::Normal));
    let tag = agent_tag(s.agent);
    push_piece(&mut head, piece(&tag, Tone::Dim, Emph::Faint));
    let mut w: Vec<char> = Vec::new();
    push_str(&mut w, "     ");
    push_str(&mut w, s.title.as_str());
    let mut detail: Vec<Piece> = Vec::new();
    push_piece(&mut detail, piece(&w, Tone::Dim, Emph::Normal));
    let r = RowText { head, detail };
    assert(row_view(r) =~= archived_row_spec(*s, relative@));
    r
}

// ───────────────────────── the panel shown when no tab is open ─────────────────────────

/// A line of one tone.
pub open spec fn ln(text: Seq<char>, tone: Tone) -> (Seq<char>, Tone, Emph) {
    (text, tone, Emph::Normal)
}

/// The selection points at rows that exist (the tree is built that way).
pub open spec fn placeholder_ok(store: SessionStore) -> bool {
    match selected_view(store) {
        Some(NodeView::Workspace(wi)) => wi < store.workspaces@.len(),
        Some(NodeView::Session(_, si)) => si < store.sessions@.len(),
        _ => true,
    }
}

/// The panel of a workspace: its name, its directory (or that it is
/// virtual), and that Enter starts a session.
pub open spec fn workspace_panel(ws: Workspace) -> Seq<(Seq<char>, Tone, Emph)> {
    seq![
        (ws.name@, Tone::Selected, Emph::Bold),
        match ws.path {
            Some(p) => ln("\u{25c6} "@ + p@, Tone::Done),
            None => ln("\u{25c7} Virtual workspace (no directory)"@, Tone::Highlight),
        },
        ln(Seq::empty(), Tone::Plain),
        ln("Press Enter to start a new session"@, Tone::Highlight),
    ]
}

/// The panel of a session: title, id, last activity, tags, and whether Enter
/// switches to its running tab (`active`) or resumes it.
pub open spec fn session_panel(s: Session, active: bool, relative: Seq<char>) -> Seq<(Seq<char>, Tone, Emph)> {
    seq![
        (s.title@, Tone::Selected, Emph::Bold),
        ln("ID: "@ + s.id@, Tone::Dim),
        ln("Last active: "@ + relative, Tone::Plain),
    ]
        + (if s.tags@.len() > 0 {
            seq![ln("Tags: "@ + join(strings_view(s.tags@), ", "@), Tone::AgentColor(Agent::Omp))]
        } else {
            Seq::empty()
        })
        + seq![
            ln(Seq::empty(), Tone::Plain),
            if active {
                ln("This session is already running - Enter to switch to it"@, Tone::Done)
            } else {
                ln("Press Enter to resume this session"@, Tone::Highlight)
            },
        ]
}

/// The panel of a running tab.
pub open spec fn tab_panel(title: Seq<char>) -> Seq<(Seq<char>, Tone, Emph)> {
    seq![
        (title, Tone::Done, Emph::Bold),
        ln("Session is running..."@, Tone::Dim),
        ln(Seq::empty(), Tone::Plain),
        ln("Press Enter to switch to this session"@, Tone::Highlight),
    ]
}

/// The panel of the pinned group, with `n` pinned sessions.
pub open spec fn pinned_panel(n: nat) -> Seq<(Seq<char>, Tone, Emph)> {
    seq![
        ("\u{1f4cc} Pinned Sessions"@, Tone::Highlight, Emph::Bold),
        ln(decimal(n) + " pinned session(s) from all workspaces"@, Tone::Plain),
        ln(Seq::empty(), Tone::Plain),
        ln("Press ! on a session to unpin it"@, Tone::Dim),
    ]
}

/// The panel of the recent group, with `n` recent sessions.
pub open spec fn recent_panel(n: nat) -> Seq<(Seq<char>, Tone, Emph)> {
    seq![
        ("\u{1f550} Recent Sessions"@, Tone::Highlight, Emph::Bold),
        ln(decimal(n) + " recent session(s) from all workspaces"@, Tone::Plain),
        ln("Most recently active sessions from all workspaces"@, Tone::Plain),
        ln(Seq::empty(), Tone::Plain),
        ln("Sessions are automatically sorted by last activity"@, Tone::Dim),
    ]
}

/// The panel of an archived session.
pub open spec fn archived_panel(s: Session, relative: Seq<char>) -> Seq<(Seq<char>, Tone, Emph)> {
    seq![
        (s.title@, Tone::Dim, Emph::Bold),
        ln("ID: "@ + s.id@ + " (archived)"@, Tone::Dim),
        ln("Last active: "@ + relative, Tone::Plain),
        ln(Seq::empty(), Tone::Plain),
        ln("Press Enter to unarchive and resume"@, Tone::Highlight),
    ]
}

/// What the panel says about the selected row: its name and details and
/// what Enter does there (`relative` is the selected session's last
/// activity as relative time).
pub open spec fn placeholder_body(store: SessionStore, env: TreeEnv, relative: Seq<char>) -> Seq<(Seq<char>, Tone, Emph)> {
    match selected_view(store) {
        Some(NodeView::Workspace(wi)) => workspace_panel(store.workspaces@[wi as int]),
        Some(NodeView::Session(_, si)) => {
            let s = store.sessions@[si as int];
            session_panel(s, is_active_id(env, s.id@), relative)
        },
        Some(NodeView::ActiveTab(pi)) => tab_panel(if pi < env.tabs@.len() { env.tabs@[pi as int].title@ } else { "New Session"@ }),
        Some(NodeView::PinnedWorkspace) => pinned_panel(pinned_count(store.sessions@)),
        Some(NodeView::RecentWorkspace) => recent_panel(store.recent_count as nat),
        Some(NodeView::WorkspaceWarning(_, msg)) => seq![
            ("Workspace Warning"@, Tone::Highlight, Emph::Bold),
            ln(Seq::empty(), Tone::Plain),
            ln(msg, Tone::Highlight),
        ],
        Some(NodeView::AgentHeader(a)) => seq![
            (agent_label_spec(a), Tone::AgentColor(a), Emph::Bold),
            ln(Seq::empty(), Tone::Plain),
            ln("Agent group header"@, Tone::Dim),
        ],
        Some(NodeView::ArchivedHeader) => seq![
            ln("Archived Sessions ("@ + decimal(store.archived_sessions@.len()) + ")"@, Tone::Dim),
            ln(Seq::empty(), Tone::Plain),
            ln("Press G to toggle archived visibility"@, Tone::Highlight),
        ],
        Some(NodeView::ArchivedSession(_, ai)) => {
            if ai < store.archived_sessions@.len() {
                archived_panel(store.archived_sessions@[ai as int], relative)
            } else {
                Seq::empty()
            }
        },
        None => seq![ln("No selection"@, Tone::Dim)],
    }
}

/// The key reminder under the panel: where the full list is, and the keys
/// that open, move and quit.
pub open spec fn placeholder_footer(kb: Keybinds) -> Seq<(Seq<char>, Tone, Emph)> {
    seq![
        ln(Seq::empty(), Tone::Plain),
        ln("\u{2500}\u{2500} "@ + bind_display(kb.settings) + " \u{2192} Keybindings for full list \u{2500}\u{2500}"@, Tone::Dim),
        ln("  Enter     New / Resume / Switch"@, Tone::Plain),
        ln("  "@ + bind_display(kb.move_up) + "/"@ + bind_display(kb.move_down) + "  Navigate"@, Tone::Plain),
        ln("  "@ + bind_display(kb.quit) + "     Quit"@, Tone::Plain),
    ]
}

fn blank() -> (p: Piece)
    ensures
        (p.text@, p.tone, p.emph) == ln(Seq::empty(), Tone::Plain),
{
    let v: Vec<char> = Vec::new();
    piece(&v, Tone::Plain, Emph::Normal)
}

fn line_of(v: &Vec<char>, tone: Tone) -> (p: Piece)
    ensures
        (p.text@, p.tone, p.emph) == ln(v@, tone),
{
    piece(v, tone, Emph::Normal)
}

fn placeholder_footer_lines(kb: &Keybinds, out: &mut Vec<Piece>)
    ensures
        pieces_view(final(out)@) == pieces_view(old(out)@) + placeholder_footer(*kb),
{
    let ghost start = pieces_view(out@);
    push_piece(out, blank());
    let mut a: Vec<char> = Vec::new();
    push_str(&mut a, "\u{2500}\u{2500} ");
    let settings = kb.settings.display();
    push_str(&mut a, settings.as_str());
    push_str(&mut a, " \u{2192} Keybindings for full list \u{2500}\u{2500}");
    push_piece(out, line_of(&a, Tone::Dim));
    push_piece(out, lit("  Enter     New / Resume / Switch", Tone::Plain, Emph::Normal));
    let mut b: Vec<char> = Vec::new();
    push_str(&mut b, "  ");
    let up = kb.move_up.display();
    push_str(&mut b, up.as_str());
    push_str(&mut b, "/");
    let down = kb.move_down.display();
    push_str(&mut b, down.as_str());
    push_str(&mut b, "  Navigate");
    push_piece(out, line_of(&b, Tone::Plain));
    let mut c: Vec<char> = Vec::new();
    push_str(&mut c, "  ");
    let quit = kb.quit.display();
    push_str(&mut c, quit.as_str());
    push_str(&mut c, "     Quit");
    push_piece(out, line_of(&c, Tone::Plain));
    assert(pieces_view(out@) =~= start + placeholder_footer(*kb));
}

fn workspace_panel_lines(ws: &Workspace) -> (r: Vec<Piece>)
    ensures
        pieces_view(r@) == workspace_panel(*ws),
{
    let mut out: Vec<Piece> = Vec::new();
    push_piece(&mut out, lit(ws.name.as_str(), Tone::Selected, Emph::Bold));
    match &ws.path {
        Some(p) => {
            let mut v: Vec<char> = Vec::new();
            push_str(&mut v, "\u{25c6} ");
            push_str(&mut v, p.as_str());
            push_piece(&mut out, line_of(&v, Tone::Done));
        },
        None => push_piece(&mut out, lit("\u{25c7} Virtual workspace (no directory)", Tone::Highlight, Emph::Normal)),
    }
    push_piece(&mut out, blank());
    push_piece(&mut out, lit("Press Enter to start a new session", Tone::Highlight, Emph::Normal));
    assert(pieces_view(out@) =~= workspace_panel(*ws));
    out
}

fn session_panel_lines(s: &Session, active: bool, relative: &str) -> (r: Vec<Piece>)
    ensures
        pieces_view(r@) == session_panel(*s, active, relative@),
{
    let mut out: Vec<Piece> = Vec::new();
    push_piece(&mut out, lit(s.title.as_str(), Tone::Selected, Emph::Bold));
    let mut id: Vec<char> = Vec::new();
    push_str(&mut id, "ID: ");
    push_str(&mut id, s.id.as_str());
    push_piece(&mut out, line_of(&id, Tone::Dim));
    let mut last: Vec<char> = Vec::new();
    push_str(&mut last, "Last active: ");
    push_str(&mut last, relative);
    push_piece(&mut out, line_of(&last, Tone::Plain));
    let ghost before_tags = pieces_view(out@);
    if s.tags.len() > 0 {
        let mut t: Vec<char> = Vec::new();
        push_str(&mut t, "Tags: ");
        push_joined(&mut t, &s.tags, ", ");
        push_piece(&mut out, line_of(&t, Tone::AgentColor(Agent::Omp)));
    }
    assert(pieces_view(out@) =~= before_tags + (if s.tags@.len() > 0 {
        seq![ln("Tags: "@ + join(strings_view(s.tags@), ", "@), Tone::AgentColor(Agent::Omp))]
    } else {
        Seq::empty()
    }));
    push_piece(&mut out, blank());
    if active {
        push_piece(&mut out, lit("This session is already running - Enter to switch to it", Tone::Done, Emph::Normal));
    } else {
        push_piece(&mut out, lit("Press Enter to resume this session", Tone::Highlight, Emph::Normal));
    }
    assert(pieces_view(out@) =~= session_panel(*s, active, relative@));
    out
}

fn tab_panel_lines(title: &str) -> (r: Vec<Piece>)
    ensures
        pieces_view(r@) == tab_panel(title@),
{
    let mut out: Vec<Piece> = Vec::new();
    push_piece(&mut out, lit(title, Tone::Done, Emph::Bold));
    push_piece(&mut out, lit("Session is running...", Tone::Dim, Emph::Normal));
    push_piece(&mut out, blank());
    push_piece(&mut out, lit("Press Enter to switch to this session", Tone::Highlight, Emph::Normal));
    assert(pieces_view(out@) =~= tab_panel(title@));
    out
}

fn count_pinned(ss: &Vec<Session>) -> (n: usize)
    ensures
        n as nat == pinned_count(ss@),
{
    let mut count: usize = 0;
    let mut i: usize = 0;
    while i < ss.len()
        invariant
            i <= ss@.len(),
            count <= i,
            count as nat == pinned_count(ss@.take(i as int)),
        decreases ss@.len() - i,
    {
        assert(ss@.take(i as int + 1).drop_last() =~= ss@.take(i as int));
        if ss[i].pinned {
            count = count + 1;
        }
        i = i + 1;
    }
    assert(ss@.take(i as int) =~= ss@);
    count
}

fn group_panel_lines(pinned: bool, n: usize) -> (r: Vec<Piece>)
    ensures
        pieces_view(r@) == if pinned { pinned_panel(n as nat) } else { recent_panel(n as nat) },
{
    let mut out: Vec<Piece> = Vec::new();
    let mut v: Vec<char> = Vec::new();
    push_decimal(&mut v, n as u64);
    if pinned {
        push_piece(&mut out, lit("\u{1f4cc} Pinned Sessions", Tone::Highlight, Emph::Bold));
        push_str(&mut v, " pinned session(s) from all workspaces");
        push_piece(&mut out, line_of(&v, Tone::Plain));
        push_piece(&mut out, blank());
        push_piece(&mut out, lit("Press ! on a session to unpin it", Tone::Dim, Emph::Normal));
        assert(pieces_view(out@) =~= pinned_panel(n as nat));
    } else {
        push_piece(&mut out, lit("\u{1f550} Recent Sessions", Tone::Highlight, Emph::Bold));
        push_str(&mut v, " recent session(s) from all workspaces");
        push_piece(&mut out, line_of(&v, Tone::Plain));
        push_piece(&mut out, lit("Most recently active sessions from all workspaces", Tone::Plain, Emph::Normal));
        push_piece(&mut out, blank());
        push_piece(&mut out, lit("Sessions are automatically sorted by last activity", Tone::Dim, Emph::Normal));
        assert(pieces_view(out@) =~= recent_panel(n as nat));
    }
    out
}

fn archived_panel_lines(s: &Session, relative: &str) -> (r: Vec<Piece>)
    ensures
        pieces_view(r@) == archived_panel(*s, relative@),
{
    let mut out: Vec<Piece> = Vec::new();
    push_piece(&mut out, lit(s.title.as_str(), Tone::Dim, Emph::Bold));
    let mut id: Vec<char> = Vec::new();
    push_str(&mut id, "ID: ");
    push_str(&mut id, s.id.as_str());
    push_str(&mut id, " (archived)");
    push_piece(&mut out, line_of(&id, Tone::Dim));
    let mut last: Vec<char> = Vec::new();
    push_str(&mut last, "Last active: ");
    push_str(&mut last, relative);
    push_piece(&mut out, line_of(&last, Tone::Plain));
    push_piece(&mut out, blank());
    push_piece(&mut out, lit("Press Enter to unarchive and resume", Tone::Highlight, Emph::Normal));
    assert(pieces_view(out@) =~= archived_panel(*s, relative@));
    out
}

fn three_lines(a: Piece, b: Piece) -> (r: Vec<Piece>)
    ensures
        pieces_view(r@) == seq![(a.text@, a.tone, a.emph), ln(Seq::empty(), Tone::Plain), (b.text@, b.tone, b.emph)],
{
    let mut out: Vec<Piece> = Vec::new();
    let ghost (ta, tb) = ((a.text@, a.tone, a.emph), (b.text@, b.tone, b.emph));
    push_piece(&mut out, a);
    push_piece(&mut out, blank());
    push_piece(&mut out, b);
    assert(pieces_view(out@) =~= seq![ta, ln(Seq::empty(), Tone::Plain), tb]);
    out
}

fn placeholder_body_lines(st: &AppState, relative: &str) -> (r: Vec<Piece>)
    requires
        placeholder_ok(st.store),
    ensures
        pieces_view(r@) == placeholder_body(st.store, st.env, relative@),
{
    let store = &st.store;
    match selected_node(store) {
        Some(TreeNode::Workspace(wi)) => workspace_panel_lines(&store.workspaces[*wi]),
        Some(TreeNode::Session(_, si)) => {
            let s = &store.sessions[*si];
            let active = is_active(&st.env, &s.id);
            session_panel_lines(s, active, relative)
        },
        Some(TreeNode::ActiveTab(pi)) => {
            if *pi < st.env.tabs.len() {
                tab_panel_lines(st.env.tabs[*pi].title.as_str())
            } else {
                tab_panel_lines("New Session")
            }
        },
        Some(TreeNode::PinnedWorkspace) => group_panel_lines(true, count_pinned(&store.sessions)),
        Some(TreeNode::RecentWorkspace) => group_panel_lines(false, store.recent_count),
        Some(TreeNode::WorkspaceWarning(_, msg)) => three_lines(
            lit("Workspace Warning", Tone::Highlight, Emph::Bold),
            lit(msg.as_str(), Tone::Highlight, Emph::Normal),
        ),
        Some(TreeNode::AgentHeader(a)) => three_lines(
            lit(a.label(), Tone::AgentColor(*a), Emph::Bold),
            lit("Agent group header", Tone::Dim, Emph::Normal),
        ),
        Some(TreeNode::ArchivedHeader) => {
            let mut v: Vec<char> = Vec::new();
            push_str(&mut v, "Archived Sessions (");
            push_decimal(&mut v, store.archived_sessions.len() as u64);
            push_str(&mut v, ")");
            three_lines(line_of(&v, Tone::Dim), lit("Press G to toggle archived visibility", Tone::Highlight, Emph::Normal))
        },
        Some(TreeNode::ArchivedSession(_, ai)) => {
            if *ai < store.archived_sessions.len() {
                archived_panel_lines(&store.archived_sessions[*ai], relative)
            } else {
                let out: Vec<Piece> = Vec::new();
                assert(pieces_view(out@) =~= Seq::<(Seq<char>, Tone, Emph)>::empty());
                out
            }
        },
        None => {
            let mut out: Vec<Piece> = Vec::new();
            push_piece(&mut out, lit("No selection", Tone::Dim, Emph::Normal));
            assert(pieces_view(out@) =~= seq![ln("No selection"@, Tone::Dim)]);
            out
        },
    }
}

/// The panel shown in place of a terminal while no tab is open: what the
/// selected row is, what Enter does there, and a key reminder. `relative` is
/// the selected session's last activity as relative time.
pub fn placeholder_lines(st: &AppState, relative: &str) -> (r: Vec<Piece>)
    requires
        placeholder_ok(st.store),
    ensures
        pieces_view(r@) == placeholder_body(st.store, st.env, relative@) + placeholder_footer(st.keybinds),
{
    let mut out = placeholder_body_lines(st, relative);
    placeholder_footer_lines(&st.keybinds, &mut out);
    out
}

// ───────────────────────── the tab bar ─────────────────────────

/// The pieces of a tab-bar entry with whether each is drawn on the focused
/// tab's background.
pub open spec fn bar_view(ps: Seq<(Piece, bool)>) -> Seq<(Seq<char>, Tone, Emph, bool)> {
    ps.map_values(|x: (Piece, bool)| (x.0.text@, x.0.tone, x.0.emph, x.1))
}

/// One tab's entry in the bar: its agent, its title cut to `max_title`
/// bytes and a mark of its state (a dot while running, a tick when done).
/// The focused tab is bold on a raised background between two edges; the
/// others are dim and followed by a space.
pub open spec fn tab_entry(t: ActiveTab, done: bool, focused: bool, max_title: nat) -> Seq<(Seq<char>, Tone, Emph, bool)> {
    let title = truncate_title_spec(t.title@, max_title);
    let mark = if done { "\u{2714}"@ } else { "\u{25cf}"@ };
    let tone = if done { Tone::Done } else { Tone::Running };
    if focused {
        seq![
            ("\u{258c}"@, Tone::TabFill, Emph::Normal, true),
            (agent_label_spec(t.agent) + " "@, Tone::AgentColor(t.agent), Emph::Bold, true),
            (title + " "@, Tone::Text, Emph::Bold, true),
            (mark, tone, Emph::Normal, true),
            ("\u{2590}"@, Tone::TabFill, Emph::Normal, true),
        ]
    } else {
        seq![
            (" "@ + agent_label_spec(t.agent) + " "@, Tone::Dim, Emph::Normal, false),
            (title + " "@, Tone::Dim, Emph::Normal, false),
            (mark + " "@, tone, Emph::Normal, false),
            (" "@, Tone::Plain, Emph::Normal, false),
        ]
    }
}

/// The entries of the first `k` tabs.
pub open spec fn bar_upto(tabs: Seq<ActiveTab>, done: Seq<bool>, active: Option<usize>, max_title: nat, k: nat) -> Seq<(Seq<char>, Tone, Emph, bool)>
    decreases k,
{
    if k == 0 {
        Seq::empty()
    } else {
        let i = (k - 1) as int;
        bar_upto(tabs, done, active, max_title, (k - 1) as nat) + tab_entry(tabs[i], done[i], active == Some(i as usize), max_title)
    }
}

/// The width each tab's title gets in a bar `width` columns wide shared by
/// `n` tabs: an equal share less six columns for the other parts.
pub open spec fn bar_title_width(width: nat, n: nat) -> nat {
    if n == 0 || width / n < 6 { 0 } else { (width / n - 6) as nat }
}

fn push_bar(out: &mut Vec<(Piece, bool)>, p: Piece, raised: bool)
    ensures
        bar_view(final(out)@) == bar_view(old(out)@).push((p.text@, p.tone, p.emph, raised)),
{
    let ghost before = out@;
    let ghost v = (p.text@, p.tone, p.emph, raised);
    out.push((p, raised));
    assert(bar_view(out@) =~= bar_view(before).push(v));
}

fn push_tab_entry(out: &mut Vec<(Piece, bool)>, t: &ActiveTab, done: bool, focused: bool, max_title: usize)
    ensures
        bar_view(final(out)@) == bar_view(old(out)@) + tab_entry(*t, done, focused, max_title as nat),
{
    let ghost start = bar_view(out@);
    let title = truncate_title(t.title.as_str(), max_title);
    let mut tv = chars_of(title.as_str());
    push_str(&mut tv, " ");
    let mark: &str = if done { "\u{2714}" } else { "\u{25cf}" };
    let tone = if done { Tone::Done } else { Tone::Running };
    if focused {
        push_bar(out, lit("\u{258c}", Tone::TabFill, Emph::Normal), true);
        let mut a = chars_of(t.agent.label());
        push_str(&mut a, " ");
        push_bar(out, piece(&a, Tone::AgentColor(t.agent), Emph::Bold), true);
        push_bar(out, piece(&tv, Tone::Text, Emph::Bold), true);
        push_bar(out, lit(mark, tone, Emph::Normal), true);
        push_bar(out, lit("\u{2590}", Tone::TabFill, Emph::Normal), true);
    } else {
        let mut a: Vec<char> = Vec::new();
        push_str(&mut a, " ");
        push_str(&mut a, t.agent.label());
        push_str(&mut a, " ");
        push_bar(out, piece(&a, Tone::Dim, Emph::Normal), false);
        push_bar(out, piece(&tv, Tone::Dim, Emph::Normal), false);
        let mut m = chars_of(mark);
        push_str(&mut m, " ");
        push_bar(out, piece(&m, tone, Emph::Normal), false);
        push_bar(out, lit(" ", Tone::Plain, Emph::Normal), false);
    }
    assert(bar_view(out@) =~= start + tab_entry(*t, done, focused, max_title as nat));
}

/// The tab bar over `width` columns: one entry per tab (`done[i]` when tab
/// `i` has finished), the focused tab `active` raised; nothing without tabs.
pub fn tab_bar(tabs: &Vec<ActiveTab>, done: &Vec<bool>, active: Option<usize>, width: usize) -> (r: Vec<(Piece, bool)>)
    requires
        done@.len() == tabs@.len(),
    ensures
        bar_view(r@) == bar_upto(tabs@, done@, active, bar_title_width(width as nat, tabs@.len()), tabs@.len()),
{
    let mut out: Vec<(Piece, bool)> = Vec::new();
    let n = tabs.len();
    if n == 0 {
        assert(bar_view(out@) =~= Seq::<(Seq<char>, Tone, Emph, bool)>::empty());
        return out;
    }
    let share = width / n;
    let max_title: usize = if share < 6 { 0 } else { share - 6 };
    assert(max_title as nat == bar_title_width(width as nat, n as nat));
    let mut i: usize = 0;
    while i < n
        invariant
            n == tabs@.len(),
            done@.len() == n,
            i <= n,
            max_title as nat == bar_title_width(width as nat, n as nat),
            bar_view(out@) == bar_upto(tabs@, done@, active, max_title as nat, i as nat),
        decreases n - i,
    {
        let focused = match active { Some(a) => a == i, None => false };
        push_tab_entry(&mut out, &tabs[i], done[i], focused, max_title);
        i = i + 1;
    }
    out
}

// ───────────────────────── the status bar ─────────────────────────

/// The left of the status bar: the status message, then the budget alert
/// (while one is raised), shown as an alarm on the flashing beats.
pub open spec fn status_left_spec(status: Seq<char>, alert: Option<Seq<char>>, flash: bool) -> Seq<(Seq<char>, Tone, Emph)> {
    seq![(status, Tone::StatusText, Emph::Normal)]
        + match alert {
            Some(m) => seq![(" "@ + m + " "@, if flash { Tone::Alarm } else { Tone::Error }, if flash { Emph::Bold } else { Emph::Normal })],
            None => Seq::empty(),
        }
}

/// The left of the status bar for this status message (empty once it has
/// expired) and budget alert, `flash` on the beats the alert is lit.
pub fn status_left(status: &str, alert: Option<&str>, flash: bool) -> (r: Vec<Piece>)
    ensures
        pieces_view(r@) == status_left_spec(status@, match alert { Some(m) => Some(m@), None => None }, flash),
{
    let mut out: Vec<Piece> = Vec::new();
    push_piece(&mut out, lit(status, Tone::StatusText, Emph::Normal));
    match alert {
        Some(m) => {
            let mut v: Vec<char> = Vec::new();
            push_str(&mut v, " ");
            push_str(&mut v, m);
            push_str(&mut v, " ");
            let tone = if flash { Tone::Alarm } else { Tone::Error };
            let emph = if flash { Emph::Bold } else { Emph::Normal };
            push_piece(&mut out, piece(&v, tone, emph));
        },
        None => {},
    }
    assert(pieces_view(out@) =~= status_left_spec(status@, match alert { Some(m) => Some(m@), None => None }, flash));
    out
}

/// The label of the focused pane.
pub open spec fn focus_label(f: Focus) -> Seq<char> {
    match f {
        Focus::Sidebar => " \u{25c2} SIDEBAR "@,
        Focus::Chat => " CHAT \u{25b8} "@,
    }
}

/// The right of the status bar: the running chain's step (`step/total`,
/// counting from one) and the focused pane.
pub open spec fn status_right_spec(chain: Option<(nat, nat)>, focus: Focus) -> Seq<(Seq<char>, Tone, Emph)> {
    (match chain {
        Some((step, total)) => seq![(" "@ + decimal(step + 1) + "/"@ + decimal(total) + " "@, Tone::AgentColor(Agent::Omp), Emph::Normal)],
        None => Seq::empty(),
    })
        + seq![(focus_label(focus), Tone::Badge, Emph::Bold)]
}

/// The step a chain is at and its number of steps.
pub open spec fn chain_progress(c: Option<ActiveChain>) -> Option<(nat, nat)> {
    match c {
        Some(c) => Some((c.current_step as nat, c.total_steps as nat)),
        None => None,
    }
}

/// The right of the status bar.
pub fn status_right(chain: &Option<ActiveChain>, focus: Focus) -> (r: Vec<Piece>)
    requires
        chain matches Some(c) ==> c.current_step < usize::MAX,
    ensures
        pieces_view(r@) == status_right_spec(chain_progress(*chain), focus),
{
    let mut out: Vec<Piece> = Vec::new();
    match chain {
        Some(c) => {
            let mut v: Vec<char> = Vec::new();
            push_str(&mut v, " ");
            push_decimal(&mut v, (c.current_step + 1) as u64);
            push_str(&mut v, "/");
            push_decimal(&mut v, c.total_steps as u64);
            push_str(&mut v, " ");
            push_piece(&mut out, piece(&v, Tone::AgentColor(Agent::Omp), Emph::Normal));
        },
        None => {},
    }
    let label = match focus {
        Focus::Sidebar => " \u{25c2} SIDEBAR ",
        Focus::Chat => " CHAT \u{25b8} ",
    };
    push_piece(&mut out, lit(label, Tone::Badge, Emph::Bold));
    assert(pieces_view(out@) =~= status_right_spec(chain_progress(*chain), focus));
    out
}

// ───────────────────────── the activity statistics ─────────────────────────

/// `n` spaces.
pub open spec fn spaces(n: nat) -> Seq<char> {
    Seq::new(n, |i: int| ' ')
}

/// `s` followed by spaces up to `w` characters.
pub open spec fn pad_right(s: Seq<char>, w: nat) -> Seq<char> {
    if s.len() >= w { s } else { s + spaces((w - s.len()) as nat) }
}

/// `s` preceded by spaces up to `w` characters.
pub open spec fn pad_left(s: Seq<char>, w: nat) -> Seq<char> {
    if s.len() >= w { s } else { spaces((w - s.len()) as nat) + s }
}

fn push_spaces(v: &mut Vec<char>, n: usize)
    ensures
        final(v)@ == old(v)@ + spaces(n as nat),
{
    let ghost start = v@;
    let mut i: usize = 0;
    while i < n
        invariant
            i <= n,
            v@ == start + spaces(i as nat),
        decreases n - i,
    {
        v.push(' ');
        i = i + 1;
        assert(v@ =~= start + spaces(i as nat));
    }
}

fn push_pad_right(v: &mut Vec<char>, s: &Vec<char>, w: usize)
    ensures
        final(v)@ == old(v)@ + pad_right(s@, w as nat),
{
    let ghost start = v@;
    let mut i: usize = 0;
    while i < s.len()
        invariant
            i <= s.len(),
            v@ == start + s@.take(i as int),
        decreases s.len() - i,
    {
        v.push(s[i]);
        i = i + 1;
        assert(v@ =~= start + s@.take(i as int));
    }
    assert(s@.take(s@.len() as int) =~= s@);
    if s.len() < w {
        push_spaces(v, w - s.len());
        assert(v@ =~= start + (s@ + spaces((w - s.len()) as nat)));
    }
}

fn push_pad_left(v: &mut Vec<char>, s: &Vec<char>, w: usize)
    ensures
        final(v)@ == old(v)@ + pad_left(s@, w as nat),
{
    let ghost start = v@;
    if s.len() < w {
        push_spaces(v, w - s.len());
    }
    let ghost mid = v@;
    let mut i: usize = 0;
    while i < s.len()
        invariant
            i <= s.len(),
            v@ == mid + s@.take(i as int),
        decreases s.len() - i,
    {
        v.push(s[i]);
        i = i + 1;
        assert(v@ =~= mid + s@.take(i as int));
    }
    assert(s@.take(s@.len() as int) =~= s@);
    assert(v@ =~= start + pad_left(s@, w as nat));
}

/// The sessions counted over all agents.
pub open spec fn total_of(ss: Seq<AgentStats>) -> nat
    decreases ss.len(),
{
    if ss.len() == 0 { 0 } else { total_of(ss.drop_last()) + ss.last().total_sessions as nat }
}

/// The running tabs counted over all agents.
pub open spec fn active_of(ss: Seq<AgentStats>) -> nat
    decreases ss.len(),
{
    if ss.len() == 0 { 0 } else { active_of(ss.drop_last()) + ss.last().active_sessions as nat }
}

proof fn lemma_sums_grow(ss: Seq<AgentStats>, i: int)
    requires
        0 <= i <= ss.len(),
    ensures
        total_of(ss.take(i)) <= total_of(ss),
        active_of(ss.take(i)) <= active_of(ss),
    decreases ss.len() - i,
{
    if i < ss.len() {
        lemma_sums_grow(ss, i + 1);
        assert(ss.take(i + 1).drop_last() =~= ss.take(i));
    } else {
        assert(ss.take(i) =~= ss);
    }
}

/// An agent's line in the table: its name, sessions, running tabs (green
/// when any) and finished tabs, in columns.
pub open spec fn stats_row(s: AgentStats) -> Seq<(Seq<char>, Tone, Emph)> {
    seq![
        (" "@ + pad_right(agent_label_spec(s.agent), 16) + " "@, Tone::AgentColor(s.agent), Emph::Normal),
        (pad_left(decimal(s.total_sessions as nat), 3) + spaces(8), Tone::Text, Emph::Normal),
        (pad_left(decimal(s.active_sessions as nat), 2) + spaces(7), if s.active_sessions > 0 { Tone::Done } else { Tone::Dim }, Emph::Normal),
        (pad_left(decimal(s.completed_sessions as nat), 2), Tone::Dim, Emph::Normal),
    ]
}

/// The table lines of the agents with sessions or running tabs.
pub open spec fn stats_rows(ss: Seq<AgentStats>) -> Seq<Seq<(Seq<char>, Tone, Emph)>>
    decreases ss.len(),
{
    if ss.len() == 0 {
        Seq::empty()
    } else {
        let s = ss.last();
        stats_rows(ss.drop_last()) + (if s.total_sessions == 0 && s.active_sessions == 0 { Seq::empty() } else { seq![stats_row(s)] })
    }
}

/// The lines as (text, tone, emphasis) triples.
pub open spec fn lines_view(ls: Seq<Vec<Piece>>) -> Seq<Seq<(Seq<char>, Tone, Emph)>> {
    ls.map_values(|l: Vec<Piece>| pieces_view(l@))
}

/// The rule under the table's heading.
pub const RULE: &'static str = " \u{2500}\u{2500}\u{2500}\u{2500}\u{2500}\u{2500}\u{2500}\u{2500}\u{2500}\u{2500}\u{2500}\u{2500}\u{2500}\u{2500}\u{2500}\u{2500}\u{2500}\u{2500}\u{2500}\u{2500}\u{2500}\u{2500}\u{2500}\u{2500}\u{2500}\u{2500}\u{2500}\u{2500}\u{2500}\u{2500}\u{2500}\u{2500}\u{2500}\u{2500}\u{2500}\u{2500}\u{2500}\u{2500}\u{2500}\u{2500}\u{2500}";

/// The activity popup: the totals, a table of the agents in use, and the
/// numbers of workspaces and tabs. A blank line has no pieces.
pub open spec fn stats_popup_spec(ss: Seq<AgentStats>, workspaces: nat, tabs: nat) -> Seq<Seq<(Seq<char>, Tone, Emph)>> {
    seq![
        seq![
            (" Total Sessions: "@, Tone::Muted, Emph::Normal),
            (decimal(total_of(ss)), Tone::Text, Emph::Bold),
            ("   Active: "@, Tone::Muted, Emph::Normal),
            (decimal(active_of(ss)), Tone::Done, Emph::Bold),
        ],
        Seq::empty(),
        seq![(" Agent            Sessions   Active   Done"@, Tone::Dim, Emph::Normal)],
        seq![(RULE@, Tone::Dim, Emph::Normal)],
    ]
        + stats_rows(ss)
        + seq![
            Seq::empty(),
            seq![(" Workspaces: "@ + decimal(workspaces) + "   Tabs: "@ + decimal(tabs), Tone::Dim, Emph::Normal)],
        ]
}

fn no_pieces() -> (r: Vec<Piece>)
    ensures
        pieces_view(r@) == Seq::<(Seq<char>, Tone, Emph)>::empty(),
{
    let r: Vec<Piece> = Vec::new();
    assert(pieces_view(r@) =~= Seq::<(Seq<char>, Tone, Emph)>::empty());
    r
}

fn push_line(ls: &mut Vec<Vec<Piece>>, l: Vec<Piece>)
    ensures
        lines_view(final(ls)@) == lines_view(old(ls)@).push(pieces_view(l@)),
{
    let ghost before = ls@;
    let ghost lv = pieces_view(l@);
    ls.push(l);
    assert(lines_view(ls@) =~= lines_view(before).push(lv));
}

fn stats_row_pieces(s: &AgentStats) -> (r: Vec<Piece>)
    ensures
        pieces_view(r@) == stats_row(*s),
{
    let mut out: Vec<Piece> = Vec::new();
    let mut a: Vec<char> = Vec::new();
    push_str(&mut a, " ");
    let label = chars_of(s.agent.label());
    push_pad_right(&mut a, &label, 16);
    push_str(&mut a, " ");
    push_piece(&mut out, piece(&a, Tone::AgentColor(s.agent), Emph::Normal));
    let mut b: Vec<char> = Vec::new();
    let total = crate::text::decimal_chars(s.total_sessions as u64);
    push_pad_left(&mut b, &total, 3);
    push_spaces(&mut b, 8);
    push_piece(&mut out, piece(&b, Tone::Text, Emph::Normal));
    let mut c: Vec<char> = Vec::new();
    let active = crate::text::decimal_chars(s.active_sessions as u64);
    push_pad_left(&mut c, &active, 2);
    push_spaces(&mut c, 7);
    push_piece(&mut out, piece(&c, if s.active_sessions > 0 { Tone::Done } else { Tone::Dim }, Emph::Normal));
    let mut d: Vec<char> = Vec::new();
    let done = crate::text::decimal_chars(s.completed_sessions as u64);
    push_pad_left(&mut d, &done, 2);
    push_piece(&mut out, piece(&d, Tone::Dim, Emph::Normal));
    assert(pieces_view(out@) =~= stats_row(*s));
    out
}

/// The lines of the activity popup for these per-agent statistics, with
/// `workspaces` workspaces and `tabs` open tabs.
pub fn stats_popup(stats: &Vec<AgentStats>, workspaces: usize, tabs: usize) -> (r: Vec<Vec<Piece>>)
    requires
        total_of(stats@) <= usize::MAX,
        active_of(stats@) <= usize::MAX,
    ensures
        lines_view(r@) == stats_popup_spec(stats@, workspaces as nat, tabs as nat),
{
    let mut total: usize = 0;
    let mut active: usize = 0;
    let mut i: usize = 0;
    while i < stats.len()
        invariant
            i <= stats@.len(),
            total_of(stats@) <= usize::MAX,
            active_of(stats@) <= usize::MAX,
            total as nat == total_of(stats@.take(i as int)),
            active as nat == active_of(stats@.take(i as int)),
        decreases stats@.len() - i,
    {
        assert(stats@.take(i as int + 1).drop_last() =~= stats@.take(i as int));
        proof { lemma_sums_grow(stats@, i as int + 1); }
        total = total + stats[i].total_sessions;
        active = active + stats[i].active_sessions;
        i = i + 1;
    }
    assert(stats@.take(i as int) =~= stats@);
    let mut out: Vec<Vec<Piece>> = Vec::new();
    let mut head: Vec<Piece> = Vec::new();
    push_piece(&mut head, lit(" Total Sessions: ", Tone::Muted, Emph::Normal));
    let t = crate::text::decimal_chars(total as u64);
    push_piece(&mut head, piece(&t, Tone::Text, Emph::Bold));
    push_piece(&mut head, lit("   Active: ", Tone::Muted, Emph::Normal));
    let a = crate::text::decimal_chars(active as u64);
    push_piece(&mut head, piece(&a, Tone::Done, Emph::Bold));
    push_line(&mut out, head);
    push_line(&mut out, no_pieces());
    let mut h: Vec<Piece> = Vec::new();
    push_piece(&mut h, lit(" Agent            Sessions   Active   Done", Tone::Dim, Emph::Normal));
    push_line(&mut out, h);
    let mut rule: Vec<Piece> = Vec::new();
    push_piece(&mut rule, lit(RULE, Tone::Dim, Emph::Normal));
    push_line(&mut out, rule);
    let ghost top = lines_view(out@);
    proof {
        let spec = stats_popup_spec(stats@, workspaces as nat, tabs as nat);
        assert forall|k: int| 0 <= k < 4 implies top[k] =~= spec[k] by {}
        assert(top =~= spec.take(4));
    }
    let mut j: usize = 0;
    while j < stats.len()
        invariant
            j <= stats@.len(),
            lines_view(out@) == top + stats_rows(stats@.take(j as int)),
        decreases stats@.len() - j,
    {
        assert(stats@.take(j as int + 1).drop_last() =~= stats@.take(j as int));
        let s = &stats[j];
        if !(s.total_sessions == 0 && s.active_sessions == 0) {
            push_line(&mut out, stats_row_pieces(s));
        }
        j = j + 1;
        assert(lines_view(out@) =~= top + stats_rows(stats@.take(j as int)));
    }
    assert(stats@.take(j as int) =~= stats@);
    push_line(&mut out, no_pieces());
    let mut f: Vec<char> = Vec::new();
    push_str(&mut f, " Workspaces: ");
    push_decimal(&mut f, workspaces as u64);
    push_str(&mut f, "   Tabs: ");
    push_decimal(&mut f, tabs as u64);
    let mut foot = no_pieces();
    push_piece(&mut foot, piece(&f, Tone::Dim, Emph::Normal));
    assert(pieces_view(foot@) =~= seq![(f@, Tone::Dim, Emph::Normal)]);
    push_line(&mut out, foot);
    proof {
        let spec = stats_popup_spec(stats@, workspaces as nat, tabs as nat);
        let foot_view = seq![(" Workspaces: "@ + decimal(workspaces as nat) + "   Tabs: "@ + decimal(tabs as nat), Tone::Dim, Emph::Normal)];
        assert(lines_view(out@) =~= top + stats_rows(stats@) + seq![Seq::empty(), foot_view]);
        assert(spec =~= spec.take(4) + stats_rows(stats@) + seq![Seq::empty(), foot_view]);
    }
    out
}

// ───────────────────────── the key binding reference ─────────────────────────

/// The fixed part of the key reference: the keys that are not configurable,
/// by section.
pub open spec fn fixed_keys() -> Seq<(Seq<char>, Tone, Emph)> {
    seq![
        (Seq::<char>::empty(), Tone::Plain, Emph::Normal),
        ("  Navigation"@, Tone::Heading, Emph::Bold),
        ("  Tab              Sidebar \u{2194} Chat"@, Tone::Plain, Emph::Normal),
        (Seq::<char>::empty(), Tone::Plain, Emph::Normal),
        ("  Sidebar Extra"@, Tone::Heading, Emph::Bold),
        ("  c/x/o            Quick select agent (in agent picker)"@, Tone::Plain, Emph::Normal),
        ("  Space            Mark/unmark session"@, Tone::Plain, Emph::Normal),
        ("  s                Cycle sort mode"@, Tone::Plain, Emph::Normal),
        ("  S                Semantic search (BM25)"@, Tone::Plain, Emph::Normal),
        ("  o                Open workspace directory"@, Tone::Plain, Emph::Normal),
        ("  !                Pin/unpin session"@, Tone::Plain, Emph::Normal),
        ("  p                Template select"@, Tone::Plain, Emph::Normal),
        ("  Alt+Shift+P      Plugin list"@, Tone::Plain, Emph::Normal),
        ("  Alt+Shift+A      Automation select"@, Tone::Plain, Emph::Normal),
        ("  B                Git branch"@, Tone::Plain, Emph::Normal),
        ("  Alt+Shift+G      Toggle archived sessions"@, Tone::Plain, Emph::Normal),
        (Seq::<char>::empty(), Tone::Plain, Emph::Normal),
        ("  Session Preview"@, Tone::Heading, Emph::Bold),
        ("  s                Toggle summary view"@, Tone::Plain, Emph::Normal),
        ("  b                Rollback to snapshot"@, Tone::Plain, Emph::Normal),
        ("  k                Toggle knowledge view"@, Tone::Plain, Emph::Normal),
        ("  c                Clear knowledge / copy"@, Tone::Plain, Emph::Normal),
        (Seq::<char>::empty(), Tone::Plain, Emph::Normal),
        ("  Chat / PTY"@, Tone::Heading, Emph::Bold),
        ("  F12              Toggle Amux \u{2194} Passthrough mode"@, Tone::Plain, Emph::Normal),
        ("    Amux (command)  \u{2014} letters are actions (b/f/t/s/e/g/w/r/x/y)"@, Tone::Dim, Emph::Normal),
        ("    Passthrough     \u{2014} all keys forwarded to PTY (normal typing)"@, Tone::Dim, Emph::Normal),
        ("  Ctrl+Q           Kill current session"@, Tone::Plain, Emph::Normal),
        ("  Ctrl+Y           Copy session title"@, Tone::Plain, Emph::Normal),
        ("  Ctrl+J/K         Switch active PTY tab"@, Tone::Plain, Emph::Normal),
        ("  Ctrl+Shift+J/K   Reorder PTY tabs"@, Tone::Plain, Emph::Normal),
        (Seq::<char>::empty(), Tone::Plain, Emph::Normal),
        ("  Amux Mode Keys"@, Tone::Heading, Emph::Bold),
        ("  b                Scrollback page up"@, Tone::Plain, Emph::Normal),
        ("  f                Scrollback search"@, Tone::Plain, Emph::Normal),
        ("  t                Token usage"@, Tone::Plain, Emph::Normal),
        ("  s                Activity stats"@, Tone::Plain, Emph::Normal),
        ("  e                Chain select"@, Tone::Plain, Emph::Normal),
        ("  g                Session timeline"@, Tone::Plain, Emph::Normal),
        ("  w                Agent recommendations"@, Tone::Plain, Emph::Normal),
        ("  r                Remote sessions"@, Tone::Plain, Emph::Normal),
        ("  x                Diff view"@, Tone::Plain, Emph::Normal),
        ("  y                Copy screen (when scrolled)"@, Tone::Plain, Emph::Normal),
        ("  PgUp/PgDn        Scroll PTY output"@, Tone::Plain, Emph::Normal),
        ("  Home/End         Scroll to top/bottom"@, Tone::Plain, Emph::Normal),
        ("  (Ctrl/Alt/Shift modified keys still forward to PTY)"@, Tone::Dim, Emph::Normal)
    ]
}

/// The configurable bindings, one per line.
pub open spec fn binding_lines(kb: Keybinds) -> Seq<(Seq<char>, Tone, Emph)> {
    bind_list(kb).map_values(|e: (Seq<char>, KeyBind)| ln("  "@ + display_line(e.0, e.1), Tone::Plain))
}

/// The conflicting bindings, when there are any.
pub open spec fn conflict_lines(kb: Keybinds) -> Seq<(Seq<char>, Tone, Emph)> {
    let c = conflicts_spec(kb);
    if c.len() == 0 {
        Seq::empty()
    } else {
        seq![ln(Seq::empty(), Tone::Plain), ln("  \u{26a0} Conflicts:"@, Tone::Error)]
            + c.map_values(|p: (Seq<char>, Seq<char>)| ln("    "@ + p.0 + " <-> "@ + p.1, Tone::Plain))
    }
}

/// The key reference: the configurable bindings, the fixed keys, any
/// conflicts among the bindings, and how to move in the view.
pub open spec fn keybind_view_spec(kb: Keybinds) -> Seq<(Seq<char>, Tone, Emph)> {
    seq![
        ("  Configurable (edit config.json to customize)"@, Tone::Heading, Emph::Bold),
        ln(Seq::empty(), Tone::Plain),
    ]
        + binding_lines(kb)
        + fixed_keys()
        + conflict_lines(kb)
        + seq![
            ln(Seq::empty(), Tone::Plain),
            ln("  \u{2191}/\u{2193} or j/k scroll \u{b7} Alt+h/Alt+l cycle panels \u{b7} Esc close"@, Tone::Dim),
        ]
}

fn push_fixed_keys(out: &mut Vec<Piece>)
    ensures
        pieces_view(final(out)@) == pieces_view(old(out)@) + fixed_keys(),
{
    let ghost start = pieces_view(out@);
    push_piece(out, blank());
    push_piece(out, lit("  Navigation", Tone::Heading, Emph::Bold));
    push_piece(out, lit("  Tab              Sidebar \u{2194} Chat", Tone::Plain, Emph::Normal));
    push_piece(out, blank());
    push_piece(out, lit("  Sidebar Extra", Tone::Heading, Emph::Bold));
    push_piece(out, lit("  c/x/o            Quick select agent (in agent picker)", Tone::Plain, Emph::Normal));
    push_piece(out, lit("  Space            Mark/unmark session", Tone::Plain, Emph::Normal));
    push_piece(out, lit("  s                Cycle sort mode", Tone::Plain, Emph::Normal));
    push_piece(out, lit("  S                Semantic search (BM25)", Tone::Plain, Emph::Normal));
    push_piece(out, lit("  o                Open workspace directory", Tone::Plain, Emph::Normal));
    push_piece(out, lit("  !                Pin/unpin session", Tone::Plain, Emph::Normal));
    push_piece(out, lit("  p                Template select", Tone::Plain, Emph::Normal));
    push_piece(out, lit("  Alt+Shift+P      Plugin list", Tone::Plain, Emph::Normal));
    push_piece(out, lit("  Alt+Shift+A      Automation select", Tone::Plain, Emph::Normal));
    push_piece(out, lit("  B                Git branch", Tone::Plain, Emph::Normal));
    push_piece(out, lit("  Alt+Shift+G      Toggle archived sessions", Tone::Plain, Emph::Normal));
    push_piece(out, blank());
    push_piece(out, lit("  Session Preview", Tone::Heading, Emph::Bold));
    push_piece(out, lit("  s                Toggle summary view", Tone::Plain, Emph::Normal));
    push_piece(out, lit("  b                Rollback to snapshot", Tone::Plain, Emph::Normal));
    push_piece(out, lit("  k                Toggle knowledge view", Tone::Plain, Emph::Normal));
    push_piece(out, lit("  c                Clear knowledge / copy", Tone::Plain, Emph::Normal));
    push_piece(out, blank());
    push_piece(out, lit("  Chat / PTY", Tone::Heading, Emph::Bold));
    push_piece(out, lit("  F12              Toggle Amux \u{2194} Passthrough mode", Tone::Plain, Emph::Normal));
    push_piece(out, lit("    Amux (command)  \u{2014} letters are actions (b/f/t/s/e/g/w/r/x/y)", Tone::Dim, Emph::Normal));
    push_piece(out, lit("    Passthrough     \u{2014} all keys forwarded to PTY (normal typing)", Tone::Dim, Emph::Normal));
    push_piece(out, lit("  Ctrl+Q           Kill current session", Tone::Plain, Emph::Normal));
    push_piece(out, lit("  Ctrl+Y           Copy session title", Tone::Plain, Emph::Normal));
    push_piece(out, lit("  Ctrl+J/K         Switch active PTY tab", Tone::Plain, Emph::Normal));
    push_piece(out, lit("  Ctrl+Shift+J/K   Reorder PTY tabs", Tone::Plain, Emph::Normal));
    push_piece(out, blank());
    push_piece(out, lit("  Amux Mode Keys", Tone::Heading, Emph::Bold));
    push_piece(out, lit("  b                Scrollback page up", Tone::Plain, Emph::Normal));
    push_piece(out, lit("  f                Scrollback search", Tone::Plain, Emph::Normal));
    push_piece(out, lit("  t                Token usage", Tone::Plain, Emph::Normal));
    push_piece(out, lit("  s                Activity stats", Tone::Plain, Emph::Normal));
    push_piece(out, lit("  e                Chain select", Tone::Plain, Emph::Normal));
    push_piece(out, lit("  g                Session timeline", Tone::Plain, Emph::Normal));
    push_piece(out, lit("  w                Agent recommendations", Tone::Plain, Emph::Normal));
    push_piece(out, lit("  r                Remote sessions", Tone::Plain, Emph::Normal));
    push_piece(out, lit("  x                Diff view", Tone::Plain, Emph::Normal));
    push_piece(out, lit("  y                Copy screen (when scrolled)", Tone::Plain, Emph::Normal));
    push_piece(out, lit("  PgUp/PgDn        Scroll PTY output", Tone::Plain, Emph::Normal));
    push_piece(out, lit("  Home/End         Scroll to top/bottom", Tone::Plain, Emph::Normal));
    push_piece(out, lit("  (Ctrl/Alt/Shift modified keys still forward to PTY)", Tone::Dim, Emph::Normal));
    assert(pieces_view(out@) =~= start + fixed_keys());
}

/// The lines of the key reference for these bindings.
pub fn keybind_view_lines(kb: &Keybinds) -> (r: Vec<Piece>)
    ensures
        pieces_view(r@) == keybind_view_spec(*kb),
{
    let mut out = no_pieces();
    push_piece(&mut out, lit("  Configurable (edit config.json to customize)", Tone::Heading, Emph::Bold));
    push_piece(&mut out, blank());
    let ghost top = pieces_view(out@);
    let binds = kb.display_lines();
    let mut i: usize = 0;
    while i < binds.len()
        invariant
            i <= binds@.len(),
            binds@.len() == bind_list(*kb).len(),
            forall|k: int| 0 <= k < binds@.len() ==> (#[trigger] binds@[k])@ == display_line(bind_list(*kb)[k].0, bind_list(*kb)[k].1),
            pieces_view(out@) == top + binding_lines(*kb).take(i as int),
        decreases binds@.len() - i,
    {
        let mut v: Vec<char> = Vec::new();
        push_str(&mut v, "  ");
        push_str(&mut v, binds[i].as_str());
        push_piece(&mut out, line_of(&v, Tone::Plain));
        i = i + 1;
        assert(pieces_view(out@) =~= top + binding_lines(*kb).take(i as int));
    }
    assert(binding_lines(*kb).take(i as int) =~= binding_lines(*kb));
    push_fixed_keys(&mut out);
    let ghost mid = pieces_view(out@);
    let conflicts = kb.validate();
    if conflicts.len() > 0 {
        push_piece(&mut out, blank());
        push_piece(&mut out, lit("  \u{26a0} Conflicts:", Tone::Error, Emph::Normal));
        let ghost head = pieces_view(out@);
        let mut j: usize = 0;
        while j < conflicts.len()
            invariant
                j <= conflicts@.len(),
                conflicts@.len() == conflicts_spec(*kb).len(),
                forall|k: int| 0 <= k < conflicts@.len() ==> (#[trigger] conflicts@[k]).0@ == conflicts_spec(*kb)[k].0 && conflicts@[k].1@ == conflicts_spec(*kb)[k].1,
                pieces_view(out@) == head + conflicts_spec(*kb).map_values(|p: (Seq<char>, Seq<char>)| ln("    "@ + p.0 + " <-> "@ + p.1, Tone::Plain)).take(j as int),
            decreases conflicts@.len() - j,
        {
            let (a, b) = conflicts[j];
            let mut v: Vec<char> = Vec::new();
            push_str(&mut v, "    ");
            push_str(&mut v, a);
            push_str(&mut v, " <-> ");
            push_str(&mut v, b);
            push_piece(&mut out, line_of(&v, Tone::Plain));
            j = j + 1;
            assert(pieces_view(out@) =~= head + conflicts_spec(*kb).map_values(|p: (Seq<char>, Seq<char>)| ln("    "@ + p.0 + " <-> "@ + p.1, Tone::Plain)).take(j as int));
        }
        assert(pieces_view(out@) =~= mid + conflict_lines(*kb));
    } else {
        assert(pieces_view(out@) =~= mid + conflict_lines(*kb));
    }
    push_piece(&mut out, blank());
    push_piece(&mut out, lit("  \u{2191}/\u{2193} or j/k scroll \u{b7} Alt+h/Alt+l cycle panels \u{b7} Esc close", Tone::Dim, Emph::Normal));
    assert(pieces_view(out@) =~= keybind_view_spec(*kb));
    out
}

/// The title of the key reference: the last line in view and the number of
/// lines.
pub open spec fn keybind_title_spec(scroll: nat, visible: nat, total: nat) -> Seq<char> {
    " Keybindings ("@ + decimal(scroll + (if visible < total { visible } else { total })) + "/"@ + decimal(total) + ") "@
}

/// The title of the key reference scrolled to line `scroll`, with `visible`
/// of its `total` lines in view.
pub fn keybind_title(scroll: u16, visible: u16, total: u16) -> (r: String)
    ensures
        r@ == keybind_title_spec(scroll as nat, visible as nat, total as nat),
{
    let shown: u64 = scroll as u64 + (if visible < total { visible } else { total }) as u64;
    let mut v: Vec<char> = Vec::new();
    push_str(&mut v, " Keybindings (");
    push_decimal(&mut v, shown);
    push_str(&mut v, "/");
    push_decimal(&mut v, total as u64);
    push_str(&mut v, ") ");
    assert(v@ =~= keybind_title_spec(scroll as nat, visible as nat, total as nat));
    string_from_chars(&v)
}

// ───────────────────────── the settings panel ─────────────────────────

/// The budget's parts: token limits in thousands and the cost limits as
/// the caller wrote them.
pub open spec fn budget_parts(limits: TokenLimits, daily_cost: Option<Seq<char>>, weekly_cost: Option<Seq<char>>) -> Seq<Seq<char>> {
    (match limits.daily_tokens { Some(t) => seq![decimal((t / 1000) as nat) + "k daily tokens"@], None => Seq::empty() })
        + (match daily_cost { Some(c) => seq![c + " daily cost"@], None => Seq::empty() })
        + (match limits.weekly_tokens { Some(t) => seq![decimal((t / 1000) as nat) + "k weekly tokens"@], None => Seq::empty() })
        + (match weekly_cost { Some(c) => seq![c + " weekly cost"@], None => Seq::empty() })
}

/// The budget line of the settings panel: that none is set (and how to set
/// one), or its limits and how to clear them.
pub open spec fn budget_status_spec(set: bool, limits: TokenLimits, daily_cost: Option<Seq<char>>, weekly_cost: Option<Seq<char>>) -> Seq<char> {
    if !set {
        "Budget: not set (b to set default 100k daily)"@
    } else {
        "Budget: "@ + join(budget_parts(limits, daily_cost, weekly_cost), ", "@) + " (b to clear)"@
    }
}

fn push_part(parts: &mut Vec<String>, v: &Vec<char>)
    ensures
        strings_view(final(parts)@) == strings_view(old(parts)@).push(v@),
{
    let ghost before = parts@;
    let s = string_from_chars(v);
    let ghost sv = s@;
    parts.push(s);
    assert(strings_view(parts@) =~= strings_view(before).push(sv));
}

/// The budget line: `set` when a budget is configured, with its token
/// limits and its cost limits already written as money (`$5.50`).
pub fn budget_status_text(set: bool, limits: &TokenLimits, daily_cost: Option<&str>, weekly_cost: Option<&str>) -> (r: String)
    ensures
        r@ == budget_status_spec(set, *limits, opt_view(daily_cost), opt_view(weekly_cost)),
{
    let mut v: Vec<char> = Vec::new();
    if !set {
        push_str(&mut v, "Budget: not set (b to set default 100k daily)");
        return string_from_chars(&v);
    }
    let mut parts: Vec<String> = Vec::new();
    assert(strings_view(parts@) =~= Seq::<Seq<char>>::empty());
    match limits.daily_tokens {
        Some(t) => {
            let mut p: Vec<char> = Vec::new();
            push_decimal(&mut p, t / 1000);
            push_str(&mut p, "k daily tokens");
            push_part(&mut parts, &p);
        },
        None => {},
    }
    let ghost a = strings_view(parts@);
    match daily_cost {
        Some(c) => {
            let mut p = chars_of(c);
            push_str(&mut p, " daily cost");
            push_part(&mut parts, &p);
        },
        None => {},
    }
    let ghost b = strings_view(parts@);
    match limits.weekly_tokens {
        Some(t) => {
            let mut p: Vec<char> = Vec::new();
            push_decimal(&mut p, t / 1000);
            push_str(&mut p, "k weekly tokens");
            push_part(&mut parts, &p);
        },
        None => {},
    }
    let ghost c3 = strings_view(parts@);
    match weekly_cost {
        Some(c) => {
            let mut p = chars_of(c);
            push_str(&mut p, " weekly cost");
            push_part(&mut parts, &p);
        },
        None => {},
    }
    assert(strings_view(parts@) =~= budget_parts(*limits, opt_view(daily_cost), opt_view(weekly_cost)));
    push_str(&mut v, "Budget: ");
    push_joined(&mut v, &parts, ", ");
    push_str(&mut v, " (b to clear)");
    string_from_chars(&v)
}

/// The characters of an optional string slice.
pub open spec fn opt_view(o: Option<&str>) -> Option<Seq<char>> {
    match o { Some(s) => Some(s@), None => None }
}

/// A workspace's line in the settings panel; the last one, which the
/// panel's actions apply to, is marked.
pub open spec fn settings_ws_line(ws: Workspace, last: bool) -> Seq<(Seq<char>, Tone, Emph)> {
    seq![
        (if last { " > "@ } else { "   "@ }, Tone::Highlight, Emph::Normal),
        (ws.name@, Tone::Text, Emph::Normal),
        ("  "@ + match ws.path { Some(p) => p@, None => "virtual"@ }, Tone::Dim, Emph::Normal),
    ]
}

/// The workspace lines of the settings panel.
pub open spec fn settings_ws_lines(wss: Seq<Workspace>, k: nat) -> Seq<Seq<(Seq<char>, Tone, Emph)>>
    decreases k,
{
    if k == 0 {
        Seq::empty()
    } else {
        settings_ws_lines(wss, (k - 1) as nat) + seq![settings_ws_line(wss[k - 1], k - 1 == wss.len() - 1)]
    }
}

/// The actions of the settings panel, each with its key in bold.
pub open spec fn settings_actions() -> Seq<(Seq<char>, Tone, Emph)> {
    seq![
        ("  Actions: "@, Tone::Highlight, Emph::Normal),
        ("a"@, Tone::Text, Emph::Bold),
        ("dd  "@, Tone::Plain, Emph::Normal),
        ("r"@, Tone::Text, Emph::Bold),
        ("ename  "@, Tone::Plain, Emph::Normal),
        ("k"@, Tone::Text, Emph::Bold),
        ("eybinds  "@, Tone::Plain, Emph::Normal),
        ("t"@, Tone::Text, Emph::Bold),
        ("hemes  "@, Tone::Plain, Emph::Normal),
        ("b"@, Tone::Text, Emph::Bold),
        ("udget  "@, Tone::Plain, Emph::Normal),
        ("Esc"@, Tone::Text, Emph::Bold),
        (" close"@, Tone::Plain, Emph::Normal),
    ]
}

/// The settings panel: the workspaces, the actions, and the budget line.
pub open spec fn settings_spec(wss: Seq<Workspace>, budget: Seq<char>) -> Seq<Seq<(Seq<char>, Tone, Emph)>> {
    seq![seq![("  Workspaces"@, Tone::Heading, Emph::Bold)], Seq::empty()]
        + settings_ws_lines(wss, wss.len())
        + seq![
            Seq::empty(),
            settings_actions(),
            Seq::empty(),
            seq![("  "@ + budget + " "@, Tone::Dim, Emph::Normal)],
            seq![("  (targets last workspace in list)"@, Tone::Dim, Emph::Normal)],
        ]
}

fn settings_actions_line() -> (r: Vec<Piece>)
    ensures
        pieces_view(r@) == settings_actions(),
{
    let mut out = no_pieces();
    push_piece(&mut out, lit("  Actions: ", Tone::Highlight, Emph::Normal));
    push_piece(&mut out, lit("a", Tone::Text, Emph::Bold));
    push_piece(&mut out, lit("dd  ", Tone::Plain, Emph::Normal));
    push_piece(&mut out, lit("r", Tone::Text, Emph::Bold));
    push_piece(&mut out, lit("ename  ", Tone::Plain, Emph::Normal));
    push_piece(&mut out, lit("k", Tone::Text, Emph::Bold));
    push_piece(&mut out, lit("eybinds  ", Tone::Plain, Emph::Normal));
    push_piece(&mut out, lit("t", Tone::Text, Emph::Bold));
    push_piece(&mut out, lit("hemes  ", Tone::Plain, Emph::Normal));
    push_piece(&mut out, lit("b", Tone::Text, Emph::Bold));
    push_piece(&mut out, lit("udget  ", Tone::Plain, Emph::Normal));
    push_piece(&mut out, lit("Esc", Tone::Text, Emph::Bold));
    push_piece(&mut out, lit(" close", Tone::Plain, Emph::Normal));
    assert(pieces_view(out@) =~= settings_actions());
    out
}

fn settings_ws_pieces(ws: &Workspace, last: bool) -> (r: Vec<Piece>)
    ensures
        pieces_view(r@) == settings_ws_line(*ws, last),
{
    let mut out = no_pieces();
    push_piece(&mut out, lit(if last { " > " } else { "   " }, Tone::Highlight, Emph::Normal));
    push_piece(&mut out, lit(ws.name.as_str(), Tone::Text, Emph::Normal));
    let mut v: Vec<char> = Vec::new();
    push_str(&mut v, "  ");
    match &ws.path {
        Some(p) => push_str(&mut v, p.as_str()),
        None => push_str(&mut v, "virtual"),
    }
    push_piece(&mut out, piece(&v, Tone::Dim, Emph::Normal));
    assert(pieces_view(out@) =~= settings_ws_line(*ws, last));
    out
}

/// The lines of the settings panel for these workspaces, with `budget` the
/// budget line.
pub fn settings_lines(wss: &Vec<Workspace>, budget: &str) -> (r: Vec<Vec<Piece>>)
    ensures
        lines_view(r@) == settings_spec(wss@, budget@),
{
    let mut out: Vec<Vec<Piece>> = Vec::new();
    let mut h = no_pieces();
    push_piece(&mut h, lit("  Workspaces", Tone::Heading, Emph::Bold));
    push_line(&mut out, h);
    push_line(&mut out, no_pieces());
    let ghost top = lines_view(out@);
    let mut i: usize = 0;
    while i < wss.len()
        invariant
            i <= wss@.len(),
            lines_view(out@) == top + settings_ws_lines(wss@, i as nat),
        decreases wss@.len() - i,
    {
        let last = i + 1 == wss.len();
        push_line(&mut out, settings_ws_pieces(&wss[i], last));
        i = i + 1;
        assert(lines_view(out@) =~= top + settings_ws_lines(wss@, i as nat));
    }
    push_line(&mut out, no_pieces());
    push_line(&mut out, settings_actions_line());
    push_line(&mut out, no_pieces());
    let mut b: Vec<char> = Vec::new();
    push_str(&mut b, "  ");
    push_str(&mut b, budget);
    push_str(&mut b, " ");
    let mut bl = no_pieces();
    push_piece(&mut bl, piece(&b, Tone::Dim, Emph::Normal));
    push_line(&mut out, bl);
    let mut t = no_pieces();
    push_piece(&mut t, lit("  (targets last workspace in list)", Tone::Dim, Emph::Normal));
    push_line(&mut out, t);
    proof {
        let spec = settings_spec(wss@, budget@);
        assert(top =~= seq![seq![("  Workspaces"@, Tone::Heading, Emph::Bold)], Seq::<(Seq<char>, Tone, Emph)>::empty()]);
        assert(lines_view(out@) =~= spec);
    }
    out
}

// ───────────────────────── the help popup ─────────────────────────

/// A help row: the keys padded to fourteen columns, then the action.
pub open spec fn help_row(p: (Seq<char>, Seq<char>)) -> Seq<(Seq<char>, Tone, Emph)> {
    seq![ln("  "@ + pad_right(p.1, 14) + " "@ + p.0, Tone::Plain)]
}

/// The help popup: the sidebar's bindings, the chat, scroll and extra keys,
/// where the full list is, and that any key closes it.
pub open spec fn help_spec(kb: Keybinds) -> Seq<Seq<(Seq<char>, Tone, Emph)>> {
    seq![seq![("  Sidebar Keybindings"@, Tone::Heading, Emph::Bold)], Seq::empty()]
        + help_pairs_spec(kb).map_values(|p: (Seq<char>, Seq<char>)| help_row(p))
        + seq![
            Seq::empty(),
            seq![ln("  Chat: "@, Tone::Dim), ln("Tab=sidebar  Ctrl+J/K=switch  Ctrl+Q=kill"@, Tone::Dim)],
            seq![ln("  Scroll: "@, Tone::Dim), ln("PgUp/Dn  b/f  Home/End"@, Tone::Dim)],
            seq![ln("  Extra: "@, Tone::Dim), ln("s=sort  o=open dir  c/x/g/o=quick-agent"@, Tone::Dim)],
            Seq::empty(),
            seq![ln("  Full list: "@ + bind_display(kb.settings) + " \u{2192} Keybindings"@, Tone::Dim)],
            Seq::empty(),
            seq![ln("  Press any key to close"@, Tone::Highlight)],
        ]
}

fn two_dim(a: &str, b: &str) -> (r: Vec<Piece>)
    ensures
        pieces_view(r@) == seq![ln(a@, Tone::Dim), ln(b@, Tone::Dim)],
{
    let mut out = no_pieces();
    push_piece(&mut out, lit(a, Tone::Dim, Emph::Normal));
    push_piece(&mut out, lit(b, Tone::Dim, Emph::Normal));
    assert(pieces_view(out@) =~= seq![ln(a@, Tone::Dim), ln(b@, Tone::Dim)]);
    out
}

fn one_line(v: &Vec<char>, tone: Tone) -> (r: Vec<Piece>)
    ensures
        pieces_view(r@) == seq![ln(v@, tone)],
{
    let mut out = no_pieces();
    push_piece(&mut out, line_of(v, tone));
    assert(pieces_view(out@) =~= seq![ln(v@, tone)]);
    out
}

/// The lines of the help popup for these bindings.
pub fn help_lines(kb: &Keybinds) -> (r: Vec<Vec<Piece>>)
    ensures
        lines_view(r@) == help_spec(*kb),
{
    let mut out: Vec<Vec<Piece>> = Vec::new();
    let mut h = no_pieces();
    push_piece(&mut h, lit("  Sidebar Keybindings", Tone::Heading, Emph::Bold));
    push_line(&mut out, h);
    push_line(&mut out, no_pieces());
    let ghost top = lines_view(out@);
    let pairs = kb.help_sidebar_pairs();
    let ghost rows = help_pairs_spec(*kb).map_values(|p: (Seq<char>, Seq<char>)| help_row(p));
    let mut i: usize = 0;
    while i < pairs.len()
        invariant
            i <= pairs@.len(),
            pairs@.len() == help_pairs_spec(*kb).len(),
            forall|k: int| 0 <= k < pairs@.len() ==> (#[trigger] pairs@[k]).0@ == help_pairs_spec(*kb)[k].0 && pairs@[k].1@ == help_pairs_spec(*kb)[k].1,
            rows == help_pairs_spec(*kb).map_values(|p: (Seq<char>, Seq<char>)| help_row(p)),
            lines_view(out@) == top + rows.take(i as int),
        decreases pairs@.len() - i,
    {
        let mut v: Vec<char> = Vec::new();
        push_str(&mut v, "  ");
        let key = chars_of(pairs[i].1.as_str());
        push_pad_right(&mut v, &key, 14);
        push_str(&mut v, " ");
        push_str(&mut v, pairs[i].0.as_str());
        push_line(&mut out, one_line(&v, Tone::Plain));
        i = i + 1;
        assert(lines_view(out@) =~= top + rows.take(i as int));
    }
    assert(rows.take(i as int) =~= rows);
    push_line(&mut out, no_pieces());
    push_line(&mut out, two_dim("  Chat: ", "Tab=sidebar  Ctrl+J/K=switch  Ctrl+Q=kill"));
    push_line(&mut out, two_dim("  Scroll: ", "PgUp/Dn  b/f  Home/End"));
    push_line(&mut out, two_dim("  Extra: ", "s=sort  o=open dir  c/x/g/o=quick-agent"));
    push_line(&mut out, no_pieces());
    let mut f: Vec<char> = Vec::new();
    push_str(&mut f, "  Full list: ");
    let settings = kb.settings.display();
    push_str(&mut f, settings.as_str());
    push_str(&mut f, " \u{2192} Keybindings");
    push_line(&mut out, one_line(&f, Tone::Dim));
    push_line(&mut out, no_pieces());
    let close = chars_of("  Press any key to close");
    push_line(&mut out, one_line(&close, Tone::Highlight));
    proof {
        assert(top =~= seq![seq![("  Sidebar Keybindings"@, Tone::Heading, Emph::Bold)], Seq::<(Seq<char>, Tone, Emph)>::empty()]);
        assert(lines_view(out@) =~= help_spec(*kb));
    }
    out
}

// ───────────────────────── comparing two sessions ─────────────────────────

/// Each line with `p` in front.
pub open spec fn prefixed(p: Seq<char>, ls: Seq<Seq<char>>) -> Seq<Seq<char>> {
    ls.map_values(|l: Seq<char>| p + l)
}

/// A session's last message (empty when there is none).
pub open spec fn message_of(s: Session) -> Seq<char> {
    match s.last_message { Some(m) => m@, None => Seq::empty() }
}

/// The comparison of two sessions: the first's title after `<` and the
/// lines of its last message after `-`, then the second's title after `>`
/// and its lines after `+`.
pub open spec fn comparison_spec(a: Session, b: Session) -> Seq<Seq<char>> {
    seq!["< "@ + a.title@] + prefixed("- "@, lines_spec(message_of(a)))
        + seq!["> "@ + b.title@] + prefixed("+ "@, lines_spec(message_of(b)))
}

fn push_prefixed(out: &mut Vec<String>, p: &str, text: &str)
    ensures
        strings_view(final(out)@) == strings_view(old(out)@) + prefixed(p@, lines_spec(text@)),
{
    let ls = split_lines(text);
    let ghost start = strings_view(out@);
    let ghost all = prefixed(p@, lines_spec(text@));
    let mut i: usize = 0;
    while i < ls.len()
        invariant
            i <= ls@.len(),
            ls@.map_values(|l: Vec<char>| l@) == lines_spec(text@),
            all == prefixed(p@, lines_spec(text@)),
            strings_view(out@) == start + all.take(i as int),
        decreases ls@.len() - i,
    {
        let mut v = chars_of(p);
        let ghost lv = ls@[i as int]@;
        assert(lines_spec(text@)[i as int] == lv);
        let mut k: usize = 0;
        let ghost pv = v@;
        while k < ls[i].len()
            invariant
                i < ls@.len(),
                k <= ls@[i as int]@.len(),
                lv == ls@[i as int]@,
                v@ == pv + lv.take(k as int),
            decreases ls@[i as int]@.len() - k,
        {
            v.push(ls[i][k]);
            k = k + 1;
            assert(v@ =~= pv + lv.take(k as int));
        }
        assert(lv.take(k as int) =~= lv);
        push_part(out, &v);
        i = i + 1;
        assert(strings_view(out@) =~= start + all.take(i as int));
    }
    assert(all.take(i as int) =~= all);
}

/// The lines comparing sessions `a` and `b`.
pub fn comparison_lines(a: &Session, b: &Session) -> (r: Vec<String>)
    ensures
        strings_view(r@) == comparison_spec(*a, *b),
{
    let mut out: Vec<String> = Vec::new();
    let mut t: Vec<char> = Vec::new();
    push_str(&mut t, "< ");
    push_str(&mut t, a.title.as_str());
    push_part(&mut out, &t);
    let ma: &str = match &a.last_message { Some(m) => m.as_str(), None => "" };
    proof { reveal_strlit(""); }
    push_prefixed(&mut out, "- ", ma);
    let mut u: Vec<char> = Vec::new();
    push_str(&mut u, "> ");
    push_str(&mut u, b.title.as_str());
    push_part(&mut out, &u);
    let mb: &str = match &b.last_message { Some(m) => m.as_str(), None => "" };
    push_prefixed(&mut out, "+ ", mb);
    assert(strings_view(out@) =~= comparison_spec(*a, *b));
    out
}

// ───────────────────────── the session preview ─────────────────────────

/// One line of a previewed session: who wrote it (`user` for the person)
/// and its text; in a summary, a line of the summary's markdown.
#[derive(Clone, Debug)]
pub struct PreviewEntry {
    pub role: String,
    pub text: String,
}

/// What the preview shows: the session's summary instead of its content,
/// and the workspace's knowledge base over either.
#[derive(Clone, Copy, Debug, PartialEq, Eq, Structural)]
pub struct PreviewView {
    pub summary: bool,
    pub knowledge: bool,
}

/// `t` starts with `p`.
pub open spec fn starts(t: Seq<char>, p: Seq<char>) -> bool {
    p.len() <= t.len() && t.take(p.len() as int) == p
}

/// Every character of `t` is whitespace (`t.trim()` is empty).
pub open spec fn blank_text(t: Seq<char>) -> bool {
    forall|i: int| 0 <= i < t.len() ==> is_whitespace(#[trigger] t[i])
}

/// A summary rendered from markdown: code fences toggle a dim code block
/// (each fence a blank line); outside one, `#`, `##` and `###` headings,
/// `- ` bullets, blank lines and plain text. `code` says whether a block is
/// open.
pub open spec fn markdown_lines(es: Seq<PreviewEntry>, code: bool) -> Seq<Seq<(Seq<char>, Tone, Emph)>>
    decreases es.len(),
{
    if es.len() == 0 {
        Seq::empty()
    } else {
        let t = es[0].text@;
        let rest = es.drop_first();
        if starts(t, "```"@) {
            seq![Seq::empty()] + markdown_lines(rest, !code)
        } else if code {
            seq![seq![ln("  "@ + t, Tone::Dim)]] + markdown_lines(rest, code)
        } else if starts(t, "# "@) {
            seq![seq![("  "@ + t.skip(2), Tone::Heading, Emph::Bold)], Seq::empty()] + markdown_lines(rest, code)
        } else if starts(t, "## "@) {
            seq![seq![("  "@ + t.skip(3), Tone::Highlight, Emph::Bold)], Seq::empty()] + markdown_lines(rest, code)
        } else if starts(t, "### "@) {
            seq![seq![("  "@ + t.skip(4), Tone::Done, Emph::Bold)]] + markdown_lines(rest, code)
        } else if starts(t, "- "@) {
            seq![seq![ln("    \u{2022} "@, Tone::Text), ln(t.skip(2), Tone::Text)]] + markdown_lines(rest, code)
        } else if blank_text(t) {
            seq![Seq::empty()] + markdown_lines(rest, code)
        } else {
            seq![seq![ln("  "@ + t, Tone::Plain)]] + markdown_lines(rest, code)
        }
    }
}

/// The conversation: each entry as `You` (the person) or `Bot` and its
/// text, followed by a blank line.
pub open spec fn content_lines(es: Seq<PreviewEntry>) -> Seq<Seq<(Seq<char>, Tone, Emph)>>
    decreases es.len(),
{
    if es.len() == 0 {
        Seq::empty()
    } else {
        let e = es[0];
        let head = if e.role@ == "user"@ { ("  You "@, Tone::Highlight, Emph::Bold) } else { ("  Bot "@, Tone::Done, Emph::Bold) };
        seq![seq![head, ln(e.text@, Tone::Text)], Seq::empty()] + content_lines(es.drop_first())
    }
}

/// The preview popup: a heading for what it shows, the session's tags, the
/// summary or the conversation (or that there is none), and the keys;
/// `auto` when the summary popped up by itself.
pub open spec fn preview_spec(view: PreviewView, tags: Seq<Seq<char>>, es: Seq<PreviewEntry>, auto: bool) -> Seq<Seq<(Seq<char>, Tone, Emph)>> {
    let heading = if view.knowledge {
        ("  Knowledge Base"@, Tone::Tag, Emph::Bold)
    } else if view.summary {
        ("  Session Summary"@, Tone::Heading, Emph::Bold)
    } else {
        ("  Session Content Preview"@, Tone::Heading, Emph::Bold)
    };
    let tag_lines = if tags.len() > 0 {
        seq![seq![ln("  Tags: "@, Tone::Dim), ln(join(tags, ", "@), Tone::Tag)], Seq::empty()]
    } else {
        Seq::empty()
    };
    let body = if view.summary {
        if es.len() == 0 { seq![seq![ln("  No summary available."@, Tone::Plain)]] } else { markdown_lines(es, false) }
    } else {
        if es.len() == 0 { seq![seq![ln("  (no text content found)"@, Tone::Plain)]] } else { content_lines(es) }
    };
    let keys = if auto {
        "  Press any key to dismiss"@
    } else if view.knowledge {
        "  k=back  c=clear  any key=close"@
    } else if view.summary {
        "  s=content  b=rollback  k=knowledge  any key=close"@
    } else {
        "  s=summary  b=rollback  k=knowledge  any key=close"@
    };
    seq![seq![heading], Seq::empty()] + tag_lines + body + seq![Seq::empty(), seq![ln(keys, Tone::Highlight)]]
}

fn has_prefix(v: &Vec<char>, p: &str) -> (r: bool)
    ensures
        r == starts(v@, p@),
{
    let pv = chars_of(p);
    if pv.len() > v.len() {
        return false;
    }
    let mut i: usize = 0;
    while i < pv.len()
        invariant
            i <= pv@.len(),
            pv@ == p@,
            pv@.len() <= v@.len(),
            v@.take(i as int) == pv@.take(i as int),
        decreases pv@.len() - i,
    {
        if v[i] != pv[i] {
            assert(v@.take(pv@.len() as int)[i as int] != pv@[i as int]);
            return false;
        }
        i = i + 1;
        assert(v@.take(i as int) =~= pv@.take(i as int));
    }
    assert(pv@.take(i as int) =~= pv@);
    true
}

fn all_blank(v: &Vec<char>) -> (r: bool)
    ensures
        r == blank_text(v@),
{
    let mut i: usize = 0;
    while i < v.len()
        invariant
            i <= v@.len(),
            forall|k: int| 0 <= k < i ==> is_whitespace(#[trigger] v@[k]),
        decreases v@.len() - i,
    {
        if !char_is_whitespace(v[i]) {
            return false;
        }
        i = i + 1;
    }
    true
}

fn tail_from(v: &Vec<char>, k: usize) -> (r: Vec<char>)
    requires
        k <= v@.len(),
    ensures
        r@ == v@.skip(k as int),
{
    let mut out: Vec<char> = Vec::new();
    let mut i: usize = k;
    while i < v.len()
        invariant
            k <= i <= v@.len(),
            out@ == v@.subrange(k as int, i as int),
        decreases v@.len() - i,
    {
        out.push(v[i]);
        i = i + 1;
        assert(out@ =~= v@.subrange(k as int, i as int));
    }
    assert(v@.subrange(k as int, i as int) =~= v@.skip(k as int));
    out
}

fn prefixed_line(p: &str, v: &Vec<char>, tone: Tone, emph: Emph) -> (r: Vec<Piece>)
    ensures
        pieces_view(r@) == seq![(p@ + v@, tone, emph)],
{
    let mut w = chars_of(p);
    let mut i: usize = 0;
    let ghost pv = w@;
    while i < v.len()
        invariant
            i <= v@.len(),
            w@ == pv + v@.take(i as int),
        decreases v@.len() - i,
    {
        w.push(v[i]);
        i = i + 1;
        assert(w@ =~= pv + v@.take(i as int));
    }
    assert(v@.take(i as int) =~= v@);
    let mut out = no_pieces();
    push_piece(&mut out, piece(&w, tone, emph));
    assert(pieces_view(out@) =~= seq![(p@ + v@, tone, emph)]);
    out
}

fn push_markdown(out: &mut Vec<Vec<Piece>>, es: &Vec<PreviewEntry>)
    ensures
        lines_view(final(out)@) == lines_view(old(out)@) + markdown_lines(es@, false),
{
    let ghost full = lines_view(out@) + markdown_lines(es@, false);
    let mut code = false;
    let mut i: usize = 0;
    assert(es@.skip(0) =~= es@);
    while i < es.len()
        invariant
            i <= es@.len(),
            full == lines_view(out@) + markdown_lines(es@.skip(i as int), code),
        decreases es@.len() - i,
    {
        let ghost before = lines_view(out@);
        let ghost rest = es@.skip(i as int + 1);
        assert(es@.skip(i as int).drop_first() =~= rest);
        assert(es@.skip(i as int)[0] == es@[i as int]);
        proof {
            reveal_strlit("```");
            reveal_strlit("# ");
            reveal_strlit("## ");
            reveal_strlit("### ");
            reveal_strlit("- ");
        }
        let t = chars_of(es[i].text.as_str());
        if has_prefix(&t, "```") {
            push_line(out, no_pieces());
            code = !code;
        } else if code {
            push_line(out, prefixed_line("  ", &t, Tone::Dim, Emph::Normal));
        } else if has_prefix(&t, "# ") {
            let body = tail_from(&t, 2);
            push_line(out, prefixed_line("  ", &body, Tone::Heading, Emph::Bold));
            push_line(out, no_pieces());
        } else if has_prefix(&t, "## ") {
            let body = tail_from(&t, 3);
            push_line(out, prefixed_line("  ", &body, Tone::Highlight, Emph::Bold));
            push_line(out, no_pieces());
        } else if has_prefix(&t, "### ") {
            let body = tail_from(&t, 4);
            push_line(out, prefixed_line("  ", &body, Tone::Done, Emph::Bold));
        } else if has_prefix(&t, "- ") {
            let body = tail_from(&t, 2);
            let mut l = no_pieces();
            push_piece(&mut l, lit("    \u{2022} ", Tone::Text, Emph::Normal));
            push_piece(&mut l, piece(&body, Tone::Text, Emph::Normal));
            assert(pieces_view(l@) =~= seq![ln("    \u{2022} "@, Tone::Text), ln(t@.skip(2), Tone::Text)]);
            push_line(out, l);
        } else if all_blank(&t) {
            push_line(out, no_pieces());
        } else {
            push_line(out, prefixed_line("  ", &t, Tone::Plain, Emph::Normal));
        }
        i = i + 1;
        assert(full =~= lines_view(out@) + markdown_lines(es@.skip(i as int), code));
    }
    assert(es@.skip(i as int) =~= Seq::<PreviewEntry>::empty());
}

fn push_content(out: &mut Vec<Vec<Piece>>, es: &Vec<PreviewEntry>)
    ensures
        lines_view(final(out)@) == lines_view(old(out)@) + content_lines(es@),
{
    let ghost full = lines_view(out@) + content_lines(es@);
    let mut i: usize = 0;
    assert(es@.skip(0) =~= es@);
    while i < es.len()
        invariant
            i <= es@.len(),
            full == lines_view(out@) + content_lines(es@.skip(i as int)),
        decreases es@.len() - i,
    {
        assert(es@.skip(i as int).drop_first() =~= es@.skip(i as int + 1));
        assert(es@.skip(i as int)[0] == es@[i as int]);
        let e = &es[i];
        let mut l = no_pieces();
        if str_eq(e.role.as_str(), "user") {
            push_piece(&mut l, lit("  You ", Tone::Highlight, Emph::Bold));
        } else {
            push_piece(&mut l, lit("  Bot ", Tone::Done, Emph::Bold));
        }
        push_piece(&mut l, lit(e.text.as_str(), Tone::Text, Emph::Normal));
        let ghost head = if e.role@ == "user"@ { ("  You "@, Tone::Highlight, Emph::Bold) } else { ("  Bot "@, Tone::Done, Emph::Bold) };
        assert(pieces_view(l@) =~= seq![head, ln(e.text@, Tone::Text)]);
        push_line(out, l);
        push_line(out, no_pieces());
        i = i + 1;
        assert(full =~= lines_view(out@) + content_lines(es@.skip(i as int)));
    }
    assert(es@.skip(i as int) =~= Seq::<PreviewEntry>::empty());
}

/// The lines of the session preview showing `view`, for a session with
/// these tags and these entries (conversation or summary lines); `auto`
/// when it popped up by itself.
pub fn preview_lines(view: PreviewView, tags: &Vec<String>, entries: &Vec<PreviewEntry>, auto: bool) -> (r: Vec<Vec<Piece>>)
    ensures
        lines_view(r@) == preview_spec(view, strings_view(tags@), entries@, auto),
{
    let mut out: Vec<Vec<Piece>> = Vec::new();
    let mut h = no_pieces();
    if view.knowledge {
        push_piece(&mut h, lit("  Knowledge Base", Tone::Tag, Emph::Bold));
    } else if view.summary {
        push_piece(&mut h, lit("  Session Summary", Tone::Heading, Emph::Bold));
    } else {
        push_piece(&mut h, lit("  Session Content Preview", Tone::Heading, Emph::Bold));
    }
    push_line(&mut out, h);
    push_line(&mut out, no_pieces());
    let ghost top = lines_view(out@);
    if tags.len() > 0 {
        let mut j: Vec<char> = Vec::new();
        push_joined(&mut j, tags, ", ");
        let mut l = no_pieces();
        push_piece(&mut l, lit("  Tags: ", Tone::Dim, Emph::Normal));
        push_piece(&mut l, piece(&j, Tone::Tag, Emph::Normal));
        assert(pieces_view(l@) =~= seq![ln("  Tags: "@, Tone::Dim), ln(join(strings_view(tags@), ", "@), Tone::Tag)]);
        push_line(&mut out, l);
        push_line(&mut out, no_pieces());
    }
    let ghost with_tags = lines_view(out@);
    if view.summary {
        if entries.len() == 0 {
            let mut l = no_pieces();
            push_piece(&mut l, lit("  No summary available.", Tone::Plain, Emph::Normal));
            push_line(&mut out, l);
        } else {
            push_markdown(&mut out, entries);
        }
    } else {
        if entries.len() == 0 {
            let mut l = no_pieces();
            push_piece(&mut l, lit("  (no text content found)", Tone::Plain, Emph::Normal));
            push_line(&mut out, l);
        } else {
            push_content(&mut out, entries);
        }
    }
    let ghost with_body = lines_view(out@);
    proof {
        let tl = if tags@.len() > 0 {
            seq![seq![ln("  Tags: "@, Tone::Dim), ln(join(strings_view(tags@), ", "@), Tone::Tag)], Seq::<(Seq<char>, Tone, Emph)>::empty()]
        } else {
            Seq::empty()
        };
        assert(with_tags =~= top + tl);
    }
    push_line(&mut out, no_pieces());
    let keys: &str = if auto {
        "  Press any key to dismiss"
    } else if view.knowledge {
        "  k=back  c=clear  any key=close"
    } else if view.summary {
        "  s=content  b=rollback  k=knowledge  any key=close"
    } else {
        "  s=summary  b=rollback  k=knowledge  any key=close"
    };
    let mut k = no_pieces();
    push_piece(&mut k, lit(keys, Tone::Highlight, Emph::Normal));
    push_line(&mut out, k);
    proof {
        let spec = preview_spec(view, strings_view(tags@), entries@, auto);
        assert(lines_view(out@) =~= spec);
    }
    out
}

/// What the caller does after a key in the preview.
#[derive(Clone, Copy, Debug, PartialEq, Eq, Structural)]
pub enum PreviewAction {
    /// Load the session's conversation.
    LoadContent,
    /// Load the session's summary.
    LoadSummary,
    /// Load the workspace's knowledge base.
    LoadKnowledge,
    /// Roll the session's workspace back to its snapshot.
    Rollback,
    /// Clear the workspace's knowledge base.
    ClearKnowledge,
    /// Close the preview.
    Close,
}

/// A key in the preview: `s` toggles the summary, `k` the knowledge base
/// (loading what is shown next), `b` rolls back, `c` clears the knowledge
/// base there or closes, and any other key closes.
pub open spec fn preview_key_spec(v: PreviewView, c: Option<char>) -> (PreviewView, PreviewAction) {
    match c {
        Some('s') => {
            let n = PreviewView { summary: !v.summary, knowledge: v.knowledge };
            (n, if n.summary { PreviewAction::LoadSummary } else { PreviewAction::LoadContent })
        },
        Some('b') => (v, PreviewAction::Rollback),
        Some('k') => {
            let n = PreviewView { summary: v.summary, knowledge: !v.knowledge };
            (n, if n.knowledge { PreviewAction::LoadKnowledge } else if n.summary { PreviewAction::LoadSummary } else { PreviewAction::LoadContent })
        },
        Some('c') => if v.knowledge {
            (v, PreviewAction::ClearKnowledge)
        } else {
            (PreviewView { summary: false, knowledge: v.knowledge }, PreviewAction::Close)
        },
        _ => (PreviewView { summary: false, knowledge: false }, PreviewAction::Close),
    }
}

/// Handles a key in the preview showing `v`; `c` is the key's character, if
/// it is a plain character key.
pub fn preview_key(v: PreviewView, c: Option<char>) -> (r: (PreviewView, PreviewAction))
    ensures
        r == preview_key_spec(v, c),
{
    match c {
        Some('s') => {
            let n = PreviewView { summary: !v.summary, knowledge: v.knowledge };
            (n, if n.summary { PreviewAction::LoadSummary } else { PreviewAction::LoadContent })
        },
        Some('b') => (v, PreviewAction::Rollback),
        Some('k') => {
            let n = PreviewView { summary: v.summary, knowledge: !v.knowledge };
            (n, if n.knowledge { PreviewAction::LoadKnowledge } else if n.summary { PreviewAction::LoadSummary } else { PreviewAction::LoadContent })
        },
        Some('c') => if v.knowledge {
            (v, PreviewAction::ClearKnowledge)
        } else {
            (PreviewView { summary: false, knowledge: v.knowledge }, PreviewAction::Close)
        },
        _ => (PreviewView { summary: false, knowledge: false }, PreviewAction::Close),
    }
}

// ───────────────────────── the chat pane's title ─────────────────────────

/// The title over the focused tab: its title, agent, place among the tabs
/// and, when scrolled back, how far and how to return; ` Agent ` with no
/// focused tab.
pub open spec fn chat_title_spec(tabs: Seq<ActiveTab>, active: Option<usize>, offset: nat) -> Seq<char> {
    match active {
        Some(i) if i < tabs.len() => {
            " "@ + tabs[i as int].title@ + " ["@ + agent_label_spec(tabs[i as int].agent) + "] ("@ + decimal((i + 1) as nat) + "/"@
                + decimal(tabs.len()) + ")"@
                + if offset > 0 { " [\u{2191}"@ + decimal(offset) + " PgDn:bottom]"@ } else { Seq::empty() }
        },
        _ => " Agent "@,
    }
}

/// The chat pane's title, `offset` lines scrolled back.
pub fn chat_title(tabs: &Vec<ActiveTab>, active: Option<usize>, offset: usize) -> (r: String)
    ensures
        r@ == chat_title_spec(tabs@, active, offset as nat),
{
    let mut v: Vec<char> = Vec::new();
    match active {
        Some(i) if i < tabs.len() => {
            let t = &tabs[i];
            push_str(&mut v, " ");
            push_str(&mut v, t.title.as_str());
            push_str(&mut v, " [");
            push_str(&mut v, t.agent.label());
            push_str(&mut v, "] (");
            push_decimal(&mut v, (i + 1) as u64);
            push_str(&mut v, "/");
            push_decimal(&mut v, tabs.len() as u64);
            push_str(&mut v, ")");
            let ghost base = v@;
            if offset > 0 {
                push_str(&mut v, " [\u{2191}");
                push_decimal(&mut v, offset as u64);
                push_str(&mut v, " PgDn:bottom]");
            }
            assert(v@ =~= chat_title_spec(tabs@, active, offset as nat));
        },
        _ => {
            push_str(&mut v, " Agent ");
            assert(v@ =~= chat_title_spec(tabs@, active, offset as nat));
        },
    }
    string_from_chars(&v)
}

} // verus!
