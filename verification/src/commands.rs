//! What a key press means: the command the sidebar or the chat pane runs
//! for it, decided from the configured bindings alone.

use vstd::prelude::*;
use crate::keybinds::{bind_matches, KeyCode, KeyPress, Keybinds};
use crate::types::Agent;

verus! {

/// The command a key press runs while the sidebar has focus.
#[derive(Clone, Copy, Debug, PartialEq, Eq, Structural)]
pub enum SidebarCommand {
    Quit,
    MoveUp,
    MoveDown,
    Expand,
    Refresh,
    Rename,
    NewWorkspace,
    Delete,
    FocusChat,
    AgentFilter(Agent),
    Activate,
    ToggleMark,
    Search,
    Help,
    Preview,
    Export,
    Copy,
    TagFilter,
    Settings,
    CycleTheme,
    TogglePin,
    OpenDir,
    CycleSort,
    SemanticSearch,
    Templates,
    Plugins,
    Automations,
    Branch,
    Stats,
    TokenStats,
    Diff,
    ToggleArchived,
    Remote,
    Timeline,
    Recommend,
    CrossSearch,
    Chains,
    Ignore,
}

/// The command a key press runs while a terminal tab has focus.
#[derive(Clone, Copy, Debug, PartialEq, Eq, Structural)]
pub enum ChatCommand {
    ToSidebar,
    Quit,
    Refresh,
    NewSession,
    ScrollSearch,
    Help,
    Preview,
    Export,
    CopyTab,
    CycleTheme,
    Settings,
    TagFilter,
    Terminate,
    NextTab,
    PrevTab,
    MoveTabRight,
    MoveTabLeft,
    PageUp,
    PageDown,
    Top,
    Bottom,
    /// `y`: copy the screen when scrolled back, else send it to the tab.
    YankOrForward,
    Forward,
}

/// The key is this character, whatever the modifiers.
pub open spec fn is_char(k: KeyPress, c: char) -> bool {
    k.code == KeyCode::Char(c)
}

/// The character with no modifier at all.
pub open spec fn plain_char(k: KeyPress, c: char) -> bool {
    k.code == KeyCode::Char(c) && !k.ctrl && !k.alt && !k.shift
}

/// The key is this character with Ctrl held.
pub open spec fn ctrl_char(k: KeyPress, c: char) -> bool {
    k.code == KeyCode::Char(c) && k.ctrl
}

/// The digit keys that pick an agent filter.
pub open spec fn digit_agent(k: KeyPress) -> Option<Agent> {
    if is_char(k, '1') {
        Some(Agent::Cc)
    } else if is_char(k, '2') {
        Some(Agent::Codex)
    } else if is_char(k, '3') {
        Some(Agent::Gsd)
    } else if is_char(k, '4') {
        Some(Agent::Omp)
    } else {
        None
    }
}

/// The bound commands, tried in a fixed order; the first that matches wins.
pub open spec fn bound_sidebar_command(kb: Keybinds, k: KeyPress) -> Option<SidebarCommand> {
    if bind_matches(kb.quit, k) || k.code == KeyCode::Esc {
        Some(SidebarCommand::Quit)
    } else if bind_matches(kb.move_up, k) || k.code == KeyCode::Up {
        Some(SidebarCommand::MoveUp)
    } else if bind_matches(kb.move_down, k) || k.code == KeyCode::Down {
        Some(SidebarCommand::MoveDown)
    } else if bind_matches(kb.expand, k) {
        Some(SidebarCommand::Expand)
    } else if bind_matches(kb.refresh, k) {
        Some(SidebarCommand::Refresh)
    } else if bind_matches(kb.rename, k) {
        Some(SidebarCommand::Rename)
    } else if bind_matches(kb.new_workspace, k) {
        Some(SidebarCommand::NewWorkspace)
    } else if bind_matches(kb.delete, k) {
        Some(SidebarCommand::Delete)
    } else if k.code == KeyCode::Tab {
        Some(SidebarCommand::FocusChat)
    } else if bind_matches(kb.new_session, k) {
        match digit_agent(k) {
            Some(a) => Some(SidebarCommand::AgentFilter(a)),
            None => Some(SidebarCommand::Activate),
        }
    } else if is_char(k, ' ') {
        Some(SidebarCommand::ToggleMark)
    } else if k.code == KeyCode::Enter {
        Some(SidebarCommand::Activate)
    } else if bind_matches(kb.search, k) {
        Some(SidebarCommand::Search)
    } else if bind_matches(kb.help, k) {
        Some(SidebarCommand::Help)
    } else if bind_matches(kb.preview, k) {
        Some(SidebarCommand::Preview)
    } else if bind_matches(kb.export, k) {
        Some(SidebarCommand::Export)
    } else if bind_matches(kb.copy, k) {
        Some(SidebarCommand::Copy)
    } else if bind_matches(kb.tag_filter, k) {
        Some(SidebarCommand::TagFilter)
    } else if bind_matches(kb.settings, k) {
        Some(SidebarCommand::Settings)
    } else if bind_matches(kb.theme, k) {
        Some(SidebarCommand::CycleTheme)
    } else {
        None
    }
}

/// The fixed keys that are not configurable.
pub open spec fn fixed_sidebar_command(k: KeyPress) -> SidebarCommand {
    if is_char(k, 'l') && k.alt && !k.ctrl {
        SidebarCommand::FocusChat
    } else if !k.ctrl && !k.alt && digit_agent(k) is Some {
        SidebarCommand::AgentFilter(digit_agent(k)->0)
    } else if is_char(k, '!') {
        SidebarCommand::TogglePin
    } else if plain_char(k, 'o') {
        SidebarCommand::OpenDir
    } else if plain_char(k, 's') {
        SidebarCommand::CycleSort
    } else if plain_char(k, 'S') {
        SidebarCommand::SemanticSearch
    } else if plain_char(k, 'p') {
        SidebarCommand::Templates
    } else if ctrl_char(k, 'p') {
        SidebarCommand::Plugins
    } else if ctrl_char(k, 'a') {
        SidebarCommand::Automations
    } else if is_char(k, 'B') {
        SidebarCommand::Branch
    } else if ctrl_char(k, 's') {
        SidebarCommand::Stats
    } else if ctrl_char(k, 't') {
        SidebarCommand::TokenStats
    } else if is_char(k, 'X') {
        SidebarCommand::Diff
    } else if is_char(k, 'G') {
        SidebarCommand::ToggleArchived
    } else if ctrl_char(k, 'r') {
        SidebarCommand::Remote
    } else if ctrl_char(k, 'g') {
        SidebarCommand::Timeline
    } else if ctrl_char(k, 'w') {
        SidebarCommand::Recommend
    } else if ctrl_char(k, 'f') {
        SidebarCommand::CrossSearch
    } else if ctrl_char(k, 'e') {
        SidebarCommand::Chains
    } else {
        SidebarCommand::Ignore
    }
}

/// The sidebar command of a key press: a configured binding first, then the
/// fixed keys.
pub open spec fn sidebar_command_spec(kb: Keybinds, k: KeyPress) -> SidebarCommand {
    match bound_sidebar_command(kb, k) {
        Some(c) => c,
        None => fixed_sidebar_command(k),
    }
}

/// Alt combinations the chat pane keeps for itself instead of sending them
/// to the tab.
pub open spec fn chat_alt_command(kb: Keybinds, k: KeyPress) -> Option<ChatCommand> {
    if !(k.alt && !k.ctrl) {
        None
    } else if bind_matches(kb.quit, k) {
        Some(ChatCommand::Quit)
    } else if bind_matches(kb.refresh, k) {
        Some(ChatCommand::Refresh)
    } else if bind_matches(kb.new_session, k) {
        Some(ChatCommand::NewSession)
    } else if bind_matches(kb.search, k) {
        Some(ChatCommand::ScrollSearch)
    } else if bind_matches(kb.help, k) {
        Some(ChatCommand::Help)
    } else if bind_matches(kb.preview, k) {
        Some(ChatCommand::Preview)
    } else if bind_matches(kb.export, k) {
        Some(ChatCommand::Export)
    } else if bind_matches(kb.copy, k) {
        Some(ChatCommand::CopyTab)
    } else if bind_matches(kb.theme, k) {
        Some(ChatCommand::CycleTheme)
    } else if bind_matches(kb.settings, k) {
        Some(ChatCommand::Settings)
    } else if bind_matches(kb.tag_filter, k) {
        Some(ChatCommand::TagFilter)
    } else {
        None
    }
}

/// The chat keys that do not depend on the bindings.
pub open spec fn fixed_chat_command(k: KeyPress) -> ChatCommand {
    if ctrl_char(k, 'q') {
        ChatCommand::Terminate
    } else if ctrl_char(k, 'y') {
        ChatCommand::CopyTab
    } else if k.ctrl && !k.shift && is_char(k, 'j') {
        ChatCommand::NextTab
    } else if k.ctrl && !k.shift && is_char(k, 'k') {
        ChatCommand::PrevTab
    } else if k.ctrl && k.shift && is_char(k, 'J') {
        ChatCommand::MoveTabRight
    } else if k.ctrl && k.shift && is_char(k, 'K') {
        ChatCommand::MoveTabLeft
    } else if k.code == KeyCode::PageUp {
        ChatCommand::PageUp
    } else if k.code == KeyCode::PageDown {
        ChatCommand::PageDown
    } else if ctrl_char(k, 'b') {
        ChatCommand::PageUp
    } else if ctrl_char(k, 'f') {
        ChatCommand::PageDown
    } else if k.code == KeyCode::Home {
        ChatCommand::Top
    } else if k.code == KeyCode::End {
        ChatCommand::Bottom
    } else if plain_char(k, '/') {
        ChatCommand::ScrollSearch
    } else if plain_char(k, 'y') {
        ChatCommand::YankOrForward
    } else {
        ChatCommand::Forward
    }
}

/// The chat command of a key press while a tab is open.
pub open spec fn chat_command_spec(kb: Keybinds, k: KeyPress) -> ChatCommand {
    if (k.code == KeyCode::Tab && !k.shift) || (is_char(k, 'h') && k.alt) {
        ChatCommand::ToSidebar
    } else {
        match chat_alt_command(kb, k) {
            Some(c) => c,
            None => fixed_chat_command(k),
        }
    }
}

fn is_char_exec(k: &KeyPress, c: char) -> (r: bool)
    ensures
        r == is_char(*k, c),
{
    match k.code {
        KeyCode::Char(x) => x == c,
        _ => false,
    }
}

fn is_code(k: &KeyPress, code: KeyCode) -> (r: bool)
    requires
        !(code is Char) && !(code is F),
    ensures
        r == (k.code == code),
{
    match (k.code, code) {
        (KeyCode::Enter, KeyCode::Enter) => true,
        (KeyCode::Esc, KeyCode::Esc) => true,
        (KeyCode::Backspace, KeyCode::Backspace) => true,
        (KeyCode::Tab, KeyCode::Tab) => true,
        (KeyCode::BackTab, KeyCode::BackTab) => true,
        (KeyCode::Up, KeyCode::Up) => true,
        (KeyCode::Down, KeyCode::Down) => true,
        (KeyCode::Left, KeyCode::Left) => true,
        (KeyCode::Right, KeyCode::Right) => true,
        (KeyCode::PageUp, KeyCode::PageUp) => true,
        (KeyCode::PageDown, KeyCode::PageDown) => true,
        (KeyCode::Home, KeyCode::Home) => true,
        (KeyCode::End, KeyCode::End) => true,
        (KeyCode::Delete, KeyCode::Delete) => true,
        (KeyCode::Other, KeyCode::Other) => true,
        _ => false,
    }
}

fn plain_char_exec(k: &KeyPress, c: char) -> (r: bool)
    ensures
        r == plain_char(*k, c),
{
    is_char_exec(k, c) && !k.ctrl && !k.alt && !k.shift
}

fn ctrl_char_exec(k: &KeyPress, c: char) -> (r: bool)
    ensures
        r == ctrl_char(*k, c),
{
    is_char_exec(k, c) && k.ctrl
}

fn digit_agent_exec(k: &KeyPress) -> (r: Option<Agent>)
    ensures
        r == digit_agent(*k),
{
    if is_char_exec(k, '1') {
        Some(Agent::Cc)
    } else if is_char_exec(k, '2') {
        Some(Agent::Codex)
    } else if is_char_exec(k, '3') {
        Some(Agent::Gsd)
    } else if is_char_exec(k, '4') {
        Some(Agent::Omp)
    } else {
        None
    }
}

fn bound_sidebar_command_exec(kb: &Keybinds, k: &KeyPress) -> (r: Option<SidebarCommand>)
    ensures
        r == bound_sidebar_command(*kb, *k),
{
    if kb.quit.matches_event(k) || is_code(k, KeyCode::Esc) {
        Some(SidebarCommand::Quit)
    } else if kb.move_up.matches_event(k) || is_code(k, KeyCode::Up) {
        Some(SidebarCommand::MoveUp)
    } else if kb.move_down.matches_event(k) || is_code(k, KeyCode::Down) {
        Some(SidebarCommand::MoveDown)
    } else if kb.expand.matches_event(k) {
        Some(SidebarCommand::Expand)
    } else if kb.refresh.matches_event(k) {
        Some(SidebarCommand::Refresh)
    } else if kb.rename.matches_event(k) {
        Some(SidebarCommand::Rename)
    } else if kb.new_workspace.matches_event(k) {
        Some(SidebarCommand::NewWorkspace)
    } else if kb.delete.matches_event(k) {
        Some(SidebarCommand::Delete)
    } else if is_code(k, KeyCode::Tab) {
        Some(SidebarCommand::FocusChat)
    } else if kb.new_session.matches_event(k) {
        match digit_agent_exec(k) {
            Some(a) => Some(SidebarCommand::AgentFilter(a)),
            None => Some(SidebarCommand::Activate),
        }
    } else if is_char_exec(k, ' ') {
        Some(SidebarCommand::ToggleMark)
    } else if is_code(k, KeyCode::Enter) {
        Some(SidebarCommand::Activate)
    } else if kb.search.matches_event(k) {
        Some(SidebarCommand::Search)
    } else if kb.help.matches_event(k) {
        Some(SidebarCommand::Help)
    } else if kb.preview.matches_event(k) {
        Some(SidebarCommand::Preview)
    } else if kb.export.matches_event(k) {
        Some(SidebarCommand::Export)
    } else if kb.copy.matches_event(k) {
        Some(SidebarCommand::Copy)
    } else if kb.tag_filter.matches_event(k) {
        Some(SidebarCommand::TagFilter)
    } else if kb.settings.matches_event(k) {
        Some(SidebarCommand::Settings)
    } else if kb.theme.matches_event(k) {
        Some(SidebarCommand::CycleTheme)
    } else {
        None
    }
}

fn fixed_sidebar_command_exec(k: &KeyPress) -> (r: SidebarCommand)
    ensures
        r == fixed_sidebar_command(*k),
{
    let digit = digit_agent_exec(k);
    if is_char_exec(k, 'l') && k.alt && !k.ctrl {
        SidebarCommand::FocusChat
    } else if !k.ctrl && !k.alt && digit.is_some() {
        match digit {
            Some(a) => SidebarCommand::AgentFilter(a),
            None => SidebarCommand::Ignore,
        }
    } else if is_char_exec(k, '!') {
        SidebarCommand::TogglePin
    } else if plain_char_exec(k, 'o') {
        SidebarCommand::OpenDir
    } else if plain_char_exec(k, 's') {
        SidebarCommand::CycleSort
    } else if plain_char_exec(k, 'S') {
        SidebarCommand::SemanticSearch
    } else if plain_char_exec(k, 'p') {
        SidebarCommand::Templates
    } else if ctrl_char_exec(k, 'p') {
        SidebarCommand::Plugins
    } else if ctrl_char_exec(k, 'a') {
        SidebarCommand::Automations
    } else if is_char_exec(k, 'B') {
        SidebarCommand::Branch
    } else if ctrl_char_exec(k, 's') {
        SidebarCommand::Stats
    } else if ctrl_char_exec(k, 't') {
        SidebarCommand::TokenStats
    } else if is_char_exec(k, 'X') {
        SidebarCommand::Diff
    } else if is_char_exec(k, 'G') {
        SidebarCommand::ToggleArchived
    } else if ctrl_char_exec(k, 'r') {
        SidebarCommand::Remote
    } else if ctrl_char_exec(k, 'g') {
        SidebarCommand::Timeline
    } else if ctrl_char_exec(k, 'w') {
        SidebarCommand::Recommend
    } else if ctrl_char_exec(k, 'f') {
        SidebarCommand::CrossSearch
    } else if ctrl_char_exec(k, 'e') {
        SidebarCommand::Chains
    } else {
        SidebarCommand::Ignore
    }
}

/// The command a key press runs in the sidebar.
pub fn sidebar_command(kb: &Keybinds, k: &KeyPress) -> (r: SidebarCommand)
    ensures
        r == sidebar_command_spec(*kb, *k),
{
    match bound_sidebar_command_exec(kb, k) {
        Some(c) => c,
        None => fixed_sidebar_command_exec(k),
    }
}

fn chat_alt_command_exec(kb: &Keybinds, k: &KeyPress) -> (r: Option<ChatCommand>)
    ensures
        r == chat_alt_command(*kb, *k),
{
    if !(k.alt && !k.ctrl) {
        None
    } else if kb.quit.matches_event(k) {
        Some(ChatCommand::Quit)
    } else if kb.refresh.matches_event(k) {
        Some(ChatCommand::Refresh)
    } else if kb.new_session.matches_event(k) {
        Some(ChatCommand::NewSession)
    } else if kb.search.matches_event(k) {
        Some(ChatCommand::ScrollSearch)
    } else if kb.help.matches_event(k) {
        Some(ChatCommand::Help)
    } else if kb.preview.matches_event(k) {
        Some(ChatCommand::Preview)
    } else if kb.export.matches_event(k) {
        Some(ChatCommand::Export)
    } else if kb.copy.matches_event(k) {
        Some(ChatCommand::CopyTab)
    } else if kb.theme.matches_event(k) {
        Some(ChatCommand::CycleTheme)
    } else if kb.settings.matches_event(k) {
        Some(ChatCommand::Settings)
    } else if kb.tag_filter.matches_event(k) {
        Some(ChatCommand::TagFilter)
    } else {
        None
    }
}

fn fixed_chat_command_exec(k: &KeyPress) -> (r: ChatCommand)
    ensures
        r == fixed_chat_command(*k),
{
    if ctrl_char_exec(k, 'q') {
        ChatCommand::Terminate
    } else if ctrl_char_exec(k, 'y') {
        ChatCommand::CopyTab
    } else if k.ctrl && !k.shift && is_char_exec(k, 'j') {
        ChatCommand::NextTab
    } else if k.ctrl && !k.shift && is_char_exec(k, 'k') {
        ChatCommand::PrevTab
    } else if k.ctrl && k.shift && is_char_exec(k, 'J') {
        ChatCommand::MoveTabRight
    } else if k.ctrl && k.shift && is_char_exec(k, 'K') {
        ChatCommand::MoveTabLeft
    } else if is_code(k, KeyCode::PageUp) {
        ChatCommand::PageUp
    } else if is_code(k, KeyCode::PageDown) {
        ChatCommand::PageDown
    } else if ctrl_char_exec(k, 'b') {
        ChatCommand::PageUp
    } else if ctrl_char_exec(k, 'f') {
        ChatCommand::PageDown
    } else if is_code(k, KeyCode::Home) {
        ChatCommand::Top
    } else if is_code(k, KeyCode::End) {
        ChatCommand::Bottom
    } else if plain_char_exec(k, '/') {
        ChatCommand::ScrollSearch
    } else if plain_char_exec(k, 'y') {
        ChatCommand::YankOrForward
    } else {
        ChatCommand::Forward
    }
}

/// The command a key press runs while a terminal tab has focus.
pub fn chat_command(kb: &Keybinds, k: &KeyPress) -> (r: ChatCommand)
    ensures
        r == chat_command_spec(*kb, *k),
{
    if (is_code(k, KeyCode::Tab) && !k.shift) || (is_char_exec(k, 'h') && k.alt) {
        ChatCommand::ToSidebar
    } else {
        match chat_alt_command_exec(kb, k) {
            Some(c) => c,
            None => fixed_chat_command_exec(k),
        }
    }
}

} // verus!
