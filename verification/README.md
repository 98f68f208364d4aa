# amux

A terminal multiplexer for coding-agent sessions: a sidebar of workspaces and
their sessions, tabs running the agents, search and filters, session chains,
token budgets and conflict warnings.

The interface logic is a library verified with Verus; the program around it
does the terminal, file and process work.

## Layout

- `src/` — the verified library.
  - `state.rs`: the interface state and its key, paste and mouse handlers.
    Each handler states the next state and the outside work it asks for
    (an `Effect`).
  - `commands.rs`: which command a key press runs, from the key bindings.
  - `sidebar.rs`: the tree of rows built from workspaces, sessions, tabs
    and filters; selection, expansion and archiving.
  - `ordering.rs`: the session orders (time, name, agent) as a stable sort,
    with its laws.
  - `screen.rs`: the text the interface draws (sidebar title and rows, the
    panel shown while no tab is open, the tab bar and the status bar), as
    pieces of text with a colour role each.
  - `find.rs`: the scrollback search (plain or regex, with or without
    case) and its search bar.
  - `search.rs`, `keybinds.rs`, `chain.rs`, `budget.rs`, `display.rs`,
    `git.rs`, `url.rs`, `ansi.rs`, `conflicts.rs`, `stats.rs`, `browse.rs`,
    `nav.rs`, `text.rs`, `types.rs`: search queries, key bindings, session
    chains, token budgets, row texts, git output, links, styled output, file
    conflicts, activity statistics, the directory browser, wrapping movement
    and text helpers.
- `app/` — the program: configuration and session files, agent processes,
  the event loop, drawing, and `amux attach` (tmux).
- `tests/` — tests of the library.

## Verifying

Every function in `src/` carries a contract that Verus proves. The calls into
`regex` and `code-fuzzy-match`, and two `std` calls (`str::to_lowercase`,
building a `String` from characters), are trusted items whose
contracts are stated next to them.
