use amux::budget::{check_budget, now_secs_of_weekday, token_alert_message, BudgetLimitKind, TokenLimits, UsageEntry};
use amux::chain::{advance_chain, substitute_prev_output, ActiveChain, ChainAdvance};
use amux::display::{session_secondary_text, truncate_str, truncate_title};
use amux::keybinds::{KeyBind, Keybinds};
use amux::nav::tab_index_from_x;
use amux::sidebar::{SessionStore, TreeEnv};
use amux::state::{AppState, MenuCounts};
use amux::types::DiffSummary;

fn fresh_state() -> AppState {
    AppState::new(
        SessionStore::new(Vec::new(), Vec::new()),
        TreeEnv { now: 1_700_000_000, cwds: Vec::new(), path_exists: Vec::new(), tabs: Vec::new() },
        Keybinds::default_binds(),
        MenuCounts { templates: 0, plugins: 0, automations: 0, chains: 0 },
    )
}

// ─── tab hit testing ───

#[test]
fn tab_index_calculation_single_tab() {
    let tab_width = 80usize / 1;
    assert_eq!(tab_width, 80);
    assert_eq!(tab_index_from_x(0, tab_width, 1), Some(0));
    assert_eq!(tab_index_from_x(79, tab_width, 1), Some(0));
}

#[test]
fn tab_index_calculation_multiple_tabs() {
    let tab_width = 80usize / 4;
    assert_eq!(tab_width, 20);
    assert_eq!(tab_index_from_x(0, tab_width, 4), Some(0));
    assert_eq!(tab_index_from_x(19, tab_width, 4), Some(0));
    assert_eq!(tab_index_from_x(20, tab_width, 4), Some(1));
    assert_eq!(tab_index_from_x(39, tab_width, 4), Some(1));
    assert_eq!(tab_index_from_x(40, tab_width, 4), Some(2));
    assert_eq!(tab_index_from_x(60, tab_width, 4), Some(3));
    assert_eq!(tab_index_from_x(79, tab_width, 4), Some(3));
}

#[test]
fn tab_index_with_offset_rect() {
    let rect_x = 20u16;
    let tab_width = 60usize / 3;
    assert_eq!(tab_width, 20);
    assert_eq!(tab_index_from_x(20 - rect_x, tab_width, 3), Some(0));
    assert_eq!(tab_index_from_x(39 - rect_x, tab_width, 3), Some(0));
    assert_eq!(tab_index_from_x(40 - rect_x, tab_width, 3), Some(1));
    assert_eq!(tab_index_from_x(59 - rect_x, tab_width, 3), Some(1));
    assert_eq!(tab_index_from_x(60 - rect_x, tab_width, 3), Some(2));
}

#[test]
fn tab_index_click_first_tab() {
    assert_eq!(tab_index_from_x(0, 20, 4), Some(0));
}

#[test]
fn tab_index_click_second_tab() {
    assert_eq!(tab_index_from_x(20, 20, 4), Some(1));
}

#[test]
fn tab_index_click_last_pixel_of_second_tab() {
    assert_eq!(tab_index_from_x(39, 20, 4), Some(1));
}

#[test]
fn tab_index_click_third_tab() {
    assert_eq!(tab_index_from_x(40, 20, 4), Some(2));
}

#[test]
fn tab_index_click_beyond_last_tab() {
    assert_eq!(tab_index_from_x(80, 20, 4), None);
}

#[test]
fn tab_index_click_on_current_tab_returns_valid_index() {
    assert_eq!(tab_index_from_x(0, 20, 4), Some(0));
}

#[test]
fn tab_index_zero_tab_width_returns_none() {
    assert_eq!(tab_index_from_x(10, 0, 4), None);
}

#[test]
fn tab_index_zero_num_tabs_returns_none() {
    assert_eq!(tab_index_from_x(10, 20, 0), None);
}

#[test]
fn tab_index_single_tab_always_zero() {
    assert_eq!(tab_index_from_x(0, 80, 1), Some(0));
    assert_eq!(tab_index_from_x(79, 80, 1), Some(0));
}

#[test]
fn tab_index_with_narrow_tabs() {
    assert_eq!(tab_index_from_x(0, 8, 10), Some(0));
    assert_eq!(tab_index_from_x(7, 8, 10), Some(0));
    assert_eq!(tab_index_from_x(8, 8, 10), Some(1));
    assert_eq!(tab_index_from_x(72, 8, 10), Some(9));
    assert_eq!(tab_index_from_x(79, 8, 10), Some(9));
}

// ─── truncation ───

#[test]
fn truncate_title_fits_within_limit() {
    assert_eq!(truncate_title("hello", 10), "hello");
}

#[test]
fn truncate_title_exact_fit() {
    assert_eq!(truncate_title("hello", 5), "hello");
}

#[test]
fn truncate_title_truncates_long_title() {
    assert_eq!(truncate_title("hello world", 8), "hello...");
}

#[test]
fn truncate_title_small_max_len() {
    assert_eq!(truncate_title("hello", 3), "hello");
}

#[test]
fn truncate_title_zero_max_len() {
    assert_eq!(truncate_title("hello", 0), "hello");
}

#[test]
fn truncate_title_empty_string() {
    assert_eq!(truncate_title("", 10), "");
    assert_eq!(truncate_title("", 0), "");
}

#[test]
fn truncate_title_unicode_aware() {
    assert_eq!(truncate_title("αβγδεζ", 7), "αβ...");
}

#[test]
fn truncate_title_at_boundary() {
    assert_eq!(truncate_title("hello", 5), "hello");
    assert_eq!(truncate_title("hello", 6), "hello");
}

#[test]
fn truncate_str_cuts_at_char_boundary() {
    assert_eq!(truncate_str("héllo", 2), "h...");
    assert_eq!(truncate_str("hi", 2), "hi");
}

#[test]
fn truncated_title_never_exceeds_budget() {
    for max in 4..20 {
        for t in ["", "a", "hello world", "αβγδεζ", "日本語のタイトル"] {
            assert!(truncate_title(t, max).len() <= max);
        }
    }
}

// ─── secondary line ───

#[test]
fn session_secondary_text_collects_low_priority_metadata() {
    let diff = DiffSummary {
        insertions: 12,
        deletions: 3,
        files_changed: vec!["src/lib.rs".into(), "README.md".into()],
        summary_line: None,
    };
    let tags: Vec<String> = vec!["bug".into(), "ui".into()];
    let text = session_secondary_text("2h ago", "abcdef12", Some("done"), &tags, Some(&diff), Some("fixed the footer layout"));
    assert_eq!(text, "   2h ago (abcdef12) · done · tags: bug, ui · +12/-3 2f · fixed the footer layout");
}

#[test]
fn session_secondary_text_omits_empty_parts() {
    let text = session_secondary_text("now", "1234", None, &Vec::new(), None, None);
    assert_eq!(text, "   now (1234)");
}

// ─── key bindings ───

#[test]
fn help_sidebar_pairs_contains_all_actions() {
    let app = fresh_state();
    let pairs = app.keybinds.help_sidebar_pairs();
    assert_eq!(pairs.len(), 11, "expected 11 sidebar pairs");
    assert_eq!(pairs[0].0, "Move selection");
    assert_eq!(pairs.last().unwrap().0, "Quit");
    for (action, key) in &pairs {
        assert!(!key.is_empty(), "key for '{action}' must not be empty");
    }
}

#[test]
fn settings_budget_line_without_budget() {
    let app = fresh_state();
    assert!(app.token_limits.is_none());
}

#[test]
fn keybind_display_lines_count_and_format() {
    let app = fresh_state();
    let lines = app.keybinds.display_lines();
    assert_eq!(lines.len(), 17);
    for line in &lines {
        assert!(line.starts_with("  "), "line should be indented: {line:?}");
        assert!(line.contains(": "), "line should contain ': ': {line:?}");
    }
    assert!(lines[0].contains("move_up"));
    assert!(lines.last().unwrap().contains("quit"));
}

#[test]
fn keybind_display_shows_modifiers_and_upper_case() {
    assert_eq!(KeyBind::alt('q').display(), "Alt+Q");
    let b = KeyBind { ctrl: true, alt: false, shift: true, key: '/' };
    assert_eq!(b.display(), "Ctrl+Shift+/");
    let lines = Keybinds::default_binds().display_lines();
    assert_eq!(lines[0], "  move_up: Alt+K");
}

#[test]
fn default_keybinds_have_no_conflicts() {
    assert!(Keybinds::default_binds().validate().is_empty());
}

#[test]
fn duplicate_binding_is_reported() {
    let mut kb = Keybinds::default_binds();
    kb.quit = KeyBind::alt('k');
    assert_eq!(kb.validate(), vec![("move_up", "quit")]);
}

#[test]
fn status_hint_names_the_keys() {
    assert_eq!(Keybinds::default_binds().status_hint(), "Alt+N new session · Alt+? keys · Alt+Q quit");
}

// ─── chains ───

#[test]
fn test_chain_step_prompt_substitution() {
    let prompt = "Review:\n{prev_output}".to_string();
    let result = substitute_prev_output(&prompt, "some output text");
    assert_eq!(result, "Review:\nsome output text");
}

#[test]
fn test_chain_step_prompt_no_placeholder() {
    let prompt = "Fix all bugs".to_string();
    let result = substitute_prev_output(&prompt, "ignored");
    assert_eq!(result, "Fix all bugs");
}

#[test]
fn test_active_chain_advancement() {
    let mut chain = ActiveChain {
        chain_name: "test".into(),
        current_step: 0,
        total_steps: 3,
        workspace_path: "/tmp/test".into(),
        prev_output: None,
    };
    assert!(chain.current_step + 1 < chain.total_steps);
    chain.current_step += 1;
    chain.prev_output = Some("output1".into());
    assert_eq!(chain.current_step, 1);
    assert!(chain.current_step + 1 < chain.total_steps);
    chain.current_step += 1;
    assert_eq!(chain.current_step, 2);
    assert!(chain.current_step + 1 >= chain.total_steps);
}

#[test]
fn advance_chain_carries_output_and_stops_at_last_step() {
    let chain = ActiveChain {
        chain_name: "c".into(),
        current_step: 0,
        total_steps: 2,
        workspace_path: "/tmp".into(),
        prev_output: None,
    };
    match advance_chain(&chain, Some("out".into())) {
        ChainAdvance::Next(next) => {
            assert_eq!(next.current_step, 1);
            assert_eq!(next.prev_output.as_deref(), Some("out"));
            assert!(matches!(advance_chain(&next, None), ChainAdvance::Completed));
        }
        ChainAdvance::Completed => panic!("first step is not the last"),
    }
}

#[test]
fn substitution_replaces_every_placeholder() {
    assert_eq!(substitute_prev_output("{prev_output}+{prev_output}", "x"), "x+x");
}

// ─── budget ───

fn usage(last_active: u64, tokens: u64) -> UsageEntry {
    UsageEntry { last_active, tokens: Some(tokens) }
}

#[test]
fn test_no_budget_no_alert() {
    let entries = vec![usage(1000, 1000)];
    let limits = TokenLimits { daily_tokens: None, weekly_tokens: None };
    assert!(check_budget(&entries, &limits, 1000, false, false).alert.is_none());
}

#[test]
fn test_daily_token_budget_exceeded() {
    let now: u64 = 86400 * 10;
    let entries = vec![usage(now + 100, 600)];
    let limits = TokenLimits { daily_tokens: Some(500), weekly_tokens: None };
    let r = check_budget(&entries, &limits, now + 200, false, false);
    assert_eq!(r.alert, Some(BudgetLimitKind::DailyTokens));
    let message = token_alert_message(false, r.daily_tokens, 500);
    assert!(message.contains("DAILY TOKEN BUDGET EXCEEDED"));
}

#[test]
fn test_daily_cost_budget_exceeded() {
    let now: u64 = 86400 * 10;
    let entries = vec![usage(now + 100, 100)];
    let limits = TokenLimits { daily_tokens: None, weekly_tokens: None };
    let daily_cost: f64 = 10.0;
    let r = check_budget(&entries, &limits, now + 200, daily_cost > 5.0, false);
    assert_eq!(r.alert, Some(BudgetLimitKind::DailyCost));
}

#[test]
fn test_within_budget_no_alert() {
    let now: u64 = 86400 * 10;
    let entries = vec![usage(now + 100, 500)];
    let limits = TokenLimits { daily_tokens: Some(1000), weekly_tokens: None };
    assert!(check_budget(&entries, &limits, now + 200, false, false).alert.is_none());
}

#[test]
fn test_old_session_not_counted_for_daily() {
    let now: u64 = 86400 * 10;
    let entries = vec![usage(now - 100, 500)];
    let limits = TokenLimits { daily_tokens: Some(100), weekly_tokens: None };
    assert!(check_budget(&entries, &limits, now + 100, false, false).alert.is_none());
}

#[test]
fn test_weekly_token_budget_exceeded() {
    let now: u64 = 86400 * 10 + 100;
    let entries = vec![usage(86400 * 8, 200)];
    let limits = TokenLimits { daily_tokens: None, weekly_tokens: Some(100) };
    let r = check_budget(&entries, &limits, now, false, false);
    assert_eq!(r.alert, Some(BudgetLimitKind::WeeklyTokens));
}

#[test]
fn test_cumulative_daily_usage() {
    let now: u64 = 86400 * 10;
    let entries = vec![usage(now + 100, 100), usage(now + 200, 100)];
    let limits = TokenLimits { daily_tokens: Some(150), weekly_tokens: None };
    let r = check_budget(&entries, &limits, now + 300, false, false);
    assert_eq!(r.daily_tokens, 200);
    assert_eq!(r.alert, Some(BudgetLimitKind::DailyTokens));
}

#[test]
fn weekly_usage_covers_daily_usage() {
    let now: u64 = 86400 * 10 + 500;
    let entries = vec![usage(86400 * 8, 70), usage(now - 10, 30), UsageEntry { last_active: now, tokens: None }];
    let limits = TokenLimits { daily_tokens: None, weekly_tokens: None };
    let r = check_budget(&entries, &limits, now, false, false);
    assert_eq!(r.daily_tokens, 30);
    assert_eq!(r.weekly_tokens, 100);
    assert!(r.weekly_tokens >= r.daily_tokens);
}

#[test]
fn weekday_of_epoch_is_thursday() {
    assert_eq!(now_secs_of_weekday(0), 4);
    assert_eq!(now_secs_of_weekday(86400 * 4), 1);
    assert_eq!(now_secs_of_weekday(86400 * 3 + 86399), 7);
}

#[test]
fn budget_alert_opens_warning_once() {
    let mut app = fresh_state();
    assert!(app.apply_budget_alert(Some("over".into())));
    assert_eq!(app.input_mode, amux::state::InputMode::BudgetWarning);
    app.input_mode = amux::state::InputMode::Normal;
    assert!(!app.apply_budget_alert(Some("over".into())));
    assert_eq!(app.input_mode, amux::state::InputMode::Normal);
    assert!(!app.apply_budget_alert(None));
    assert!(app.budget_alert.is_none());
}

#[test]
fn trim_follows_unicode_white_space() {
    for s in ["\u{3000}x\u{85}", "\t a b \u{2028}", "\u{a0}\u{1680}", "\u{200b}x", "plain"] {
        assert_eq!(amux::text::trim(s), s.trim());
    }
}

#[test]
fn relative_times() {
    assert_eq!(amux::display::relative_time(1000, 1000), "just now");
    assert_eq!(amux::display::relative_time(1000, 2000), "just now");
    assert_eq!(amux::display::relative_time(400, 100), "5m ago");
    assert_eq!(amux::display::relative_time(7300, 100), "2h ago");
    assert_eq!(amux::display::relative_time(3 * 86400 + 5, 5), "3d ago");
}
