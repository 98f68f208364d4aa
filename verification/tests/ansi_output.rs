use amux::ansi::{ansi_runs, apply_sgr_code, apply_sgr_params, AnsiColor, AnsiStyle, StyledRun};

fn plain() -> AnsiStyle {
    AnsiStyle { fg: None, bold: false, italic: false, underlined: false }
}

fn view(runs: &[StyledRun]) -> Vec<(String, AnsiStyle)> {
    runs.iter().map(|r| (r.text.clone(), r.style)).collect()
}

#[test]
fn plain_text_is_one_unstyled_run() {
    assert_eq!(view(&ansi_runs("hello world")), vec![("hello world".to_string(), plain())]);
}

#[test]
fn color_code_styles_following_text() {
    let red = AnsiStyle { fg: Some(AnsiColor::Red), ..plain() };
    assert_eq!(
        view(&ansi_runs("\x1b[31mred\x1b[0m plain")),
        vec![("red".to_string(), red), (" plain".to_string(), plain())]
    );
}

#[test]
fn several_codes_in_one_sequence() {
    let style = AnsiStyle { fg: None, bold: true, italic: false, underlined: true };
    assert_eq!(view(&ansi_runs("a\x1b[1;4mX")), vec![("a".to_string(), plain()), ("X".to_string(), style)]);
}

#[test]
fn code_22_clears_bold_only() {
    let s = AnsiStyle { fg: Some(AnsiColor::Green), ..plain() };
    assert_eq!(view(&ansi_runs("\x1b[1;32m\x1b[22mg")), vec![("g".to_string(), s)]);
}

#[test]
fn out_of_range_and_empty_fields_are_ignored() {
    let s = AnsiStyle { fg: Some(AnsiColor::LightCyan), ..plain() };
    assert_eq!(view(&ansi_runs("\x1b[999;;96mx")), vec![("x".to_string(), s)]);
}

#[test]
fn only_escape_sequences_give_the_raw_line() {
    assert_eq!(view(&ansi_runs("\x1b[31m")), vec![("\x1b[31m".to_string(), plain())]);
    assert_eq!(view(&ansi_runs("")), vec![(String::new(), plain())]);
}

#[test]
fn escape_without_bracket_is_text() {
    assert_eq!(view(&ansi_runs("a\x1bb")), vec![("a\x1bb".to_string(), plain())]);
}

#[test]
fn sequence_without_letter_keeps_the_next_character() {
    let s = AnsiStyle { fg: Some(AnsiColor::Blue), ..plain() };
    assert_eq!(view(&ansi_runs("\x1b[34 x")), vec![(" x".to_string(), s)]);
}

#[test]
fn bright_colors_and_attributes() {
    assert_eq!(apply_sgr_code(plain(), 90).fg, Some(AnsiColor::DarkGray));
    assert_eq!(apply_sgr_code(plain(), 97).fg, Some(AnsiColor::Gray));
    assert!(apply_sgr_code(plain(), 3).italic);
    assert_eq!(apply_sgr_code(plain(), 38), plain());
    let all = AnsiStyle { fg: Some(AnsiColor::Yellow), bold: true, italic: true, underlined: true };
    assert_eq!(apply_sgr_code(all, 0), plain());
}

#[test]
fn parameter_list_applies_fields_in_order() {
    let p: Vec<char> = "33;0;35".chars().collect();
    let s = apply_sgr_params(plain(), &p);
    assert_eq!(s, AnsiStyle { fg: Some(AnsiColor::Magenta), ..plain() });
    let leading_zeros: Vec<char> = "0031".chars().collect();
    assert_eq!(apply_sgr_params(plain(), &leading_zeros).fg, Some(AnsiColor::Red));
}
