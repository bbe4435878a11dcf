use nano::highlight::{
    join, spelling, Color, HighlightError, Highlighter, RowContent, Style, StyledSpan,
};

fn rgba(r: u8, g: u8, b: u8, a: u8) -> Color {
    Color { r, g, b, a }
}

fn span(text: &str, foreground: Color, background: Color) -> StyledSpan {
    StyledSpan { text: String::from(text), style: Style { foreground, background, font_style: 0 } }
}

fn black() -> Color {
    rgba(0, 0, 0, 255)
}

#[test]
fn highlight_spans_spell_the_text() {
    let highlighter = Highlighter::new();
    let text = "fn main() { let x = \"😀\"; }";
    let spans = highlighter.highlight(text, "rs", "base16-ocean.dark").unwrap();
    assert!(spans.len() > 1);
    assert_eq!(join(&spans), text);
    let empty = highlighter.highlight("", "rs", "base16-ocean.dark").unwrap();
    assert_eq!(join(&empty), "");
}

#[test]
fn highlight_colours_differ_within_a_line() {
    let highlighter = Highlighter::new();
    let spans = highlighter.highlight("fn main() {}", "rs", "base16-mocha.dark").unwrap();
    let first = spans[0].style.foreground;
    assert!(spans.iter().any(|span| span.style.foreground != first));
}

#[test]
fn unknown_language_is_unsupported() {
    let highlighter = Highlighter::new();
    let outcome = highlighter.highlight("let x = 1;", "xyz", "base16-ocean.dark");
    assert_eq!(outcome, Err(HighlightError::UnsupportedLanguage));
    let outcome = highlighter.highlight("let x = 1;", "", "base16-ocean.dark");
    assert_eq!(outcome, Err(HighlightError::UnsupportedLanguage));
}

#[test]
fn unknown_theme_is_missing() {
    let highlighter = Highlighter::new();
    let outcome = highlighter.highlight("let x = 1;", "rs", "no-such-theme");
    assert_eq!(outcome, Err(HighlightError::ThemeMissing));
}

#[test]
fn unknown_language_is_reported_before_unknown_theme() {
    let highlighter = Highlighter::new();
    let outcome = highlighter.highlight("let x = 1;", "xyz", "no-such-theme");
    assert_eq!(outcome, Err(HighlightError::UnsupportedLanguage));
}

#[test]
fn language_tag_is_matched_without_regard_to_case() {
    let highlighter = Highlighter::new();
    assert!(highlighter.highlight("fn f() {}", "RS", "base16-ocean.dark").is_ok());
}

#[test]
fn spelling_accepts_spans_that_spell_the_text() {
    let spans = vec![span("ab", black(), black()), span("", black(), black()), span("c", black(), black())];
    assert_eq!(spelling(spans.clone(), "abc"), Ok(spans));
    assert_eq!(spelling(Vec::new(), ""), Ok(Vec::new()));
}

#[test]
fn spelling_rejects_dropped_or_doubled_characters() {
    let spans = vec![span("ab", black(), black()), span("c", black(), black())];
    assert_eq!(spelling(spans.clone(), "abcd"), Err(HighlightError::Failed));
    assert_eq!(spelling(spans.clone(), "ab"), Err(HighlightError::Failed));
    assert_eq!(spelling(spans, "acb"), Err(HighlightError::Failed));
    assert_eq!(spelling(Vec::new(), "a"), Err(HighlightError::Failed));
}

#[test]
fn failed_highlight_gives_the_plain_text() {
    let row = RowContent::from_outcome(
        Err(HighlightError::UnsupportedLanguage),
        String::from("let x = 1;"),
    );
    assert_eq!(
        row,
        RowContent::Plain(String::from("let x = 1;"), HighlightError::UnsupportedLanguage)
    );
    assert_eq!(row.to_terminal_text(), "let x = 1;");
    let row = RowContent::from_outcome(Err(HighlightError::ThemeMissing), String::from("x"));
    assert_eq!(row, RowContent::Plain(String::from("x"), HighlightError::ThemeMissing));
}

#[test]
fn successful_highlight_gives_the_spans() {
    let spans = vec![span("let", rgba(1, 2, 3, 255), black())];
    let row = RowContent::from_outcome(Ok(spans.clone()), String::from("let"));
    assert_eq!(row, RowContent::Styled(spans));
}

#[test]
fn terminal_text_sets_the_foreground_before_each_span() {
    let row = RowContent::Styled(vec![
        span("ab", rgba(1, 20, 255, 255), rgba(9, 9, 9, 255)),
        span("😀", rgba(0, 0, 0, 255), rgba(9, 9, 9, 255)),
    ]);
    assert_eq!(row.to_terminal_text(), "\u{1b}[38;2;1;20;255mab\u{1b}[38;2;0;0;0m😀");
    assert_eq!(RowContent::Styled(Vec::new()).to_terminal_text(), "");
}

#[test]
fn terminal_text_blends_a_transparent_foreground() {
    let row = RowContent::Styled(vec![span("x", rgba(200, 100, 0, 128), rgba(0, 0, 255, 255))]);
    assert_eq!(row.to_terminal_text(), "\u{1b}[38;2;100;50;127mx");
    let row = RowContent::Styled(vec![span("x", rgba(200, 100, 7, 0), rgba(10, 20, 30, 255))]);
    assert_eq!(row.to_terminal_text(), "\u{1b}[38;2;10;20;30mx");
}

#[test]
fn past_end_mark_is_a_tilde() {
    assert_eq!(RowContent::PastEnd.to_terminal_text(), "~");
}

const DEFAULT_THEMES: [&str; 7] = [
    "InspiredGitHub",
    "Solarized (dark)",
    "Solarized (light)",
    "base16-eighties.dark",
    "base16-mocha.dark",
    "base16-ocean.dark",
    "base16-ocean.light",
];

#[test]
fn new_highlighter_knows_the_default_themes() {
    let highlighter = Highlighter::new();
    for theme in DEFAULT_THEMES {
        assert!(highlighter.highlight("fn f() {}", "rs", theme).is_ok());
    }
    for theme in ["Monokai", "", "base16-ocean", "inspiredgithub", "Solarized"] {
        let outcome = highlighter.highlight("fn f() {}", "rs", theme);
        assert_eq!(outcome, Err(HighlightError::ThemeMissing));
    }
}

#[test]
fn default_themes_are_all_that_the_set_holds() {
    let themes = syntect::highlighting::ThemeSet::load_defaults();
    let names: Vec<&str> = themes.themes.keys().map(|name| name.as_str()).collect();
    assert_eq!(names, DEFAULT_THEMES);
}
