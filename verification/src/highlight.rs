//! Colouring a row of text: styled spans from `syntect`, checked to spell
//! the text they were made from, and the escape codes that show them.

use crate::format::decimal;
use syntect::easy::HighlightLines;
use syntect::highlighting::{FontStyle, Theme, ThemeSet};
use syntect::parsing::{SyntaxReference, SyntaxSet};
use syntect::util::as_24_bit_terminal_escaped;
use vstd::prelude::*;

verus! {

/// A colour with its transparency.
#[derive(Debug, Clone, Copy, PartialEq, Eq, Structural)]
pub struct Color {
    pub r: u8,
    pub g: u8,
    pub b: u8,
    pub a: u8,
}

/// How a span is drawn: two colours and the font's bits (1 bold,
/// 2 underline, 4 italic).
#[derive(Debug, Clone, Copy, PartialEq, Eq, Structural)]
pub struct Style {
    pub foreground: Color,
    pub background: Color,
    pub font_style: u8,
}

/// A run of text with the style to draw it in.
#[derive(Debug, Clone, PartialEq, Eq)]
pub struct StyledSpan {
    pub text: String,
    pub style: Style,
}

impl View for StyledSpan {
    type V = (Seq<char>, Style);

    open spec fn view(&self) -> (Seq<char>, Style) {
        (self.text@, self.style)
    }
}

/// Why a row could not be coloured.
#[derive(Debug, Clone, Copy, PartialEq, Eq, Structural)]
pub enum HighlightError {
    /// No grammar is known for the language tag.
    UnsupportedLanguage,
    /// No theme has the name asked for.
    ThemeMissing,
    /// The highlighter failed on the text, or its spans do not spell it.
    Failed,
}

/// The views of a run of spans.
pub open spec fn span_views(spans: Seq<StyledSpan>) -> Seq<(Seq<char>, Style)> {
    Seq::new(spans.len(), |i: int| spans[i]@)
}

/// The text that a run of spans spells.
pub open spec fn joined(spans: Seq<(Seq<char>, Style)>) -> Seq<char>
    decreases spans.len(),
{
    if spans.len() == 0 {
        Seq::empty()
    } else {
        joined(spans.drop_last()) + spans.last().0
    }
}

/// One channel of a foreground of transparency `alpha` laid over a background.
pub open spec fn blend_channel(fg: u8, bg: u8, alpha: u8) -> u8 {
    ((fg * alpha + bg * (255 - alpha)) / 255) as u8
}

/// The colour a span's text is drawn in: its foreground, laid over its
/// background where it is not opaque.
pub open spec fn blended(style: Style) -> Color {
    let fg = style.foreground;
    let bg = style.background;
    if fg.a == 255 {
        fg
    } else {
        Color {
            r: blend_channel(fg.r, bg.r, fg.a),
            g: blend_channel(fg.g, bg.g, fg.a),
            b: blend_channel(fg.b, bg.b, fg.a),
            a: 255,
        }
    }
}

/// A span as the terminal takes it: the code that sets a 24-bit foreground,
/// then the text.
pub open spec fn escaped_span(span: (Seq<char>, Style)) -> Seq<char> {
    let fg = blended(span.1);
    "\x1b[38;2;"@ + decimal(fg.r as nat) + ";"@ + decimal(fg.g as nat) + ";"@ + decimal(
        fg.b as nat,
    ) + "m"@ + span.0
}

/// A run of spans as the terminal takes it.
pub open spec fn escaped(spans: Seq<(Seq<char>, Style)>) -> Seq<char>
    decreases spans.len(),
{
    if spans.len() == 0 {
        Seq::empty()
    } else {
        escaped(spans.drop_last()) + escaped_span(spans.last())
    }
}

#[verifier::external_type_specification]
#[verifier::external_body]
pub struct ExSyntaxSet(SyntaxSet);

#[verifier::external_type_specification]
#[verifier::external_body]
pub struct ExSyntaxReference(SyntaxReference);

#[verifier::external_type_specification]
#[verifier::external_body]
pub struct ExThemeSet(ThemeSet);

#[verifier::external_type_specification]
#[verifier::external_body]
pub struct ExTheme(Theme);

#[verifier::external_type_specification]
#[verifier::external_body]
pub struct ExSyntectError(syntect::Error);

/// The file extensions that the grammars of a set list.
pub uninterp spec fn listed_extensions(syntaxes: SyntaxSet) -> Set<Seq<char>>;

/// Whether a grammar is one of those that a set holds.
pub uninterp spec fn holds_grammar(syntaxes: SyntaxSet, syntax: SyntaxReference) -> bool;

/// The grammar that a set gives for a file extension, where it gives one.
pub uninterp spec fn grammar_for(syntaxes: SyntaxSet, extension: Seq<char>) -> Option<
    SyntaxReference,
>;

/// The theme that a set holds under a name, where it holds one.
pub uninterp spec fn theme_for(themes: ThemeSet, name: Seq<char>) -> Option<Theme>;

/// The spans that the highlighter cuts a text into, as the first line of a
/// source in a grammar of the set, with the styles of a theme; none where
/// it fails on the text.
pub uninterp spec fn highlighted(
    syntaxes: SyntaxSet,
    syntax: SyntaxReference,
    theme: Theme,
    text: Seq<char>,
) -> Option<Seq<(Seq<char>, Style)>>;

/// The names under which a set holds its themes.
pub uninterp spec fn theme_names(themes: ThemeSet) -> Set<Seq<char>>;

/// Whether `c` is one of the letters `A` to `Z`.
pub open spec fn is_ascii_upper(c: char) -> bool {
    0x41 <= c as u32 <= 0x5a
}

/// Whether two characters are the same, or the same letter of `a` to `z`
/// in different case.
pub open spec fn same_letter(a: char, b: char) -> bool {
    ||| a == b
    ||| is_ascii_upper(a) && b as u32 == a as u32 + 0x20
    ||| is_ascii_upper(b) && a as u32 == b as u32 + 0x20
}

/// Whether two texts are the same but for the case of the letters `a` to `z`.
pub open spec fn same_ignoring_ascii_case(a: Seq<char>, b: Seq<char>) -> bool {
    &&& a.len() == b.len()
    &&& forall|i: int| 0 <= i < a.len() ==> same_letter(#[trigger] a[i], b[i])
}

/// Whether one of `extensions` is `tag`, but for the case of its letters.
pub open spec fn lists_extension(extensions: Set<Seq<char>>, tag: Seq<char>) -> bool {
    exists|extension: Seq<char>|
        #[trigger] extensions.contains(extension) && same_ignoring_ascii_case(extension, tag)
}

/// `SyntaxSet::load_defaults_newlines` unpacks the grammars that `syntect`
/// carries. Nothing is claimed of them.
pub assume_specification[ SyntaxSet::load_defaults_newlines ]() -> (syntaxes: SyntaxSet)
;

/// The names of the themes that `syntect` carries.
pub open spec fn default_theme_names() -> Set<Seq<char>> {
    set![
        "base16-ocean.dark"@,
        "base16-eighties.dark"@,
        "base16-mocha.dark"@,
        "base16-ocean.light"@,
        "InspiredGitHub"@,
        "Solarized (dark)"@,
        "Solarized (light)"@,
    ]
}

/// `ThemeSet::load_defaults` unpacks the themes that `syntect` carries.
///
/// Trusted: the set holds them under the seven names that the function's
/// documentation gives as the keys of its map, and under no other. Nothing
/// is claimed of the themes themselves.
pub assume_specification[ ThemeSet::load_defaults ]() -> (themes: ThemeSet)
    ensures
        theme_names(themes) == default_theme_names(),
;

/// `SyntaxSet::find_syntax_by_extension` looks for a grammar that lists the
/// extension.
///
/// Trusted: it finds one exactly where a grammar of the set lists an
/// extension that is the given one but for ASCII case, and what it finds is
/// a grammar of the set. Which one it finds depends on the set and the
/// extension alone, and has the name `grammar_for`.
pub assume_specification<'a>[ SyntaxSet::find_syntax_by_extension ](
    syntaxes: &'a SyntaxSet,
    extension: &str,
) -> (syntax: Option<&'a SyntaxReference>)
    ensures
        syntax is Some <==> lists_extension(listed_extensions(*syntaxes), extension@),
        syntax matches Some(found) ==> holds_grammar(*syntaxes, *found),
        syntax matches Some(found) ==> grammar_for(*syntaxes, extension@) == Some(*found),
        syntax is None ==> grammar_for(*syntaxes, extension@) is None,
;

/// Looks a theme up by its name in the map that a `ThemeSet` holds
/// (`BTreeMap::get` on its field `themes`).
///
/// Trusted: it finds a theme exactly where the map has the name as a key.
/// Which theme it finds depends on the set and the name alone, and has the
/// name `theme_for`.
#[verifier::external_body]
fn theme_named<'a>(themes: &'a ThemeSet, name: &str) -> (theme: Option<&'a Theme>)
    ensures
        theme is Some <==> theme_names(*themes).contains(name@),
        theme matches Some(found) ==> theme_for(*themes, name@) == Some(*found),
        theme is None ==> theme_for(*themes, name@) is None,
{
    themes.themes.get(name)
}

/// Runs `HighlightLines::highlight_line` on `text`, with a fresh state, as
/// the first line of a source in the given grammar, and copies each styled
/// piece into a span. The grammar has to be one of the set, which the
/// parser looks its contexts up in.
///
/// Trusted: whether it fails, and the spans it gives, depend on the four
/// arguments alone, and have the name `highlighted`. Nothing is claimed of
/// what the spans are: the caller checks them against the text.
#[verifier::external_body]
fn highlight_line(
    syntaxes: &SyntaxSet,
    syntax: &SyntaxReference,
    theme: &Theme,
    text: &str,
) -> (outcome: Result<Vec<StyledSpan>, syntect::Error>)
    requires
        holds_grammar(*syntaxes, *syntax),
    ensures
        outcome matches Ok(spans) ==> highlighted(*syntaxes, *syntax, *theme, text@) == Some(
            span_views(spans@),
        ),
        outcome is Err ==> highlighted(*syntaxes, *syntax, *theme, text@) is None,
{
    let mut lines = HighlightLines::new(syntax, theme);
    let ranges = lines.highlight_line(text, syntaxes)?;
    Ok(ranges.into_iter().map(|(style, piece)| {
        let (fg, bg) = (style.foreground, style.background);
        let foreground = Color { r: fg.r, g: fg.g, b: fg.b, a: fg.a };
        let background = Color { r: bg.r, g: bg.g, b: bg.b, a: bg.a };
        let style = Style { foreground, background, font_style: style.font_style.bits() };
        StyledSpan { text: piece.to_string(), style }
    }).collect())
}

/// Calls `syntect::util::as_24_bit_terminal_escaped` on the spans, without
/// background colours.
///
/// Trusted: for each span in turn it writes the escape code that sets the
/// foreground to the span's blended colour, its three channels in decimal,
/// and then the span's text; it writes nothing else.
#[verifier::external_body]
fn escape(spans: &Vec<StyledSpan>) -> (text: String)
    ensures
        text@ == escaped(span_views(spans@)),
{
    let ranges: Vec<(syntect::highlighting::Style, &str)> = spans.iter().map(|span| {
        let Style { foreground: fg, background: bg, font_style } = span.style;
        let foreground = syntect::highlighting::Color { r: fg.r, g: fg.g, b: fg.b, a: fg.a };
        let background = syntect::highlighting::Color { r: bg.r, g: bg.g, b: bg.b, a: bg.a };
        let font_style = FontStyle::from_bits_truncate(font_style);
        (syntect::highlighting::Style { foreground, background, font_style }, span.text.as_str())
    }).collect();
    as_24_bit_terminal_escaped(&ranges[..], false)
}

/// The text that the spans spell.
pub fn join(spans: &Vec<StyledSpan>) -> (text: String)
    ensures
        text@ == joined(span_views(spans@)),
{
    let mut text = String::new();
    let ghost views = span_views(spans@);
    assert(views.subrange(0, 0) =~= Seq::empty());
    for i in 0..spans.len()
        invariant
            views == span_views(spans@),
            text@ == joined(views.subrange(0, i as int)),
    {
        assert(views.subrange(0, i + 1).drop_last() =~= views.subrange(0, i as int));
        text.append(spans[i].text.as_str());
    }
    assert(views.subrange(0, spans.len() as int) =~= views);
    text
}

/// Accepts the spans where they spell `text`, character for character, and
/// fails otherwise.
pub fn spelling(spans: Vec<StyledSpan>, text: &str) -> (outcome: Result<
    Vec<StyledSpan>,
    HighlightError,
>)
    ensures
        joined(span_views(spans@)) == text@ ==> outcome == Ok::<_, HighlightError>(spans),
        joined(span_views(spans@)) != text@ ==> outcome == Err::<Vec<StyledSpan>, _>(
            HighlightError::Failed,
        ),
{
    let spelled = join(&spans);
    if spelled == String::from_str(text) {
        Ok(spans)
    } else {
        Err(HighlightError::Failed)
    }
}

/// The grammars and themes that rows are coloured with, loaded once.
pub struct Highlighter {
    syntaxes: SyntaxSet,
    themes: ThemeSet,
}

impl Highlighter {
    /// The file extensions that the grammars list.
    pub closed spec fn extensions(&self) -> Set<Seq<char>> {
        listed_extensions(self.syntaxes)
    }

    /// The names of the themes.
    pub closed spec fn themes(&self) -> Set<Seq<char>> {
        theme_names(self.themes)
    }

    /// Why no row can be coloured for a language tag and a theme, if that
    /// is so: no grammar lists the tag, or else no theme has the name.
    pub open spec fn refusal(&self, language_tag: Seq<char>, theme: Seq<char>) -> Option<
        HighlightError,
    > {
        if !lists_extension(self.extensions(), language_tag) {
            Some(HighlightError::UnsupportedLanguage)
        } else if !self.themes().contains(theme) {
            Some(HighlightError::ThemeMissing)
        } else {
            None
        }
    }

    /// The spans that the highlighter cuts `text` into for a language tag
    /// and a theme; none where the tag has no grammar, the name no theme,
    /// or the highlighter fails on the text.
    pub closed spec fn coloured(
        &self,
        language_tag: Seq<char>,
        theme: Seq<char>,
        text: Seq<char>,
    ) -> Option<Seq<(Seq<char>, Style)>> {
        match (grammar_for(self.syntaxes, language_tag), theme_for(self.themes, theme)) {
            (Some(syntax), Some(theme)) => highlighted(self.syntaxes, syntax, theme, text),
            _ => None,
        }
    }

    /// What colouring `text` comes to: the refusal where there is one; else
    /// the highlighter's spans where it gives spans and they spell `text`;
    /// else `Failed`.
    pub open spec fn outcome_of(
        &self,
        language_tag: Seq<char>,
        theme: Seq<char>,
        text: Seq<char>,
    ) -> Result<Seq<(Seq<char>, Style)>, HighlightError> {
        match self.refusal(language_tag, theme) {
            Some(cause) => Err(cause),
            None => match self.coloured(language_tag, theme, text) {
                Some(spans) => if joined(spans) == text {
                    Ok(spans)
                } else {
                    Err(HighlightError::Failed)
                },
                None => Err(HighlightError::Failed),
            },
        }
    }

    /// Loads the grammars and the themes that `syntect` carries: the themes
    /// are those of `default_theme_names`.
    pub fn new() -> (highlighter: Highlighter)
        ensures
            highlighter.themes() == default_theme_names(),
    {
        Highlighter {
            syntaxes: SyntaxSet::load_defaults_newlines(),
            themes: ThemeSet::load_defaults(),
        }
    }

    /// Colours `text` as a line in the language of `language_tag` with the
    /// theme named `theme`. It fails with `UnsupportedLanguage` where no
    /// grammar lists the tag, else with `ThemeMissing` where no theme has
    /// the name, else with `Failed` where the highlighter fails or hands
    /// back spans that do not spell `text`. Spans that come back always
    /// spell `text`.
    pub fn highlight(&self, text: &str, language_tag: &str, theme: &str) -> (outcome: Result<
        Vec<StyledSpan>,
        HighlightError,
    >)
        ensures
            outcome matches Ok(spans) ==> self.outcome_of(language_tag@, theme@, text@) == Ok::<
                _,
                HighlightError,
            >(span_views(spans@)),
            outcome matches Err(cause) ==> self.outcome_of(language_tag@, theme@, text@) == Err::<
                Seq<(Seq<char>, Style)>,
                _,
            >(cause),
            outcome matches Ok(spans) ==> joined(span_views(spans@)) == text@,
            self.refusal(language_tag@, theme@) matches Some(cause) ==> outcome == Err::<
                Vec<StyledSpan>,
                _,
            >(cause),
            self.refusal(language_tag@, theme@) is None ==> (outcome is Ok <==> (self.coloured(
                language_tag@,
                theme@,
                text@,
            ) matches Some(spans) && joined(spans) == text@)),
            self.refusal(language_tag@, theme@) is None ==> outcome is Ok || outcome == Err::<
                Vec<StyledSpan>,
                _,
            >(HighlightError::Failed),
    {
        match self.syntaxes.find_syntax_by_extension(language_tag) {
            None => Err(HighlightError::UnsupportedLanguage),
            Some(syntax) => match theme_named(&self.themes, theme) {
                None => Err(HighlightError::ThemeMissing),
                Some(theme) => match highlight_line(&self.syntaxes, syntax, theme, text) {
                    Err(_) => Err(HighlightError::Failed),
                    Ok(spans) => spelling(spans, text),
                },
            },
        }
    }
}

/// What one row of the frame shows.
#[derive(Debug, Clone, PartialEq, Eq)]
pub enum RowContent {
    /// Coloured spans.
    Styled(Vec<StyledSpan>),
    /// Text without colour, and why it has none.
    Plain(String, HighlightError),
    /// The mark of a row below the last row of the document.
    PastEnd,
}

/// The mark shown in a row below the last row of the document.
pub const PAST_END_MARK: &'static str = "~";

impl RowContent {
    /// The text that the row shows, without escape codes.
    pub open spec fn shown(&self) -> Seq<char> {
        match self {
            RowContent::Styled(spans) => joined(span_views(spans@)),
            RowContent::Plain(text, _) => text@,
            RowContent::PastEnd => PAST_END_MARK@,
        }
    }

    /// Whether the row is what colouring `text` leads to, given what the
    /// colouring came to: those spans where it succeeded, and `text`
    /// itself, plain, with the cause where it failed.
    pub open spec fn follows(
        &self,
        outcome: Result<Seq<(Seq<char>, Style)>, HighlightError>,
        text: Seq<char>,
    ) -> bool {
        match outcome {
            Ok(views) => self matches RowContent::Styled(spans) && span_views(spans@) == views,
            Err(cause) => self matches RowContent::Plain(plain, why) && plain@ == text && why
                == cause,
        }
    }

    /// The characters sent to the terminal for the row.
    pub open spec fn sent(&self) -> Seq<char> {
        match self {
            RowContent::Styled(spans) => escaped(span_views(spans@)),
            RowContent::Plain(text, _) => text@,
            RowContent::PastEnd => PAST_END_MARK@,
        }
    }

    /// The content for a row of text, given what highlighting it came to:
    /// the spans where it succeeded, and the text itself, uncoloured, where
    /// it failed.
    pub fn from_outcome(outcome: Result<Vec<StyledSpan>, HighlightError>, text: String) -> (row:
        RowContent)
        ensures
            outcome matches Ok(spans) ==> row == RowContent::Styled(spans),
            outcome matches Err(cause) ==> row == RowContent::Plain(text, cause),
    {
        match outcome {
            Ok(spans) => RowContent::Styled(spans),
            Err(cause) => RowContent::Plain(text, cause),
        }
    }

    /// The characters to send to the terminal for the row.
    pub fn to_terminal_text(&self) -> (text: String)
        ensures
            text@ == self.sent(),
    {
        match self {
            RowContent::Styled(spans) => escape(spans),
            RowContent::Plain(text, _) => text.clone(),
            RowContent::PastEnd => String::from_str(PAST_END_MARK),
        }
    }
}

} // verus!
