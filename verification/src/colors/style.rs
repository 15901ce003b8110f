//! Style descriptions, styled values and the named styles.

use crate::colors::ansi::display_text;
use crate::colors::text::render_text;
use crate::colors::text::rendered;
use crate::colors::text::RenderError;
use crate::env::EnvSignals;
use crate::state::use_color;
use crate::state::TerminalState;
use core::fmt::Display;
use vstd::prelude::*;
use vstd::string::to_string_from_display_ensures;

verus! {

/// A color of the terminal's palette.
#[derive(Clone, Copy, Debug, PartialEq, Eq, Structural)]
pub enum Color {
    Black,
    Blue,
    Green,
    Red,
    Cyan,
    Magenta,
    Yellow,
    White,
    /// A color of the 256-color palette, by its index.
    Ansi256(u8),
}

/// The visual attributes of a span of text.
#[derive(Clone, Copy, Debug, PartialEq, Eq, Structural)]
pub struct StyleSpec {
    /// The foreground color, if one is set.
    pub fg: Option<Color>,
    /// The background color, if one is set.
    pub bg: Option<Color>,
    pub bold: bool,
    pub dimmed: bool,
    pub italic: bool,
    pub underline: bool,
    /// Whether the named colors are shown in their high-intensity variant.
    pub intense: bool,
}

impl StyleSpec {
    /// The style without colors or attributes.
    pub open spec fn plain() -> StyleSpec {
        StyleSpec {
            fg: None,
            bg: None,
            bold: false,
            dimmed: false,
            italic: false,
            underline: false,
            intense: false,
        }
    }

    /// The style without colors or attributes.
    pub fn new() -> (spec: StyleSpec)
        ensures
            spec == StyleSpec::plain(),
    {
        StyleSpec {
            fg: None,
            bg: None,
            bold: false,
            dimmed: false,
            italic: false,
            underline: false,
            intense: false,
        }
    }
}

/// A payload together with the style it is to be shown in.
///
/// The text is produced when the value is rendered, not when it is made, so
/// that one value can come out styled or plain as the use-color flag stands
/// at that moment.
#[derive(Debug)]
pub struct Style<I: Display> {
    colorspec: StyleSpec,
    inner: I,
}

/// Mathematical model of a [`Style`].
pub struct StyleView<I> {
    pub colorspec: StyleSpec,
    pub inner: I,
}

impl<I: Display> View for Style<I> {
    type V = StyleView<I>;

    closed spec fn view(&self) -> StyleView<I> {
        StyleView { colorspec: self.colorspec, inner: self.inner }
    }
}

impl<I: Display> StyleView<I> {
    /// `span` is a rendering of this value. With color off, it is a text
    /// that the payload's `Display` impl writes. With color on, it is such a
    /// text between the start sequence of the style and the reset sequence.
    pub open spec fn renders_to(self, span: String, use_color: bool) -> bool {
        if use_color {
            exists|text: String| #[trigger]
                to_string_from_display_ensures::<I>(&self.inner, text) && span@ == rendered(
                    self.colorspec,
                    text@,
                    true,
                )
        } else {
            to_string_from_display_ensures::<I>(&self.inner, span)
        }
    }
}

impl<I: Display> Style<I> {
    /// The style of this value.
    pub fn colorspec(&self) -> (colorspec: StyleSpec)
        ensures
            colorspec == self@.colorspec,
    {
        self.colorspec
    }

    /// The payload of this value.
    pub fn inner(&self) -> (inner: &I)
        ensures
            *inner == self@.inner,
    {
        &self.inner
    }

    /// Renders the value with the flag given: the payload's text, wrapped in
    /// escape sequences where `use_color` holds and as it is where not.
    ///
    /// The payload's text is what its `Display` impl writes. Rendering fails
    /// only where that impl reports an error.
    pub fn render_with(&self, use_color: bool) -> (out: Result<String, RenderError>)
        ensures
            match out {
                Ok(span) => self@.renders_to(span, use_color),
                Err(error) => error == RenderError::Format,
            },
    {
        match display_text(&self.inner) {
            Some(text) => {
                assert(to_string_from_display_ensures::<I>(&self@.inner, text));
                if use_color {
                    Ok(render_text(&self.colorspec, text.as_str(), true))
                } else {
                    Ok(text)
                }
            },
            None => Err(RenderError::Format),
        }
    }

    /// Renders the value as the use-color flag of `state` stands now. The
    /// flag is read once, before anything is rendered.
    pub fn render(&self, state: &mut TerminalState, env: &EnvSignals) -> (out: Result<
        String,
        RenderError,
    >)
        ensures
            final(state)@ == old(state)@.after_use_color(env@),
            match out {
                Ok(span) => self@.renders_to(span, old(state)@.use_color_in(env@)),
                Err(error) => error == RenderError::Format,
            },
    {
        let flag = use_color(state, env);
        self.render_with(flag)
    }
}

/// The payload `s` in the style `colorspec`.
fn style<S: Display>(s: S, colorspec: StyleSpec) -> (styled: Style<S>)
    ensures
        styled@.inner == s,
        styled@.colorspec == colorspec,
{
    Style { colorspec, inner: s }
}

/// Bold red: marks an error.
pub fn red_bold<S: Display>(s: S) -> (styled: Style<S>)
    ensures
        styled@.inner == s,
        styled@.colorspec == (StyleSpec { fg: Some(Color::Red), bold: true, ..StyleSpec::plain() }),
{
    style(s, StyleSpec { fg: Some(Color::Red), bold: true, ..StyleSpec::new() })
}

/// Bold green: marks a success.
pub fn green_bold<S: Display>(s: S) -> (styled: Style<S>)
    ensures
        styled@.inner == s,
        styled@.colorspec == (StyleSpec {
            fg: Some(Color::Green),
            bold: true,
            ..StyleSpec::plain()
        }),
{
    style(s, StyleSpec { fg: Some(Color::Green), bold: true, ..StyleSpec::new() })
}

/// Bold yellow: marks a warning.
pub fn yellow_bold<S: Display>(s: S) -> (styled: Style<S>)
    ensures
        styled@.inner == s,
        styled@.colorspec == (StyleSpec {
            fg: Some(Color::Yellow),
            bold: true,
            ..StyleSpec::plain()
        }),
{
    style(s, StyleSpec { fg: Some(Color::Yellow), bold: true, ..StyleSpec::new() })
}

/// Italic.
pub fn italic<S: Display>(s: S) -> (styled: Style<S>)
    ensures
        styled@.inner == s,
        styled@.colorspec == (StyleSpec { italic: true, ..StyleSpec::plain() }),
{
    style(s, StyleSpec { italic: true, ..StyleSpec::new() })
}

/// Italic in dark gray.
pub fn italic_gray<S: Display>(s: S) -> (styled: Style<S>)
    ensures
        styled@.inner == s,
        styled@.colorspec == (StyleSpec {
            fg: Some(Color::Ansi256(8)),
            italic: true,
            ..StyleSpec::plain()
        }),
{
    style(s, StyleSpec { fg: Some(Color::Ansi256(8)), italic: true, ..StyleSpec::new() })
}

/// Bold italic.
pub fn italic_bold<S: Display>(s: S) -> (styled: Style<S>)
    ensures
        styled@.inner == s,
        styled@.colorspec == (StyleSpec { bold: true, italic: true, ..StyleSpec::plain() }),
{
    style(s, StyleSpec { bold: true, italic: true, ..StyleSpec::new() })
}

/// White on a red background: an error banner.
pub fn white_on_red<S: Display>(s: S) -> (styled: Style<S>)
    ensures
        styled@.inner == s,
        styled@.colorspec == (StyleSpec {
            fg: Some(Color::White),
            bg: Some(Color::Red),
            ..StyleSpec::plain()
        }),
{
    style(s, StyleSpec { fg: Some(Color::White), bg: Some(Color::Red), ..StyleSpec::new() })
}

/// Black on a green background: a success banner.
pub fn black_on_green<S: Display>(s: S) -> (styled: Style<S>)
    ensures
        styled@.inner == s,
        styled@.colorspec == (StyleSpec {
            fg: Some(Color::Black),
            bg: Some(Color::Green),
            ..StyleSpec::plain()
        }),
{
    style(s, StyleSpec { fg: Some(Color::Black), bg: Some(Color::Green), ..StyleSpec::new() })
}

/// Yellow.
pub fn yellow<S: Display>(s: S) -> (styled: Style<S>)
    ensures
        styled@.inner == s,
        styled@.colorspec == (StyleSpec { fg: Some(Color::Yellow), ..StyleSpec::plain() }),
{
    style(s, StyleSpec { fg: Some(Color::Yellow), ..StyleSpec::new() })
}

/// Cyan.
pub fn cyan<S: Display>(s: S) -> (styled: Style<S>)
    ensures
        styled@.inner == s,
        styled@.colorspec == (StyleSpec { fg: Some(Color::Cyan), ..StyleSpec::plain() }),
{
    style(s, StyleSpec { fg: Some(Color::Cyan), ..StyleSpec::new() })
}

/// Underlined cyan.
pub fn cyan_with_underline<S: Display>(s: S) -> (styled: Style<S>)
    ensures
        styled@.inner == s,
        styled@.colorspec == (StyleSpec {
            fg: Some(Color::Cyan),
            underline: true,
            ..StyleSpec::plain()
        }),
{
    style(s, StyleSpec { fg: Some(Color::Cyan), underline: true, ..StyleSpec::new() })
}

/// Bold cyan.
pub fn cyan_bold<S: Display>(s: S) -> (styled: Style<S>)
    ensures
        styled@.inner == s,
        styled@.colorspec == (StyleSpec {
            fg: Some(Color::Cyan),
            bold: true,
            ..StyleSpec::plain()
        }),
{
    style(s, StyleSpec { fg: Some(Color::Cyan), bold: true, ..StyleSpec::new() })
}

/// Magenta.
pub fn magenta<S: Display>(s: S) -> (styled: Style<S>)
    ensures
        styled@.inner == s,
        styled@.colorspec == (StyleSpec { fg: Some(Color::Magenta), ..StyleSpec::plain() }),
{
    style(s, StyleSpec { fg: Some(Color::Magenta), ..StyleSpec::new() })
}

/// Red.
pub fn red<S: Display>(s: S) -> (styled: Style<S>)
    ensures
        styled@.inner == s,
        styled@.colorspec == (StyleSpec { fg: Some(Color::Red), ..StyleSpec::plain() }),
{
    style(s, StyleSpec { fg: Some(Color::Red), ..StyleSpec::new() })
}

/// Green.
pub fn green<S: Display>(s: S) -> (styled: Style<S>)
    ensures
        styled@.inner == s,
        styled@.colorspec == (StyleSpec { fg: Some(Color::Green), ..StyleSpec::plain() }),
{
    style(s, StyleSpec { fg: Some(Color::Green), ..StyleSpec::new() })
}

/// Bold.
pub fn bold<S: Display>(s: S) -> (styled: Style<S>)
    ensures
        styled@.inner == s,
        styled@.colorspec == (StyleSpec { bold: true, ..StyleSpec::plain() }),
{
    style(s, StyleSpec { bold: true, ..StyleSpec::new() })
}

/// Gray.
pub fn gray<S: Display>(s: S) -> (styled: Style<S>)
    ensures
        styled@.inner == s,
        styled@.colorspec == (StyleSpec { fg: Some(Color::Ansi256(245)), ..StyleSpec::plain() }),
{
    style(s, StyleSpec { fg: Some(Color::Ansi256(245)), ..StyleSpec::new() })
}

/// Dimmed gray: for text of little weight.
pub fn dimmed_gray<S: Display>(s: S) -> (styled: Style<S>)
    ensures
        styled@.inner == s,
        styled@.colorspec == (StyleSpec {
            fg: Some(Color::Ansi256(245)),
            dimmed: true,
            ..StyleSpec::plain()
        }),
{
    style(s, StyleSpec { fg: Some(Color::Ansi256(245)), dimmed: true, ..StyleSpec::new() })
}

/// High-intensity blue.
pub fn intense_blue<S: Display>(s: S) -> (styled: Style<S>)
    ensures
        styled@.inner == s,
        styled@.colorspec == (StyleSpec {
            fg: Some(Color::Blue),
            intense: true,
            ..StyleSpec::plain()
        }),
{
    style(s, StyleSpec { fg: Some(Color::Blue), intense: true, ..StyleSpec::new() })
}

/// Bold white on a red background.
pub fn white_bold_on_red<S: Display>(s: S) -> (styled: Style<S>)
    ensures
        styled@.inner == s,
        styled@.colorspec == (StyleSpec {
            fg: Some(Color::White),
            bg: Some(Color::Red),
            bold: true,
            ..StyleSpec::plain()
        }),
{
    style(
        s,
        StyleSpec { fg: Some(Color::White), bg: Some(Color::Red), bold: true, ..StyleSpec::new() },
    )
}

} // verus!
