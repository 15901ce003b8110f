//! The calls into `termcolor` and the standard library that the renderer
//! rests on. Their contracts are taken on trust.

use crate::colors::style::Color;
use crate::colors::style::StyleSpec;
use core::fmt::Display;
use core::fmt::Write;
use termcolor::Ansi;
use termcolor::Color as TermColor;
use termcolor::ColorSpec;
use termcolor::WriteColor;
use vstd::prelude::*;
use vstd::string::to_string_from_display_ensures;
use vstd::utf8::*;

verus! {

/// The bytes that `termcolor::Ansi::set_color` writes for a `ColorSpec` with
/// the colors and attributes of `spec`, and with the defaults of
/// `ColorSpec::new` for the rest.
pub uninterp spec fn set_color_bytes(spec: StyleSpec) -> Seq<u8>;

/// The bytes of the escape sequence that resets all attributes, `ESC [ 0 m`.
pub open spec fn reset_bytes() -> Seq<u8> {
    seq![0x1Bu8, 0x5Bu8, 0x30u8, 0x6Du8]
}

/// Every byte is an ASCII character.
pub open spec fn is_ascii_bytes(bytes: Seq<u8>) -> bool {
    forall|i: int| 0 <= i < bytes.len() ==> #[trigger] bytes[i] < 0x80
}

/// Runs `termcolor::Ansi::set_color` on an empty byte buffer and returns what
/// it wrote. The `ColorSpec` is `ColorSpec::new()` with the colors and
/// attributes of `spec` set on it.
///
/// Trusted: the bytes depend on `spec` alone, and `termcolor` builds them
/// from ASCII literals and decimal digits only. A byte buffer accepts every
/// write, so `set_color` runs to its end.
#[verifier::external_body]
pub(crate) fn ansi_set_color(spec: &StyleSpec) -> (out: Vec<u8>)
    ensures
        out@ == set_color_bytes(*spec),
        is_ascii_bytes(out@),
{
    let color = |c: Color| match c {
        Color::Black => TermColor::Black, Color::Blue => TermColor::Blue,
        Color::Green => TermColor::Green, Color::Red => TermColor::Red,
        Color::Cyan => TermColor::Cyan, Color::Magenta => TermColor::Magenta,
        Color::Yellow => TermColor::Yellow, Color::White => TermColor::White,
        Color::Ansi256(index) => TermColor::Ansi256(index),
    };
    let mut colorspec = ColorSpec::new();
    colorspec.set_fg(spec.fg.map(color)).set_bg(spec.bg.map(color)).set_bold(spec.bold);
    colorspec.set_dimmed(spec.dimmed).set_italic(spec.italic).set_underline(spec.underline);
    colorspec.set_intense(spec.intense);
    let mut ansi = Ansi::new(Vec::new());
    let _ = ansi.set_color(&colorspec);
    ansi.into_inner()
}

/// Runs `termcolor::Ansi::reset` on an empty byte buffer and returns what it
/// wrote.
///
/// Trusted: `reset` writes the four bytes `ESC [ 0 m`.
#[verifier::external_body]
pub(crate) fn ansi_reset() -> (out: Vec<u8>)
    ensures
        out@ == reset_bytes(),
{
    let mut ansi = Ansi::new(Vec::new());
    let _ = ansi.reset();
    ansi.into_inner()
}

/// `core::str::from_utf8`, with its error dropped.
///
/// Trusted: the call succeeds exactly on valid UTF-8, and the string slice it
/// returns is the text that the bytes encode.
#[verifier::external_body]
pub(crate) fn text_from_utf8(bytes: &[u8]) -> (text: Option<&str>)
    ensures
        text is Some <==> valid_utf8(bytes@),
        text matches Some(t) ==> t@ == decode_utf8(bytes@),
{
    core::str::from_utf8(bytes).ok()
}

/// Formats `value` with its `Display` impl into a new string, as `write!`
/// with `{}` does; `None` where the impl reports an error.
///
/// Trusted: the text is the one that the impl writes, which is also what
/// `to_string` gives for the value. `to_string_from_display_ensures` is vstd's
/// name for that relation between a value and its text.
#[verifier::external_body]
pub(crate) fn display_text<I: Display>(value: &I) -> (text: Option<String>)
    ensures
        text matches Some(written) ==> to_string_from_display_ensures::<I>(value, written),
{
    let mut text = String::new();
    match write!(text, "{}", value) {
        Ok(()) => Some(text),
        Err(_) => None,
    }
}

} // verus!
