//! Assembling the text of a styled span.

use crate::colors::ansi::ansi_reset;
use crate::colors::ansi::ansi_set_color;
use crate::colors::ansi::is_ascii_bytes;
use crate::colors::ansi::reset_bytes;
use crate::colors::ansi::set_color_bytes;
use crate::colors::ansi::text_from_utf8;
use crate::colors::style::StyleSpec;
use vstd::prelude::*;
use vstd::utf8::*;

verus! {

/// Why a span could not be rendered.
#[derive(Clone, Copy, Debug, PartialEq, Eq, Structural)]
pub enum RenderError {
    /// Bytes that are not valid UTF-8 were written to a text buffer.
    InvalidUtf8,
    /// The payload's `Display` impl reported an error.
    Format,
}

/// A text buffer that also accepts bytes, as long as they are valid UTF-8.
#[derive(Debug)]
pub struct TextBuffer {
    text: String,
}

impl View for TextBuffer {
    type V = Seq<char>;

    closed spec fn view(&self) -> Seq<char> {
        self.text@
    }
}

impl TextBuffer {
    /// An empty buffer.
    pub fn new() -> (buffer: TextBuffer)
        ensures
            buffer@ == Seq::<char>::empty(),
    {
        TextBuffer { text: String::new() }
    }

    /// Appends the text that `buf` encodes and returns the number of bytes
    /// taken, which is all of them. Bytes that are not valid UTF-8 are
    /// rejected as a whole, and the buffer stays as it was.
    pub fn write(&mut self, buf: &[u8]) -> (written: Result<usize, RenderError>)
        ensures
            valid_utf8(buf@) ==> written == Ok::<usize, RenderError>(buf@.len() as usize)
                && final(self)@ == old(self)@ + decode_utf8(buf@),
            !valid_utf8(buf@) ==> written == Err::<usize, RenderError>(RenderError::InvalidUtf8)
                && final(self)@ == old(self)@,
    {
        match text_from_utf8(buf) {
            Some(text) => {
                self.text.append(text);
                Ok(buf.len())
            },
            None => Err(RenderError::InvalidUtf8),
        }
    }

    /// Appends `s`, by way of its bytes.
    pub fn write_str(&mut self, s: &str)
        ensures
            final(self)@ == old(self)@ + s@,
    {
        proof {
            encode_utf8_valid_utf8(s@);
            encode_utf8_decode_utf8(s@);
        }
        let _ = self.write(s.as_bytes());
    }

    /// The text that the buffer holds.
    pub fn into_string(self) -> (text: String)
        ensures
            text@ == self@,
    {
        self.text
    }
}

/// The text of the escape sequence that resets all attributes.
pub open spec fn reset_text() -> Seq<char> {
    seq!['\x1b', '[', '0', 'm']
}

/// A text between the escape sequence `start` and the reset sequence, as long
/// as `start` is valid UTF-8.
pub open spec fn wrapped(start: Seq<u8>, text: Seq<char>) -> Result<Seq<char>, RenderError> {
    if valid_utf8(start) {
        Ok(decode_utf8(start) + text + reset_text())
    } else {
        Err(RenderError::InvalidUtf8)
    }
}

/// The text of the escape sequence that switches the style `spec` on.
pub open spec fn start_text(spec: StyleSpec) -> Seq<char> {
    decode_utf8(set_color_bytes(spec))
}

/// What a span with style `spec` and text `text` renders to: the text
/// between the start sequence of the style and the reset sequence where color
/// is in use, and the text alone where not.
pub open spec fn rendered(spec: StyleSpec, text: Seq<char>, use_color: bool) -> Seq<char> {
    if use_color {
        start_text(spec) + text + reset_text()
    } else {
        text
    }
}

/// ASCII bytes are valid UTF-8.
pub proof fn lemma_ascii_is_utf8(bytes: Seq<u8>)
    requires
        is_ascii_bytes(bytes),
    ensures
        valid_utf8(bytes),
        decode_utf8(bytes) == Seq::new(bytes.len(), |i: int| bytes[i] as char),
{
    let chars = Seq::new(bytes.len(), |i: int| bytes[i] as char);
    assert(is_ascii_chars(chars));
    is_ascii_chars_encode_utf8(chars);
    assert(encode_utf8(chars) =~= bytes);
    encode_utf8_valid_utf8(chars);
    encode_utf8_decode_utf8(chars);
}

/// The reset sequence decodes to its text.
pub proof fn lemma_reset_text()
    ensures
        valid_utf8(reset_bytes()),
        decode_utf8(reset_bytes()) == reset_text(),
{
    lemma_ascii_is_utf8(reset_bytes());
    assert(decode_utf8(reset_bytes()) =~= reset_text());
}

/// Puts `text` between the escape sequence `start` and the reset sequence.
///
/// The whole span is assembled before anything is handed out, so that a
/// failure never leaves a start sequence without its reset.
pub fn wrap_text(start: &[u8], text: &str) -> (out: Result<String, RenderError>)
    ensures
        match out {
            Ok(span) => wrapped(start@, text@) == Ok::<Seq<char>, RenderError>(span@),
            Err(error) => wrapped(start@, text@) == Err::<Seq<char>, RenderError>(error),
        },
{
    let mut buffer = TextBuffer::new();
    match buffer.write(start) {
        Ok(_) => {},
        Err(error) => {
            return Err(error);
        },
    }
    buffer.write_str(text);
    let reset = ansi_reset();
    proof {
        lemma_reset_text();
    }
    let closed = buffer.write(reset.as_slice());
    assert(closed is Ok);
    assert(buffer@ =~= decode_utf8(start@) + text@ + reset_text());
    Ok(buffer.into_string())
}

/// Renders `text` in the style `spec`: wrapped in escape sequences where
/// color is in use, and as it is where not.
pub fn render_text(spec: &StyleSpec, text: &str, use_color: bool) -> (out: String)
    ensures
        out@ == rendered(*spec, text@, use_color),
        !use_color ==> out@ == text@,
{
    if !use_color {
        return text.to_owned();
    }
    let start = ansi_set_color(spec);
    proof {
        lemma_ascii_is_utf8(start@);
    }
    wrap_text(start.as_slice(), text).unwrap()
}

} // verus!
