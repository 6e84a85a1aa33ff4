//! Word-wrapping of warning text to the width of the terminal.
use vstd::prelude::*;
use vstd::string::*;
use vstd::utf8::is_ascii_chars;
use crate::text::{begins_with, joined};

verus! {

/// Indent of every continuation line of wrapped text.
pub const WRAP_INDENT: &'static str = "    ";

/// What textwrap's `fill` returns for `text` at `width` columns, with no
/// hyphenation, `indent` before each continuation line and no word broken.
pub uninterp spec fn filled(width: usize, indent: Seq<char>, text: Seq<char>) -> Seq<char>;

/// Relies on textwrap::Wrapper::with_splitter(width, NoHyphenation) with
/// `subsequent_indent(indent)`, `break_words(false)` and `fill`: the result
/// depends on the width, the indent and the text alone. On text with a
/// multi-byte character textwrap can cut inside that character and panic, so
/// only ASCII text is admitted.
#[verifier::external_body]
fn fill_text(width: usize, indent: &str, text: &str) -> (r: String)
    requires
        is_ascii_chars(indent@),
        is_ascii_chars(text@),
    ensures
        r@ == filled(width, indent@, text@),
{
    textwrap::Wrapper::with_splitter(width, textwrap::NoHyphenation)
        .subsequent_indent(indent)
        .break_words(false)
        .fill(text)
}

/// Relies on console::Term::size_checked on stdout: `None` when stdout is not a
/// terminal or its size is unknown, else its number of columns, which it
/// reports only when positive. Which of the two comes back depends on the
/// terminal.
#[verifier::external_body]
fn stdout_columns() -> (r: Option<u16>)
    ensures
        r matches Some(c) ==> c > 0,
{
    console::Term::stdout().size_checked().map(|size| size.1)
}

/// The width to wrap to: the column count of stdout when it is a terminal,
/// and no width when it is not.
pub fn text_width() -> (r: Option<usize>)
    ensures
        r matches Some(w) ==> 0 < w && w <= 65535,
{
    match stdout_columns() {
        Some(c) => Some(c as usize),
        None => None,
    }
}

/// `s` without `prefix` at its start; `s` itself when it does not start so.
pub open spec fn strip_leading(prefix: Seq<char>, s: Seq<char>) -> Seq<char> {
    if prefix.is_prefix_of(s) {
        s.subrange(prefix.len() as int, s.len() as int)
    } else {
        s
    }
}

/// The prefix, a space and the content: the text that is wrapped.
pub open spec fn warning_text(prefix: Seq<char>, content: Seq<char>) -> Seq<char> {
    prefix + seq![' '] + content
}

/// The body that follows a warning prefix: at a known width and for ASCII
/// text, the prefix, a space and the content wrapped together, with the
/// leading prefix taken off again; otherwise a space and the content unwrapped.
pub open spec fn wrap_body(prefix: Seq<char>, content: Seq<char>, width: Option<usize>) -> Seq<char> {
    match width {
        Some(w) if is_ascii_chars(warning_text(prefix, content)) => strip_leading(
            prefix,
            filled(w, WRAP_INDENT@, warning_text(prefix, content)),
        ),
        _ => seq![' '] + content,
    }
}

/// Removes `prefix` from the start of `s`, only there and only once.
pub fn strip_leading_prefix(prefix: &str, s: &str) -> (r: String)
    ensures
        r@ == strip_leading(prefix@, s@),
{
    if begins_with(s, prefix) {
        let n = s.unicode_len();
        let p = prefix.unicode_len();
        String::from_str(s.substring_char(p, n))
    } else {
        String::from_str(s)
    }
}

/// Wraps `content` after `prefix` to `width` columns when a width is given
/// and the text is ASCII; otherwise returns the content after a single space.
pub fn wrap_to_width(prefix: &str, content: &str, width: Option<usize>) -> (r: String)
    ensures
        r@ == wrap_body(prefix@, content@, width),
{
    proof {
        reveal_strlit(" ");
        reveal_strlit("    ");
    }
    let head = joined(prefix, " ");
    let line = joined(head.as_str(), content);
    assert(line@ == warning_text(prefix@, content@));
    match width {
        Some(w) => {
            if line.as_str().is_ascii() {
                assert(is_ascii_chars(WRAP_INDENT@));
                let text = fill_text(w, WRAP_INDENT, line.as_str());
                strip_leading_prefix(prefix, text.as_str())
            } else {
                joined(" ", content)
            }
        },
        None => joined(" ", content),
    }
}

/// Wraps the content to the terminal width when stdout is a terminal; if not,
/// returns the content after a single space.
///
/// The prefix counts towards the width and is then removed, so that the caller
/// can style it on its own.
pub fn wrap_content(prefix: &str, content: &str) -> (r: String)
    ensures
        r@ == wrap_body(prefix@, content@, None)
            || exists|w: usize| r@ == wrap_body(prefix@, content@, Some(w)),
{
    let width = text_width();
    wrap_to_width(prefix, content, width)
}

} // verus!
