//! Coloured, bold prefixes, drawn by the `console` crate.
use vstd::prelude::*;

verus! {

/// The terminal escape sequence `ESC [ code m`.
pub open spec fn sgr(code: Seq<char>) -> Seq<char> {
    seq!['\x1b', '['] + code + seq!['m']
}

/// `s` drawn in the foreground colour `color` and in bold, then reset.
pub open spec fn bold_in(color: Seq<char>, s: Seq<char>) -> Seq<char> {
    sgr(color) + sgr(seq!['1']) + s + sgr(seq!['0'])
}

/// `s` in bold red.
pub open spec fn red_bold(s: Seq<char>) -> Seq<char> {
    bold_in(seq!['3', '1'], s)
}

/// `s` in bold yellow.
pub open spec fn yellow_bold(s: Seq<char>) -> Seq<char> {
    bold_in(seq!['3', '3'], s)
}

/// Relies on console::style(..).red().bold() and its Display impl: when colours
/// are enabled for stdout the text comes wrapped in the red, bold and reset
/// sequences; otherwise it comes out unchanged.
#[verifier::external_body]
pub(crate) fn style_red_bold(s: &str) -> (r: String)
    ensures
        r@ == s@ || r@ == red_bold(s@),
{
    console::style(s).red().bold().to_string()
}

/// Relies on console::style(..).yellow().bold() and its Display impl: when
/// colours are enabled for stdout the text comes wrapped in the yellow, bold and
/// reset sequences; otherwise it comes out unchanged.
#[verifier::external_body]
pub(crate) fn style_yellow_bold(s: &str) -> (r: String)
    ensures
        r@ == s@ || r@ == yellow_bold(s@),
{
    console::style(s).yellow().bold().to_string()
}

} // verus!
