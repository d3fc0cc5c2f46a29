use vstd::prelude::*;
use vstd::string::*;

verus! {

broadcast use vstd::string::group_string_axioms;

/// The colours the debugger writes in, always bold.
#[derive(Clone, Copy, Debug, PartialEq, Eq, Structural)]
pub enum Hue {
    Green,
    Red,
}

/// The terminal code that starts bold text in a colour.
pub open spec fn bold_prefix_text(hue: Hue) -> Seq<char> {
    match hue {
        Hue::Green => "\x1b[1;32m"@,
        Hue::Red => "\x1b[1;31m"@,
    }
}

/// The terminal code that resets all styles.
pub open spec fn reset_text() -> Seq<char> {
    "\x1b[0m"@
}

/// The code that starts bold text in `hue` (calls `ansi_term::Colour::bold`, then
/// `ansi_term::Style::prefix`, written out with `to_string`).
///
/// Trusted: the text is `ESC [ 1 ; 3x m`, with `x` being 2 for green and 1 for red, as
/// `Style::write_prefix` writes the bold code, then the foreground colour code.
#[verifier::external_body]
fn bold_prefix(hue: Hue) -> (s: String)
    ensures
        s@ == bold_prefix_text(hue),
{
    let colour = match hue {
        Hue::Green => ansi_term::Colour::Green,
        Hue::Red => ansi_term::Colour::Red,
    };
    colour.bold().prefix().to_string()
}

/// The code that ends bold text in `hue` (calls `ansi_term::Colour::bold`, then
/// `ansi_term::Style::suffix`, written out with `to_string`).
///
/// Trusted: the text is the reset code `ESC [ 0 m`, which `Style::write_suffix` writes for
/// any style that is not plain.
#[verifier::external_body]
fn bold_suffix(hue: Hue) -> (s: String)
    ensures
        s@ == reset_text(),
{
    let colour = match hue {
        Hue::Green => ansi_term::Colour::Green,
        Hue::Red => ansi_term::Colour::Red,
    };
    colour.bold().suffix().to_string()
}

/// A message line with a coloured tag: `[<tag>] <message>`.
pub open spec fn tagged_line(hue: Hue, tag: Seq<char>, message: Seq<char>) -> Seq<char> {
    "["@ + bold_prefix_text(hue) + tag + reset_text() + "] "@ + message
}

fn tagged(hue: Hue, tag: &str, message: &str) -> (s: String)
    ensures
        s@ == tagged_line(hue, tag@, message@),
{
    let mut s = String::from_str("[");
    let prefix = bold_prefix(hue);
    s.append(prefix.as_str());
    s.append(tag);
    let suffix = bold_suffix(hue);
    s.append(suffix.as_str());
    s.append("] ");
    s.append(message);
    s
}

/// An informational line: `[INFO] <message>`, the tag in bold green.
pub fn info_line(message: &str) -> (s: String)
    ensures
        s@ == tagged_line(Hue::Green, "INFO"@, message@),
{
    tagged(Hue::Green, "INFO", message)
}

/// An error line: `[ERROR] <message>`, the tag in bold red.
pub fn error_line(message: &str) -> (s: String)
    ensures
        s@ == tagged_line(Hue::Red, "ERROR"@, message@),
{
    tagged(Hue::Red, "ERROR", message)
}

/// The prompt: the shell's name and an arrow in bold green, the colour codes marked as
/// invisible to the line editor by `\x01` and `\x02`.
pub open spec fn prompt_spec(shell: Seq<char>) -> Seq<char> {
    "\x01"@ + bold_prefix_text(Hue::Green) + "\x02"@ + shell + " "@ + "\u{25b6} "@ + "\x01"@
        + reset_text() + "\x02"@
}

/// The prompt shown for a shell (or `exec`).
pub fn prompt_text(shell: &str) -> (s: String)
    ensures
        s@ == prompt_spec(shell@),
{
    let mut s = String::from_str("\x01");
    let prefix = bold_prefix(Hue::Green);
    s.append(prefix.as_str());
    s.append("\x02");
    s.append(shell);
    s.append(" ");
    s.append("\u{25b6} ");
    s.append("\x01");
    let suffix = bold_suffix(Hue::Green);
    s.append(suffix.as_str());
    s.append("\x02");
    s
}

} // verus!
