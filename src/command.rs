//! The interactive command surface: each input line either quits or names a message.
use vstd::prelude::*;

use crate::table::ascii_upper;

verus! {

/// What `str::trim` makes of a text: the text without its leading and trailing
/// whitespace, in Unicode's sense.
pub uninterp spec fn trimmed(s: Seq<char>) -> Seq<char>;

/// Relies on `str::trim`: the text without leading and trailing whitespace,
/// which depends on the characters alone.
#[verifier::external_body]
fn trim<'a>(s: &'a str) -> (r: &'a str)
    ensures
        r@ == trimmed(s@),
{
    s.trim()
}

/// What one input line asks for.
#[derive(Debug, PartialEq, Eq)]
pub enum Command {
    /// Stop reading input.
    Quit,
    /// Transmit this message.
    Transmit(String),
}

/// The quit word: `q`, in either case.
pub open spec fn is_quit_word(t: Seq<char>) -> bool {
    t.len() == 1 && ascii_upper(t[0]) == 'Q'
}

/// The command for a line that is already trimmed: quit on `q` or `Q`,
/// otherwise transmit the line as it is.
pub fn command_of_trimmed(t: &str) -> (r: Command)
    ensures
        is_quit_word(t@) ==> r == Command::Quit,
        !is_quit_word(t@) ==> (r matches Command::Transmit(m) && m@ == t@),
{
    if t.unicode_len() == 1 {
        let c = t.get_char(0);
        if c == 'q' || c == 'Q' {
            return Command::Quit;
        }
    }
    Command::Transmit(t.to_owned())
}

/// The command for an input line: the line is trimmed, then read as
/// `command_of_trimmed` reads it.
pub fn parse_command(line: &str) -> (r: Command)
    ensures
        is_quit_word(trimmed(line@)) ==> r == Command::Quit,
        !is_quit_word(trimmed(line@)) ==> (r matches Command::Transmit(m) && m@ == trimmed(
            line@,
        )),
{
    command_of_trimmed(trim(line))
}

} // verus!
