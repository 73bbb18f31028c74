//! What one run of the dialler is asked to do, and the text of the two
//! messages it can print.

use vstd::prelude::*;
use vstd::string::StringExecFns;

verus! {

/// `String::push` of std puts the character at the end of the string and
/// leaves what was there as it was.
pub assume_specification[ String::push ](s: &mut String, ch: char)
    ensures
        final(s)@ == old(s)@.push(ch),
;

/// What the command line asks for.
#[derive(Clone, Copy, Debug, PartialEq, Eq)]
pub enum Invocation<'a> {
    /// No symbols were given: print the usage message for `program`.
    Usage { program: &'a str },
    /// Play `symbols`.
    Play { symbols: &'a str },
}

/// Reads the command line, program name first. With nothing behind the
/// program name the run only prints the usage message; otherwise the first
/// argument is the symbols to play and any further ones are ignored.
pub fn parse_args<'a>(args: &'a Vec<String>) -> (invocation: Invocation<'a>)
    requires
        args@.len() >= 1,
    ensures
        args@.len() == 1 ==> (invocation matches Invocation::Usage { program } && program@
            == args@[0]@),
        args@.len() > 1 ==> (invocation matches Invocation::Play { symbols } && symbols@
            == args@[1]@),
{
    if args.len() == 1 {
        Invocation::Usage { program: args[0].as_str() }
    } else {
        Invocation::Play { symbols: args[1].as_str() }
    }
}

/// The usage message: how `program` is to be called.
pub fn usage_message(program: &str) -> (message: String)
    ensures
        message@ == "usage: "@ + program@ + " \"DTMFC0DE1234\""@,
{
    let mut message = String::from_str("usage: ");
    message.append(program);
    message.append(" \"DTMFC0DE1234\"");
    message
}

/// The diagnostic for a character that is no symbol of the keypad.
pub fn invalid_char_message(c: char) -> (message: String)
    ensures
        message@ == "invalid char: "@.push(c),
{
    let mut message = String::from_str("invalid char: ");
    message.push(c);
    message
}

} // verus!
