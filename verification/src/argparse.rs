//! Parsing of the command-line words into a command. The words themselves
//! are read from the process environment by the caller.

use vstd::prelude::*;

verus! {

/// The command the arguments name.
#[derive(Debug, PartialEq, Eq)]
pub enum Arg {
    BADCOMMAND,
    SETKEY,
    GETKEY,
    HELP,
}

/// Which command a word list names: no argument asks for help, `set key`
/// and `get key` manage the credential, and anything else is a bad command.
pub open spec fn spec_argparse(args: Seq<Seq<char>>) -> Arg {
    if args.len() == 1 {
        Arg::HELP
    } else if args[1] == "set"@ {
        if args[2] == "key"@ {
            Arg::SETKEY
        } else {
            Arg::BADCOMMAND
        }
    } else if args[1] == "get"@ {
        if args[2] == "key"@ {
            Arg::GETKEY
        } else {
            Arg::BADCOMMAND
        }
    } else if args[1] == "help"@ {
        Arg::HELP
    } else {
        Arg::BADCOMMAND
    }
}

/// Parses the argument words, the program name first among them.
pub fn argparse(args: &Vec<String>) -> (r: Result<Arg, ()>)
    requires
        args@.len() >= 1,
        (args@.len() >= 2 && (args@[1]@ == "set"@ || args@[1]@ == "get"@)) ==> args@.len() >= 3,
    ensures
        r == Ok::<Arg, ()>(spec_argparse(args@.map_values(|a: String| a@))),
{
    let ghost words = args@.map_values(|a: String| a@);
    if args.len() == 1 {
        return Ok(Arg::HELP);
    }
    let first = &args[1];
    if str_eq(first.as_str(), "set") {
        if str_eq(args[2].as_str(), "key") {
            Ok(Arg::SETKEY)
        } else {
            Ok(Arg::BADCOMMAND)
        }
    } else if str_eq(first.as_str(), "get") {
        if str_eq(args[2].as_str(), "key") {
            Ok(Arg::GETKEY)
        } else {
            Ok(Arg::BADCOMMAND)
        }
    } else if str_eq(first.as_str(), "help") {
        Ok(Arg::HELP)
    } else {
        Ok(Arg::BADCOMMAND)
    }
}

/// Relies on str's PartialEq: equality of the two texts.
#[verifier::external_body]
pub(crate) fn str_eq(a: &str, b: &str) -> (r: bool)
    ensures
        r == (a@ == b@),
{
    a == b
}

} // verus!
