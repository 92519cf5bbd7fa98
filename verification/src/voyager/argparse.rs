//! Parsing of the toolkit's command-line words into a command.

use vstd::prelude::*;

verus! {

/// The command the arguments name.
#[derive(Debug, PartialEq, Eq)]
pub enum Arg {
    APOD,
    NEO,
    MAG,
    SFLARE,
    BADCOMMAND,
    SETKEY,
    GETKEY,
}

/// Which command a word list names.
pub open spec fn spec_argparse(args: Seq<Seq<char>>) -> Arg {
    if args[1] == "apod"@ {
        Arg::APOD
    } else if args[1] == "neo"@ {
        Arg::NEO
    } else if args[1] == "magnetic"@ {
        Arg::MAG
    } else if args[1] == "flare"@ {
        Arg::SFLARE
    } else if args[1] == "set"@ {
        if args[2] == "key"@ {
            Arg::SETKEY
        } else {
            Arg::BADCOMMAND
        }
    } else if args[1] == "get"@ {
        if args[2] == "key"@ {
            Arg::GETKEY
        } else {
            Arg::BADCOMMAND
        }
    } else {
        Arg::BADCOMMAND
    }
}

/// Parses the argument words, the program name first among them. At least
/// one argument must follow the program name, and `set`/`get` need their
/// object word.
pub fn argparse(args: &Vec<String>) -> (r: Result<Arg, ()>)
    requires
        args@.len() >= 2,
        (args@[1]@ == "set"@ || args@[1]@ == "get"@) ==> args@.len() >= 3,
    ensures
        r == Ok::<Arg, ()>(spec_argparse(args@.map_values(|a: String| a@))),
{
    let first = &args[1];
    if crate::argparse::str_eq(first.as_str(), "apod") {
        Ok(Arg::APOD)
    } else if crate::argparse::str_eq(first.as_str(), "neo") {
        Ok(Arg::NEO)
    } else if crate::argparse::str_eq(first.as_str(), "magnetic") {
        Ok(Arg::MAG)
    } else if crate::argparse::str_eq(first.as_str(), "flare") {
        Ok(Arg::SFLARE)
    } else if crate::argparse::str_eq(first.as_str(), "set") {
        if crate::argparse::str_eq(args[2].as_str(), "key") {
            Ok(Arg::SETKEY)
        } else {
            Ok(Arg::BADCOMMAND)
        }
    } else if crate::argparse::str_eq(first.as_str(), "get") {
        if crate::argparse::str_eq(args[2].as_str(), "key") {
            Ok(Arg::GETKEY)
        } else {
            Ok(Arg::BADCOMMAND)
        }
    } else {
        Ok(Arg::BADCOMMAND)
    }
}

} // verus!
