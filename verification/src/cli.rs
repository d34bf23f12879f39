//! The command line: which arguments ask for help, which name a command,
//! and how arguments become the one-line command that the engine reads.

use crate::text::{has_whitespace, holds_space, join, joined_with, replace_char, replaced, str_eq};
use vstd::prelude::*;

verus! {

/// Whether `word` asks for help.
pub open spec fn help_word(word: Seq<char>) -> bool {
    word == "help"@ || word == "-h"@ || word == "--help"@
}

/// Whether `word` names a command of the engine.
pub open spec fn command_word(word: Seq<char>) -> bool {
    word == "ingest"@ || word == "schema"@ || word == "geocode"@ || word == "overture_extract"@
        || word == "overture_search"@ || word == "overture_geocode"@
}

/// Whether the arguments ask for help: the first one is `help`, `-h` or
/// `--help`.
pub fn is_help_request(args: &[String]) -> (r: bool)
    ensures
        r == (args.len() > 0 && help_word(args[0]@)),
{
    if args.len() == 0 {
        return false;
    }
    let first = args[0].as_str();
    str_eq(first, "help") || str_eq(first, "-h") || str_eq(first, "--help")
}

/// Whether `name` names a command of the engine.
pub fn is_known_command(name: &str) -> (r: bool)
    ensures
        r == command_word(name@),
{
    str_eq(name, "ingest") || str_eq(name, "schema") || str_eq(name, "geocode") || str_eq(
        name,
        "overture_extract",
    ) || str_eq(name, "overture_search") || str_eq(name, "overture_geocode")
}

/// An argument as it stands in a command: one that holds whitespace is put
/// between double quotes, each double quote of its own behind a backslash.
pub open spec fn serialized_arg(arg: Seq<char>) -> Seq<char> {
    if holds_space(arg) {
        "\""@ + replaced(arg, '"', "\\\""@) + "\""@
    } else {
        arg
    }
}

/// The command that the arguments make: each as it stands in a command,
/// with one space between neighbours.
pub open spec fn serialized(args: Seq<Seq<char>>) -> Seq<char> {
    joined_with(Seq::new(args.len(), |i: int| serialized_arg(args[i])), " "@)
}

/// Makes one command of the arguments.
pub fn serialize_command(args: &[String]) -> (r: String)
    ensures
        r@ == serialized(args.deep_view()),
{
    let mut parts: Vec<String> = Vec::new();
    let mut i: usize = 0;
    while i < args.len()
        invariant
            i <= args.len(),
            parts.len() == i,
            forall|k: int| 0 <= k < i ==> parts.deep_view()[k] == serialized_arg(args.deep_view()[k]),
        decreases args.len() - i,
    {
        let ghost before = parts.deep_view();
        let arg = args[i].as_str();
        assert(args.deep_view()[i as int] == arg@);
        let part = if has_whitespace(arg) {
            let mut quoted = "\"".to_owned();
            quoted.append(replace_char(arg, '"', "\\\"").as_str());
            quoted.append("\"");
            quoted
        } else {
            arg.to_owned()
        };
        parts.push(part);
        assert(parts.deep_view() =~= before.push(part@));
        i += 1;
    }
    assert(parts.deep_view() =~= Seq::new(
        args.len() as nat,
        |i: int| serialized_arg(args.deep_view()[i]),
    ));
    join(parts.as_slice(), " ")
}

/// The mathematical content of a [`CliRequest`].
pub enum CliRequestModel {
    Help,
    Execute { command: Seq<char> },
}

/// What the command line asks for.
#[derive(Debug, Clone, PartialEq, Eq)]
pub enum CliRequest {
    /// The usage text.
    Help,
    /// The execution of `command`.
    Execute { command: String },
}

impl View for CliRequest {
    type V = CliRequestModel;

    open spec fn view(&self) -> CliRequestModel {
        match self {
            CliRequest::Help => CliRequestModel::Help,
            CliRequest::Execute { command } => CliRequestModel::Execute { command: command@ },
        }
    }
}

/// What arguments ask for: help where there are none, where the first asks
/// for it, or where the first names no command; else the execution of the
/// command that they make.
pub open spec fn request_of(args: Seq<Seq<char>>) -> CliRequestModel {
    if args.len() == 0 || help_word(args[0]) || !command_word(args[0]) {
        CliRequestModel::Help
    } else {
        CliRequestModel::Execute { command: serialized(args) }
    }
}

/// Reads the arguments of the command line.
pub fn read_arguments(args: &[String]) -> (r: CliRequest)
    ensures
        r@ == request_of(args.deep_view()),
{
    if args.len() == 0 || is_help_request(args) || !is_known_command(args[0].as_str()) {
        CliRequest::Help
    } else {
        CliRequest::Execute { command: serialize_command(args) }
    }
}

} // verus!
