//! Console command classification.
//!
//! The command-line front end reads lines, splits them into words and
//! turns them into engine commands; the classification of the leading
//! word and the re-joining of the remaining arguments live here.

use vstd::prelude::*;

use crate::util::str_eq;

verus! {

/// Marker for the command-queue subsystem when it is registered with an
/// application harness.
#[derive(Clone, Copy, Debug)]
pub struct CmdQueuePlugin;

/// What a console command asks for.
#[derive(Clone, Copy, PartialEq, Eq, Structural, Debug)]
pub enum CommandType {
    Exit,
    Help,
    Get,
    Put,
    Querry,
    Open,
    Close,
    Other,
}

/// The command type a leading word names: `close` and `exit` both name
/// the closing command; everything else is left for its own handler.
pub open spec fn spec_command_type_for(name: Seq<char>) -> CommandType {
    if name == "close"@ || name == "exit"@ {
        CommandType::Close
    } else {
        CommandType::Other
    }
}

/// Classify the leading word of a console command.
pub fn command_type_for(name: &str) -> (r: CommandType)
    ensures
        r == spec_command_type_for(name@),
{
    if str_eq(name, "close") || str_eq(name, "exit") {
        CommandType::Close
    } else {
        CommandType::Other
    }
}

/// The words from `i` on, joined with single spaces.
pub open spec fn spec_joined(parts: Seq<Seq<char>>, i: int) -> Seq<char>
    decreases parts.len() - i,
{
    if i < 0 || i >= parts.len() {
        Seq::empty()
    } else {
        parts[i] + (if i + 1 < parts.len() {
            " "@
        } else {
            Seq::empty()
        }) + spec_joined(parts, i + 1)
    }
}

/// Join the words from `from` on with single spaces, as a command's
/// argument string.
pub fn join_args(args: &Vec<String>, from: usize) -> (r: String)
    ensures
        r@ == spec_joined(args@.map_values(|s: String| s@), from as int),
{
    let n = args.len();
    let mut r = String::new();
    let mut i: usize = from;
    proof {
        assert(r@ + spec_joined(args@.map_values(|s: String| s@), from as int) =~= spec_joined(
            args@.map_values(|s: String| s@),
            from as int,
        ));
    }
    while i < n
        invariant
            n == args@.len(),
            from <= i,
            spec_joined(args@.map_values(|s: String| s@), from as int) == r@ + spec_joined(
                args@.map_values(|s: String| s@),
                i as int,
            ),
        decreases n - i,
    {
        let ghost parts = args@.map_values(|s: String| s@);
        let ghost before = r@;
        r.append(args[i].as_str());
        if i + 1 < n {
            r.append(" ");
        }
        proof {
            assert(parts[i as int] == args@[i as int]@);
            assert(r@ + spec_joined(parts, i as int + 1) =~= before + spec_joined(
                parts,
                i as int,
            ));
        }
        i = i + 1;
    }
    proof {
        assert(r@ + spec_joined(args@.map_values(|s: String| s@), i as int) =~= r@);
    }
    r
}

} // verus!
