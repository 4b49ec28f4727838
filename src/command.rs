use vstd::prelude::*;
use vstd::string::StringExecFns;

use crate::error::{ErrorKind, Failure};

verus! {

/// `parts` separated by single spaces.
pub open spec fn joined(parts: Seq<Seq<char>>) -> Seq<char>
    decreases parts.len(),
{
    if parts.len() == 0 {
        Seq::empty()
    } else if parts.len() == 1 {
        parts[0]
    } else {
        joined(parts.drop_last()) + seq![' '] + parts.last()
    }
}

/// The views of the strings in `v`.
pub open spec fn views(v: Seq<String>) -> Seq<Seq<char>> {
    v.map_values(|s: String| s@)
}

/// The command that a command line asks for: every argument after the
/// program name, joined with single spaces and passed on verbatim.
pub open spec fn command_of(args: Seq<String>) -> Seq<char> {
    joined(views(args.drop_first()))
}

/// Joins the arguments after the program name (`args[0]`) with single spaces.
pub fn join_arguments(args: &Vec<String>) -> (r: String)
    requires
        args@.len() >= 1,
    ensures
        r@ == command_of(args@),
{
    let mut out = String::new();
    let mut i: usize = 1;
    while i < args.len()
        invariant
            1 <= i <= args.len(),
            out@ == joined(views(args@.subrange(1, i as int))),
        decreases args.len() - i,
    {
        if i > 1 {
            proof {
                reveal_strlit(" ");
            }
            out.append(" ");
        }
        out.append(args[i].as_str());
        proof {
            let prev = views(args@.subrange(1, i as int));
            let next = views(args@.subrange(1, i + 1));
            assert(next.drop_last() =~= prev);
            assert(next.len() == i);
            assert(next.last() == args@[i as int]@);
            if i == 1 {
                assert(prev.len() == 0);
            }
        }
        i = i + 1;
    }
    proof {
        assert(args@.subrange(1, args.len() as int) =~= args@.drop_first());
    }
    out
}

/// The command to run, from the whole command line (program name first).
/// Without at least one argument after the program name this is a usage error.
pub fn command_from_args(args: &Vec<String>) -> (r: Result<String, Failure>)
    ensures
        args@.len() < 2 <==> r is Err,
        r matches Ok(c) ==> c@ == command_of(args@),
        r matches Err(e) ==> e.kind == ErrorKind::Usage && e.cause@ == usage_text(
            program_of(args@),
        ),
{
    if args.len() < 2 {
        let program = if args.len() == 1 {
            args[0].clone()
        } else {
            String::new()
        };
        Err(Failure::new(ErrorKind::Usage, usage_message(program.as_str())))
    } else {
        Ok(join_arguments(args))
    }
}

/// The program name of a command line, empty when there is none.
pub open spec fn program_of(args: Seq<String>) -> Seq<char> {
    if args.len() == 0 {
        Seq::empty()
    } else {
        args[0]@
    }
}

/// The usage line shown for a program name.
pub open spec fn usage_text(program: Seq<char>) -> Seq<char> {
    "Usage: "@ + program + " <command> [args...]"@
}

/// The usage line for `program`.
pub fn usage_message(program: &str) -> (r: String)
    ensures
        r@ == usage_text(program@),
{
    let out = String::from_str("Usage: ");
    let out = out.concat(program);
    out.concat(" <command> [args...]")
}

} // verus!
