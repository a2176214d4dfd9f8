//! The command line: one positional argument, the program to launch.
use vstd::prelude::*;

verus! {

/// The program to launch was not given.
#[derive(Clone, Copy, Debug, PartialEq, Eq, Structural)]
pub struct UsageError;

/// Returns the program to launch, given the whole argument list (the first
/// entry is this program's own name). Fails when no argument follows it;
/// arguments after the first are ignored.
pub fn target_path(args: &Vec<String>) -> (r: Result<String, UsageError>)
    ensures
        r.is_err() <==> args@.len() < 2,
        r matches Ok(path) ==> path == args@[1],
{
    if args.len() < 2 {
        Err(UsageError)
    } else {
        Ok(args[1].clone())
    }
}

} // verus!
