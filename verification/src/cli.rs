//! The command line: one positional argument, the path of the data file.

use vstd::prelude::*;

verus! {

/// The one-line usage message.
pub fn usage() -> (line: &'static str)
    ensures
        line@ == "Usage: nurep <data_path>"@,
{
    "Usage: nurep <data_path>"
}

/// Picks the data file's path out of the program's arguments, the
/// program's own name included: it is there exactly when one argument
/// follows the name.
pub fn data_path(args: &Vec<String>) -> (path: Option<&String>)
    ensures
        args@.len() == 2 ==> path == Some(&args@[1]),
        args@.len() != 2 ==> path.is_none(),
{
    if args.len() == 2 {
        Some(&args[1])
    } else {
        None
    }
}

} // verus!
