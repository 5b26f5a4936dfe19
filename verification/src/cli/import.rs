//! `mitos-settings import <file>`: which file to read, and what is printed
//! once its values are applied.

use vstd::prelude::*;
use crate::cli::grants::args_view;
use crate::text::decimal;

verus! {

/// The error for `import` without a file.
pub const IMPORT_USAGE: &'static str = "usage: mitos-settings import <file.json>";

/// Reads the arguments of `import`: the file is the first one; without one
/// it is a usage error.
pub fn execute(args: &[String]) -> (r: Result<String, String>)
    ensures
        args@.len() > 0 ==> r is Ok && r->Ok_0@ == args_view(args@)[0],
        args@.len() == 0 ==> r is Err && r->Err_0@ == IMPORT_USAGE@,
{
    if args.len() == 0 {
        return Err(String::from_str(IMPORT_USAGE));
    }
    Ok(args[0].clone())
}

/// The error for a file that could not be read.
pub fn read_error(path: &str, reason: &str) -> (r: String)
    ensures
        r@ == "couldn't read "@ + path@ + ": "@ + reason@,
{
    let mut out = String::from_str("couldn't read ");
    out.append(path);
    out.append(": ");
    out.append(reason);
    out
}

/// What `import` prints once `count` values from `path` were applied.
pub fn imported_output(count: u64, path: &str) -> (r: String)
    ensures
        r@ == "Imported "@ + decimal(count as nat) + " setting(s) from "@ + path@ + ".\n"@,
{
    let mut out = String::from_str("Imported ");
    let digits = crate::text::decimal_string(count);
    out.append(digits.as_str());
    out.append(" setting(s) from ");
    out.append(path);
    out.append(".\n");
    out
}

} // verus!
