//! `mitos-settings get <key>`: which setting is asked for.

use vstd::prelude::*;
use crate::cli::grants::args_view;

verus! {

/// The error for `get` without a key.
pub const GET_USAGE: &'static str = "usage: mitos-settings get <key>";

/// Reads the arguments of `get`: the key is the first one; without one it
/// is a usage error. The value itself comes from the settings store.
pub fn execute(args: &[String]) -> (r: Result<String, String>)
    ensures
        args@.len() > 0 ==> r is Ok && r->Ok_0@ == args_view(args@)[0],
        args@.len() == 0 ==> r is Err && r->Err_0@ == GET_USAGE@,
{
    if args.len() == 0 {
        return Err(String::from_str(GET_USAGE));
    }
    Ok(args[0].clone())
}

} // verus!
