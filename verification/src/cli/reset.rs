//! `mitos-settings reset <key> | --all`: what is to be restored to its
//! default.

use vstd::prelude::*;
use crate::cli::grants::args_view;

verus! {

/// The error for `reset` without an argument.
pub const RESET_USAGE: &'static str = "usage: mitos-settings reset <key> | --all";

/// What `reset` restores.
#[derive(Debug, Clone, PartialEq, Eq)]
pub enum ResetRequest {
    /// Every setting.
    All,
    /// One setting.
    Key(String),
}

/// Reads the arguments of `reset`: `--all` restores everything, any other
/// first argument names the one setting; without one it is a usage error.
pub fn execute(args: &[String]) -> (r: Result<ResetRequest, String>)
    ensures
        args@.len() == 0 ==> r is Err && r->Err_0@ == RESET_USAGE@,
        args@.len() > 0 && args_view(args@)[0] == "--all"@ ==> r == Ok::<ResetRequest, String>(ResetRequest::All),
        args@.len() > 0 && args_view(args@)[0] != "--all"@ ==> (r matches Ok(ResetRequest::Key(k)) && k@
            == args_view(args@)[0]),
{
    if args.len() == 0 {
        return Err(String::from_str(RESET_USAGE));
    }
    assert(args_view(args@)[0] == args@[0]@);
    if crate::text::str_eq(args[0].as_str(), "--all") {
        Ok(ResetRequest::All)
    } else {
        Ok(ResetRequest::Key(args[0].clone()))
    }
}

/// What `reset` prints once the store has done it.
pub fn reset_output(request: &ResetRequest) -> (r: String)
    ensures
        r@ == (match request {
            ResetRequest::All => "Reset every setting to its default."@,
            ResetRequest::Key(k) => "Reset "@ + k@ + " to its default."@,
        }),
{
    match request {
        ResetRequest::All => String::from_str("Reset every setting to its default."),
        ResetRequest::Key(k) => {
            let mut out = String::from_str("Reset ");
            out.append(k.as_str());
            out.append(" to its default.");
            out
        },
    }
}

} // verus!
