//! The command-line front-end: which kind of subcommand `argv` names, what
//! each subcommand's arguments ask for, and the text that ends up on the
//! terminal. `grants` talks to mitos-service and needs no settings store;
//! every other subcommand works against the settings store.

pub mod get;
pub mod grants;
pub mod history;
pub mod import;
pub mod list;
pub mod pick_wallpaper;
pub mod reset;
pub mod set;

use vstd::prelude::*;
use crate::cli::grants::args_view;

verus! {

/// What `mitos-settings --help` prints.
pub const USAGE: &'static str = "Usage: mitos-settings <command> [args]\n\nCommands:\n  get <key>              Print the current value of a setting\n  set <key> <value>      Change a setting\n  list [category] [--json]  List categories/settings; --json for machine-readable output\n  reset <key> | --all    Restore a setting (or everything) to its default\n  schema                  Dump the full schema (types, defaults, constraints) as JSON\n  grants <subcommand>     List/set/revoke mitos-service permission grants -- run\n                          `mitos-settings grants` with no subcommand for details\n  pick-wallpaper          Open the MITOS file picker and set the wallpaper\n  --daemon                Run as the privileged settings daemon\n  --help                  Show this message\n\nRun with no command to open the interactive navigator.\nSee INTEGRATION.md for how other MITOS projects should talk to this one.";

/// The kind of work the command line asks for.
#[derive(Debug, Clone, Copy, PartialEq, Eq, Structural)]
pub enum Route {
    /// No command: the interactive navigator.
    Interactive,
    /// `--help` or `-h`: print `USAGE`.
    Help,
    /// `grants ...`, handled before the settings store is loaded, so that it
    /// works even where the settings files are unreadable.
    Grants,
    /// Any other command, run against the settings store.
    Settings,
}

/// The kind of work `args` (without the program name) asks for.
pub open spec fn route_of(args: Seq<Seq<char>>) -> Route {
    if args.len() == 0 {
        Route::Interactive
    } else if args[0] == "--help"@ || args[0] == "-h"@ {
        Route::Help
    } else if args[0] == "grants"@ {
        Route::Grants
    } else {
        Route::Settings
    }
}

/// Reads which kind of work `args` asks for.
pub fn route(args: &[String]) -> (r: Route)
    ensures
        r == route_of(args_view(args@)),
{
    if args.len() == 0 {
        return Route::Interactive;
    }
    let ghost av = args_view(args@);
    assert(av[0] == args@[0]@);
    let command = args[0].as_str();
    if crate::text::str_eq(command, "--help") || crate::text::str_eq(command, "-h") {
        Route::Help
    } else if crate::text::str_eq(command, "grants") {
        Route::Grants
    } else {
        Route::Settings
    }
}

/// The error for a command the settings store knows nothing of.
pub fn unknown_command(other: &str) -> (r: String)
    ensures
        r@ == "unknown command '"@ + other@ + "'\n\n"@ + USAGE@,
{
    let mut msg = String::from_str("unknown command '");
    msg.append(other);
    msg.append("'\n\n");
    msg.append(USAGE);
    msg
}

/// What one command's result puts on the terminal, and the exit status.
pub struct Report {
    pub code: i32,
    pub stdout: String,
    pub stderr: String,
}

/// Success prints the output, with a newline added if it lacks one (nothing
/// at all for empty output) and exits 0; failure prints the error after the
/// program's name on standard error and exits 1.
pub open spec fn report_of(result: Result<Seq<char>, Seq<char>>) -> (int, Seq<char>, Seq<char>) {
    match result {
        Ok(out) => if out.len() == 0 {
            (0, Seq::empty(), Seq::empty())
        } else if out.last() == '\n' {
            (0, out, Seq::empty())
        } else {
            (0, out + "\n"@, Seq::empty())
        },
        Err(e) => (1, Seq::empty(), "mitos-settings: "@ + e + "\n"@),
    }
}

/// What a command's result puts on the terminal.
pub fn report(result: Result<String, String>) -> (r: Report)
    ensures
        (r.code as int, r.stdout@, r.stderr@) == report_of(
            match result {
                Ok(o) => Ok::<Seq<char>, Seq<char>>(o@),
                Err(e) => Err::<Seq<char>, Seq<char>>(e@),
            },
        ),
{
    match result {
        Ok(output) => {
            let n = output.as_str().unicode_len();
            if n == 0 {
                Report { code: 0, stdout: String::new(), stderr: String::new() }
            } else if output.as_str().get_char(n - 1) == '\n' {
                Report { code: 0, stdout: output, stderr: String::new() }
            } else {
                let mut out = output;
                out.append("\n");
                Report { code: 0, stdout: out, stderr: String::new() }
            }
        },
        Err(e) => {
            let mut msg = String::from_str("mitos-settings: ");
            msg.append(e.as_str());
            msg.append("\n");
            Report { code: 1, stdout: String::new(), stderr: msg }
        },
    }
}

} // verus!
