//! `mitos-settings grants ...`: the command-line surface for listing
//! mitos-service's rulebook, adding a grant to it, and revoking one. This
//! module reads the arguments into a `GrantsCommand` and writes what is
//! printed once mitos-service has answered; the program around the library
//! does the talking.

use vstd::prelude::*;
use crate::grants::model::{Decision, Grant, GrantView, Scope};
use crate::text::padded;

verus! {

/// What `mitos-settings grants` prints when no subcommand it knows is given.
pub const USAGE: &'static str = "usage: mitos-settings grants <subcommand>\n\nSubcommands:\n  list\n      List every grant mitos-service currently holds.\n  set <sha256> <capability> <allow|deny> <once|session|always>\n      Record a decision. Blocks on a real elevation prompt first if\n      mitos-service classifies <capability> as Dangerous or Critical.\n  revoke <sha256> <capability>\n      Remove whatever grant exists for that pair, regardless of scope.";

/// The error for `set` with the wrong number of arguments.
pub const SET_USAGE: &'static str = "usage: mitos-settings grants set <sha256> <capability> <allow|deny> <once|session|always>";

/// The error for `revoke` with the wrong number of arguments.
pub const REVOKE_USAGE: &'static str = "usage: mitos-settings grants revoke <sha256> <capability>";

/// A `grants` subcommand whose arguments were understood.
#[derive(Debug, Clone, PartialEq, Eq)]
pub enum GrantsCommand {
    List,
    Record { sha256: String, capability: String, decision: Decision, scope: Scope },
    Revoke { sha256: String, capability: String },
}

/// A `grants` subcommand as a mathematical object.
pub enum GrantsCommandView {
    List,
    Record { sha256: Seq<char>, capability: Seq<char>, decision: Decision, scope: Scope },
    Revoke { sha256: Seq<char>, capability: Seq<char> },
}

impl View for GrantsCommand {
    type V = GrantsCommandView;

    open spec fn view(&self) -> GrantsCommandView {
        match self {
            GrantsCommand::List => GrantsCommandView::List,
            GrantsCommand::Record { sha256, capability, decision, scope } => GrantsCommandView::Record {
                sha256: sha256@,
                capability: capability@,
                decision: *decision,
                scope: *scope,
            },
            GrantsCommand::Revoke { sha256, capability } => GrantsCommandView::Revoke {
                sha256: sha256@,
                capability: capability@,
            },
        }
    }
}

/// The characters of each argument.
pub open spec fn args_view(args: Seq<String>) -> Seq<Seq<char>> {
    args.map_values(|a: String| a@)
}

/// What the arguments after `grants` ask for: `list` (whatever follows it),
/// `set` with exactly four arguments of which the third is a decision and the
/// fourth a scope, or `revoke` with exactly two; anything else is refused
/// with the message saying what was wrong.
pub open spec fn grants_command(args: Seq<Seq<char>>) -> Result<GrantsCommandView, Seq<char>> {
    if args.len() == 0 {
        Err(USAGE@)
    } else if args[0] == "list"@ {
        Ok(GrantsCommandView::List)
    } else if args[0] == "set"@ {
        if args.len() != 5 {
            Err(SET_USAGE@)
        } else {
            match Decision::from_text(args[3]) {
                None => Err("'"@ + args[3] + "' is not 'allow' or 'deny'"@),
                Some(decision) => match Scope::from_text(args[4]) {
                    None => Err("'"@ + args[4] + "' is not 'once', 'session', or 'always'"@),
                    Some(scope) => Ok(
                        GrantsCommandView::Record { sha256: args[1], capability: args[2], decision, scope },
                    ),
                },
            }
        }
    } else if args[0] == "revoke"@ {
        if args.len() != 3 {
            Err(REVOKE_USAGE@)
        } else {
            Ok(GrantsCommandView::Revoke { sha256: args[1], capability: args[2] })
        }
    } else {
        Err(USAGE@)
    }
}

/// Reads the arguments after `grants`.
pub fn execute(args: &[String]) -> (r: Result<GrantsCommand, String>)
    ensures
        match r {
            Ok(c) => grants_command(args_view(args@)) == Ok::<GrantsCommandView, Seq<char>>(c@),
            Err(e) => grants_command(args_view(args@)) == Err::<GrantsCommandView, Seq<char>>(e@),
        },
{
    let ghost av = args_view(args@);
    if args.len() == 0 {
        return Err(String::from_str(USAGE));
    }
    assert(av[0] == args@[0]@);
    let sub = args[0].as_str();
    if crate::text::str_eq(sub, "list") {
        return Ok(GrantsCommand::List);
    }
    if crate::text::str_eq(sub, "set") {
        if args.len() != 5 {
            return Err(String::from_str(SET_USAGE));
        }
        assert(av[1] == args@[1]@ && av[2] == args@[2]@ && av[3] == args@[3]@ && av[4] == args@[4]@);
        let decision = match Decision::parse(args[3].as_str()) {
            Some(d) => d,
            None => {
                let mut msg = String::from_str("'");
                msg.append(args[3].as_str());
                msg.append("' is not 'allow' or 'deny'");
                return Err(msg);
            },
        };
        let scope = match Scope::parse(args[4].as_str()) {
            Some(s) => s,
            None => {
                let mut msg = String::from_str("'");
                msg.append(args[4].as_str());
                msg.append("' is not 'once', 'session', or 'always'");
                return Err(msg);
            },
        };
        return Ok(
            GrantsCommand::Record {
                sha256: args[1].clone(),
                capability: args[2].clone(),
                decision,
                scope,
            },
        );
    }
    if crate::text::str_eq(sub, "revoke") {
        if args.len() != 3 {
            return Err(String::from_str(REVOKE_USAGE));
        }
        assert(av[1] == args@[1]@ && av[2] == args@[2]@);
        return Ok(GrantsCommand::Revoke { sha256: args[1].clone(), capability: args[2].clone() });
    }
    Err(String::from_str(USAGE))
}

/// One row of the grants table: the five columns, padded to 64, 24, 7 and 8
/// characters and separated by single spaces, then a newline.
pub open spec fn table_row(a: Seq<char>, b: Seq<char>, c: Seq<char>, d: Seq<char>, e: Seq<char>) -> Seq<char> {
    padded(a, 64) + " "@ + padded(b, 24) + " "@ + padded(c, 7) + " "@ + padded(d, 8) + " "@ + e + "\n"@
}

/// The table's rows for `grants`, one each, in order.
pub open spec fn grant_rows(grants: Seq<GrantView>) -> Seq<char>
    decreases grants.len(),
{
    if grants.len() == 0 {
        Seq::empty()
    } else {
        let g = grants.last();
        grant_rows(grants.drop_last()) + table_row(
            g.sha256,
            g.capability,
            g.decision.text(),
            g.scope.text(),
            g.risk.text(),
        )
    }
}

/// What `grants list` prints for the grants mitos-service holds: a line
/// saying there are none, or a header and one row per grant.
pub open spec fn grants_table(grants: Seq<GrantView>) -> Seq<char> {
    if grants.len() == 0 {
        "No grants recorded yet.\n"@
    } else {
        table_row("SHA-256"@, "CAPABILITY"@, "DECISION"@, "SCOPE"@, "RISK"@) + grant_rows(grants)
    }
}

/// The rows for one list of grants followed by another are the rows of the
/// first followed by those of the second, and a single grant gives a single
/// row built from its own fields: the table has exactly one row per grant,
/// in order.
pub proof fn lemma_one_row_per_grant(a: Seq<GrantView>, b: Seq<GrantView>, g: GrantView)
    ensures
        grant_rows(a + b) == grant_rows(a) + grant_rows(b),
        grant_rows(seq![g]) == table_row(g.sha256, g.capability, g.decision.text(), g.scope.text(), g.risk.text()),
        grant_rows(Seq::<GrantView>::empty()) == Seq::<char>::empty(),
    decreases b.len(),
{
    assert(seq![g].drop_last() =~= Seq::<GrantView>::empty());
    assert(grant_rows(Seq::<GrantView>::empty()) + table_row(
        g.sha256,
        g.capability,
        g.decision.text(),
        g.scope.text(),
        g.risk.text(),
    ) =~= table_row(g.sha256, g.capability, g.decision.text(), g.scope.text(), g.risk.text()));
    if b.len() == 0 {
        assert(a + b =~= a);
        assert(grant_rows(a) + grant_rows(b) =~= grant_rows(a));
    } else {
        lemma_one_row_per_grant(a, b.drop_last(), g);
        assert((a + b).drop_last() =~= a + b.drop_last());
        assert((a + b).last() == b.last());
        let last = b.last();
        let row = table_row(last.sha256, last.capability, last.decision.text(), last.scope.text(), last.risk.text());
        assert(grant_rows(a) + grant_rows(b.drop_last()) + row =~= grant_rows(a) + (grant_rows(b.drop_last()) + row));
    }
}

/// With at least one grant the table is the header line, then the grant
/// rows; the rows of `gs` with one more grant are those of `gs` and then
/// that grant's row.
pub proof fn lemma_table_shape(gs: Seq<GrantView>, g: GrantView)
    ensures
        grants_table(gs.push(g)) == table_row("SHA-256"@, "CAPABILITY"@, "DECISION"@, "SCOPE"@, "RISK"@)
            + grant_rows(gs) + table_row(g.sha256, g.capability, g.decision.text(), g.scope.text(), g.risk.text()),
{
    lemma_one_row_per_grant(gs, seq![g], g);
    assert(gs + seq![g] =~= gs.push(g));
    let header = table_row("SHA-256"@, "CAPABILITY"@, "DECISION"@, "SCOPE"@, "RISK"@);
    let row = table_row(g.sha256, g.capability, g.decision.text(), g.scope.text(), g.risk.text());
    assert(header + (grant_rows(gs) + row) =~= header + grant_rows(gs) + row);
}

/// Appends one table row.
fn push_row(out: &mut String, a: &str, b: &str, c: &str, d: &str, e: &str)
    ensures
        final(out)@ == old(out)@ + table_row(a@, b@, c@, d@, e@),
{
    let pa = crate::text::pad_right(a, 64);
    let pb = crate::text::pad_right(b, 24);
    let pc = crate::text::pad_right(c, 7);
    let pd = crate::text::pad_right(d, 8);
    out.append(pa.as_str());
    out.append(" ");
    out.append(pb.as_str());
    out.append(" ");
    out.append(pc.as_str());
    out.append(" ");
    out.append(pd.as_str());
    out.append(" ");
    out.append(e);
    out.append("\n");
    assert(out@ =~= old(out)@ + table_row(a@, b@, c@, d@, e@));
}

/// What `grants list` prints.
pub fn list_output(grants: &[Grant]) -> (r: String)
    ensures
        r@ == grants_table(grants@.map_values(|g: Grant| g@)),
{
    if grants.len() == 0 {
        return String::from_str("No grants recorded yet.\n");
    }
    let ghost gv = grants@.map_values(|g: Grant| g@);
    let mut out = String::new();
    push_row(&mut out, "SHA-256", "CAPABILITY", "DECISION", "SCOPE", "RISK");
    let ghost header = out@;
    let mut i: usize = 0;
    assert(gv.take(0) =~= Seq::<GrantView>::empty());
    assert(out@ =~= header + grant_rows(gv.take(0)));
    while i < grants.len()
        invariant
            gv == grants@.map_values(|g: Grant| g@),
            i <= grants@.len(),
            out@ == header + grant_rows(gv.take(i as int)),
        decreases grants.len() - i,
    {
        let g = &grants[i];
        push_row(
            &mut out,
            g.sha256.as_str(),
            g.capability.as_str(),
            g.decision.as_str(),
            g.scope.as_str(),
            g.risk.as_str(),
        );
        proof {
            assert(gv.take(i + 1).drop_last() =~= gv.take(i as int));
            assert(gv.take(i + 1).last() == gv[i as int]);
            assert(out@ =~= header + grant_rows(gv.take(i + 1)));
        }
        i += 1;
    }
    assert(gv.take(grants@.len() as int) =~= gv);
    out
}

/// What `grants set` prints once mitos-service has recorded the decision.
pub fn record_output(sha256: &str, capability: &str, decision: Decision, scope: Scope) -> (r: String)
    ensures
        r@ == "Recorded: "@ + sha256@ + " / "@ + capability@ + " -> "@ + decision.text() + " ("@
            + scope.text() + ").\n"@,
{
    let mut out = String::from_str("Recorded: ");
    out.append(sha256);
    out.append(" / ");
    out.append(capability);
    out.append(" -> ");
    out.append(decision.as_str());
    out.append(" (");
    out.append(scope.as_str());
    out.append(").\n");
    out
}

/// What `grants revoke` prints once mitos-service has removed the grant.
pub fn revoke_output(sha256: &str, capability: &str) -> (r: String)
    ensures
        r@ == "Revoked: "@ + sha256@ + " / "@ + capability@ + ".\n"@,
{
    let mut out = String::from_str("Revoked: ");
    out.append(sha256);
    out.append(" / ");
    out.append(capability);
    out.append(".\n");
    out
}

} // verus!
