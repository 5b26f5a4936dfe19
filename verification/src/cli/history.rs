//! `mitos-settings history [count]`: how many recent changes to show, and
//! the table of them (user and system changes merged, newest first, as the
//! settings store hands them over). Timestamps are raw Unix seconds.

use vstd::prelude::*;
use crate::cli::grants::args_view;
use crate::text::{decimal, padded, parse_bounded};

verus! {

/// How many changes are shown when no count is given.
pub const DEFAULT_COUNT: usize = 20;

/// Reads the arguments of `history`: the first is the count, which must be
/// a number; without one, the last twenty.
pub fn execute(args: &[String]) -> (r: Result<usize, String>)
    ensures
        args@.len() == 0 ==> r == Ok::<usize, String>(DEFAULT_COUNT),
        args@.len() > 0 ==> match parse_bounded(args_view(args@)[0], usize::MAX as nat) {
            Some(n) => r == Ok::<usize, String>(n as usize),
            None => r is Err && r->Err_0@ == "'"@ + args_view(args@)[0]
                + "' isn't a number; usage: mitos-settings history [count]"@,
        },
{
    if args.len() == 0 {
        return Ok(DEFAULT_COUNT);
    }
    assert(args_view(args@)[0] == args@[0]@);
    let arg = args[0].as_str();
    match crate::text::parse_unsigned_up_to(arg, usize::MAX as u64) {
        Some(n) => Ok(n as usize),
        None => {
            let mut msg = String::from_str("'");
            msg.append(arg);
            msg.append("' isn't a number; usage: mitos-settings history [count]");
            Err(msg)
        },
    }
}

/// One recorded change.
pub struct HistoryEntry {
    pub timestamp_unix: u64,
    pub key: String,
    pub value: String,
}

/// One line of the history table: the time padded to 12 characters, the
/// key padded to 32, then the value.
pub open spec fn history_line(when: Seq<char>, key: Seq<char>, value: Seq<char>) -> Seq<char> {
    padded(when, 12) + " "@ + padded(key, 32) + " "@ + value + "\n"@
}

/// The table's lines for `entries`, in order.
pub open spec fn history_lines(entries: Seq<HistoryEntry>) -> Seq<char>
    decreases entries.len(),
{
    if entries.len() == 0 {
        Seq::empty()
    } else {
        let e = entries.last();
        history_lines(entries.drop_last()) + history_line(decimal(e.timestamp_unix as nat), e.key@, e.value@)
    }
}

/// What `history` prints: a note when the store keeps no history, another
/// when it has none yet, else a header and one line per change.
pub open spec fn history_text(entries: Option<Seq<HistoryEntry>>) -> Seq<char> {
    match entries {
        None => "History isn't available for this manager instance.\n"@,
        Some(es) => if es.len() == 0 {
            "No changes recorded yet.\n"@
        } else {
            history_line("WHEN (unix)"@, "KEY"@, "VALUE"@) + history_lines(es)
        },
    }
}

/// Appends one line of the table.
fn push_line(out: &mut String, when: &str, key: &str, value: &str)
    ensures
        final(out)@ == old(out)@ + history_line(when@, key@, value@),
{
    let w = crate::text::pad_right(when, 12);
    let k = crate::text::pad_right(key, 32);
    out.append(w.as_str());
    out.append(" ");
    out.append(k.as_str());
    out.append(" ");
    out.append(value);
    out.append("\n");
    assert(out@ =~= old(out)@ + history_line(when@, key@, value@));
}

/// What `history` prints for the changes the store handed over (`None`
/// when it keeps no history).
pub fn history_output(entries: Option<&[HistoryEntry]>) -> (r: String)
    ensures
        r@ == history_text(
            match entries {
                Some(es) => Some(es@),
                None => None,
            },
        ),
{
    let es = match entries {
        None => {
            return String::from_str("History isn't available for this manager instance.\n");
        },
        Some(es) => es,
    };
    if es.len() == 0 {
        return String::from_str("No changes recorded yet.\n");
    }
    let mut out = String::new();
    push_line(&mut out, "WHEN (unix)", "KEY", "VALUE");
    let ghost header = out@;
    let ghost ev = es@;
    let mut i: usize = 0;
    assert(ev.take(0) =~= Seq::<HistoryEntry>::empty());
    assert(out@ =~= header + history_lines(ev.take(0)));
    while i < es.len()
        invariant
            ev == es@,
            i <= ev.len(),
            out@ == header + history_lines(ev.take(i as int)),
        decreases es.len() - i,
    {
        let e = &es[i];
        let when = crate::text::decimal_string(e.timestamp_unix);
        push_line(&mut out, when.as_str(), e.key.as_str(), e.value.as_str());
        proof {
            assert(ev.take(i + 1).drop_last() =~= ev.take(i as int));
            assert(ev.take(i + 1).last() == ev[i as int]);
            assert(out@ =~= header + history_lines(ev.take(i + 1)));
        }
        i += 1;
    }
    assert(ev.take(ev.len() as int) =~= ev);
    out
}

} // verus!
