//! The decisions of an advisory lock file that serializes read-modify-write
//! cycles on the settings files across processes. Holding the lock means
//! having created the lock file, whose contents are the holder's process
//! id; a caller that fails to create it checks whether that process is
//! still alive (through `/proc/<pid>`) before waiting, so a lock left
//! behind by a crashed process is taken over at once. The program around
//! this library does the file work and the waiting.

use vstd::prelude::*;
use crate::text::{decimal, parse_bounded, trim_chars};

verus! {

/// The process id a lock file names: its trimmed contents read as a `u32`;
/// anything else names none, and such a lock counts as stale.
pub fn lock_holder_pid(contents: &str) -> (r: Option<u32>)
    ensures
        match r {
            Some(pid) => parse_bounded(trim_chars(contents@), u32::MAX as nat) == Some(pid as nat),
            None => parse_bounded(trim_chars(contents@), u32::MAX as nat) is None,
        },
{
    match crate::text::parse_unsigned_up_to(crate::text::trim(contents), u32::MAX as u64) {
        Some(pid) => Some(pid as u32),
        None => None,
    }
}

/// Where a live process `pid` shows up.
pub fn process_dir(pid: u32) -> (r: String)
    ensures
        r@ == "/proc/"@ + decimal(pid as nat),
{
    let mut out = String::from_str("/proc/");
    let digits = crate::text::decimal_string(pid as u64);
    out.append(digits.as_str());
    out
}

/// What to do next while trying to take the lock.
#[derive(Debug, Clone, Copy, PartialEq, Eq, Structural)]
pub enum LockStep {
    /// The lock file was created: the lock is held.
    Acquired,
    /// The holder is gone: remove its lock file and try again at once.
    TakeOverStale,
    /// A live process holds it past the deadline: give up.
    GiveUp,
    /// A live process holds it: wait briefly and try again.
    Wait,
}

/// One round of taking the lock: creating the file wins; a lock whose
/// holder is not alive is taken over, whatever the time; otherwise give up
/// once the deadline has passed, and wait until then.
pub fn next_lock_step(created: bool, holder_alive: bool, deadline_passed: bool) -> (r: LockStep)
    ensures
        created ==> r == LockStep::Acquired,
        !created && !holder_alive ==> r == LockStep::TakeOverStale,
        !created && holder_alive && deadline_passed ==> r == LockStep::GiveUp,
        !created && holder_alive && !deadline_passed ==> r == LockStep::Wait,
{
    if created {
        LockStep::Acquired
    } else if !holder_alive {
        LockStep::TakeOverStale
    } else if deadline_passed {
        LockStep::GiveUp
    } else {
        LockStep::Wait
    }
}

} // verus!
