use mitos_settings::config::file_lock::{lock_holder_pid, next_lock_step, process_dir, LockStep};

#[test]
fn a_lock_file_names_its_holder_by_pid() {
    assert_eq!(lock_holder_pid("1234\n"), Some(1234));
    assert_eq!(lock_holder_pid("4000000000"), Some(4_000_000_000));
    assert_eq!(lock_holder_pid("not a pid"), None);
    assert_eq!(lock_holder_pid("5000000000"), None);
    assert_eq!(lock_holder_pid(""), None);
    assert_eq!(process_dir(1234), "/proc/1234");
}

#[test]
fn a_stale_lock_is_taken_over_even_past_the_deadline() {
    assert_eq!(next_lock_step(true, true, true), LockStep::Acquired);
    assert_eq!(next_lock_step(false, false, false), LockStep::TakeOverStale);
    assert_eq!(next_lock_step(false, false, true), LockStep::TakeOverStale);
    assert_eq!(next_lock_step(false, true, true), LockStep::GiveUp);
    assert_eq!(next_lock_step(false, true, false), LockStep::Wait);
}
