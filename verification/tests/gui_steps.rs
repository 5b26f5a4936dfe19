use mitos_settings::grants::{Decision, Scope};
use mitos_settings::gui::permissions_page::{
    add_grant_step, grant_row_step, AddAction, AddEvent, GrantRowState, RowAction, RowEvent,
};
use mitos_settings::gui::widgets::{switch_step, SwitchEvent};

fn idle() -> GrantRowState {
    GrantRowState { confirmed_decision: Decision::Allow, confirmed_scope: Scope::Always, busy: false }
}

#[test]
fn a_new_decision_is_sent_with_the_confirmed_scope() {
    let (s, a) = grant_row_step(idle(), RowEvent::DecisionToggled(Decision::Deny));
    assert!(s.busy);
    assert_eq!(a, RowAction::SetGrant(Decision::Deny, Scope::Always));
    let (s, a) = grant_row_step(idle(), RowEvent::ScopeToggled(Scope::Once));
    assert!(s.busy);
    assert_eq!(a, RowAction::SetGrant(Decision::Allow, Scope::Once));
    let (s, a) = grant_row_step(idle(), RowEvent::DecisionToggled(Decision::Allow));
    assert_eq!((s, a), (idle(), RowAction::Nothing));
}

#[test]
fn nothing_is_sent_while_a_request_is_in_flight() {
    let busy = GrantRowState { busy: true, ..idle() };
    assert_eq!(grant_row_step(busy, RowEvent::DecisionToggled(Decision::Deny)), (busy, RowAction::Nothing));
    assert_eq!(grant_row_step(busy, RowEvent::RevokeClicked), (busy, RowAction::Nothing));
}

#[test]
fn answers_confirm_or_revert() {
    let busy = GrantRowState { busy: true, ..idle() };
    let (s, a) = grant_row_step(busy, RowEvent::SetDone(Decision::Deny, Scope::Always, Ok(())));
    assert_eq!(s, GrantRowState { confirmed_decision: Decision::Deny, confirmed_scope: Scope::Always, busy: false });
    assert_eq!(a, RowAction::Nothing);
    let (s, a) = grant_row_step(busy, RowEvent::SetDone(Decision::Deny, Scope::Always, Err("declined".to_string())));
    assert_eq!(s, idle());
    assert_eq!(a, RowAction::RevertAndShowError(Decision::Allow, Scope::Always, "declined".to_string()));
    let (s, a) = grant_row_step(idle(), RowEvent::RevokeClicked);
    assert!(s.busy);
    assert_eq!(a, RowAction::Revoke);
    assert_eq!(grant_row_step(s, RowEvent::RevokeDone(Ok(()))), (idle(), RowAction::RefreshList));
    assert_eq!(
        grant_row_step(s, RowEvent::RevokeDone(Err("unreachable".to_string()))),
        (idle(), RowAction::ShowError("unreachable".to_string()))
    );
}

#[test]
fn the_add_form_guards_and_reports() {
    let hash = "a".repeat(64);
    assert_eq!(add_grant_step(true, AddEvent::UsePathClicked("/bin/x".to_string())), (true, AddAction::Nothing));
    assert_eq!(
        add_grant_step(false, AddEvent::UsePathClicked(hash.clone())),
        (false, AddAction::ShowStatus("That already looks like a hash.".to_string()))
    );
    assert_eq!(
        add_grant_step(false, AddEvent::UsePathClicked("/bin/x".to_string())),
        (true, AddAction::HashPath("/bin/x".to_string()))
    );
    assert_eq!(add_grant_step(true, AddEvent::HashDone(Ok(hash.clone()))), (false, AddAction::FillHash(hash.clone())));
    assert_eq!(
        add_grant_step(false, AddEvent::SubmitClicked("zz".to_string(), "camera".to_string(), Decision::Allow, Scope::Always)),
        (false, AddAction::ShowStatus("Not a valid SHA-256 hash (64 hex characters).".to_string()))
    );
    assert_eq!(
        add_grant_step(false, AddEvent::SubmitClicked(hash.clone(), String::new(), Decision::Allow, Scope::Always)),
        (false, AddAction::ShowStatus("Enter a capability name.".to_string()))
    );
    assert_eq!(
        add_grant_step(false, AddEvent::SubmitClicked(hash.clone(), "camera".to_string(), Decision::Deny, Scope::Once)),
        (true, AddAction::SendGrant(hash.clone(), "camera".to_string(), Decision::Deny, Scope::Once))
    );
    assert_eq!(add_grant_step(true, AddEvent::GrantDone(Ok(()))), (false, AddAction::Granted));
    assert_eq!(
        add_grant_step(true, AddEvent::GrantDone(Err("denied".to_string()))),
        (false, AddAction::ShowStatus("denied".to_string()))
    );
}

#[test]
fn a_dangerous_switch_only_stages_until_apply() {
    assert_eq!(switch_step(false, true, false, SwitchEvent::Toggled), (false, Some(true)));
    assert_eq!(switch_step(true, true, false, SwitchEvent::Toggled), (true, None));
    assert_eq!(switch_step(true, false, true, SwitchEvent::Toggled), (true, None));
    assert_eq!(switch_step(true, false, true, SwitchEvent::ApplyClicked), (false, Some(false)));
    assert_eq!(switch_step(true, false, false, SwitchEvent::ApplyClicked), (false, None));
}
