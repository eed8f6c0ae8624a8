use nmixx::automation::access::WorkflowAccess;

#[test]
fn claim_waits_for_existing_manual_operation() {
    let mut access = WorkflowAccess::default();
    let permit = access.enter(None, false).unwrap();
    assert!(access.claim().is_err());
    access.leave(permit);
    assert!(access.claim().is_ok());
}

#[test]
fn owner_reuses_normal_methods_but_other_mutations_are_rejected() {
    let mut access = WorkflowAccess::default();
    let owner = access.claim().unwrap();
    assert!(access.enter(None, false).is_err());
    let first = access.enter(Some(owner), false).unwrap();
    let nested = access.enter(Some(owner), false).unwrap();
    access.leave(first);
    access.leave(nested);
    access.release(owner);
    assert!(access.enter(None, false).is_ok());
}

#[test]
fn cancel_blocks_later_commands_without_blocking_owned_cleanup() {
    let mut access = WorkflowAccess::default();
    let owner = access.claim().unwrap();
    access.revoke();
    assert_eq!(access.cancellation(owner), Some(true));
    assert!(access.enter(Some(owner), false).is_err());
    assert!(access.enter(Some(owner), true).is_ok());
    assert!(access.enter(None, true).is_err());
}

#[test]
fn expired_owner_cannot_act_on_later_task() {
    let mut access = WorkflowAccess::default();
    let old = access.claim().unwrap();
    access.release(old);
    let new = access.claim().unwrap();
    access.release(old);
    assert!(access.enter(Some(old), true).is_err());
    assert!(access.enter(Some(new), false).is_ok());
}

#[test]
fn closing_revokes_and_never_accepts_a_new_task() {
    let mut access = WorkflowAccess::default();
    let owner = access.claim().unwrap();
    access.close();
    assert_eq!(access.cancellation(owner), Some(true));
    access.release(owner);
    assert!(access.claim().is_err());
    assert!(access.enter(None, false).is_err());
}

#[test]
fn refusals_carry_the_reason() {
    let mut access = WorkflowAccess::default();
    let permit = access.enter(None, false).unwrap();
    assert_eq!(
        access.claim(),
        Err("An application operation is in progress; wait for it to finish".to_owned())
    );
    access.leave(permit);
    let owner = access.claim().unwrap();
    assert_eq!(owner, 1);
    assert_eq!(access.claim(), Err("An Automation task already owns this session".to_owned()));
    assert_eq!(
        access.enter(None, false).err(),
        Some("Automation owns this operation; cancel it or use global motor Stop/Disable".to_owned())
    );
    assert_eq!(
        access.enter(Some(owner + 1), true).err(),
        Some("The operation belongs to an expired or closed session".to_owned())
    );
    access.close();
    assert_eq!(
        access.enter(Some(owner), false).err(),
        Some("Automation was cancelled; no further operation is allowed".to_owned())
    );
    access.release(owner);
    assert_eq!(access.claim(), Err("The original connection is closing".to_owned()));
}

#[test]
fn task_numbers_increase_with_each_claim() {
    let mut access = WorkflowAccess::default();
    let first = access.claim().unwrap();
    access.release(first);
    let second = access.claim().unwrap();
    assert_eq!((first, second), (1, 2));
    assert_eq!(access.cancellation(first), None);
    assert_eq!(access.cancellation(second), Some(false));
}
