use nmixx::motor_gate::MotorGate;

#[test]
fn stop_invalidates_prepared_start_but_not_a_later_explicit_run() {
    let mut gate = MotorGate::default();
    let ticket = gate.ticket();
    gate.cancel();
    assert!(gate.start(ticket).is_err());
    assert!(gate.start(gate.ticket()).is_ok());
}

#[test]
fn disconnect_rejects_old_and_new_start_tickets() {
    let mut gate = MotorGate::default();
    let old = gate.ticket();
    gate.close();
    assert!(gate.start(old).is_err());
    assert!(gate.start(gate.ticket()).is_err());
    assert!(gate.is_closed());
}

#[test]
fn refusals_name_the_cause() {
    let mut gate = MotorGate::default();
    assert_eq!(gate.start(gate.ticket()), Ok(()));
    let ticket = gate.ticket();
    gate.cancel();
    assert_eq!(gate.start(ticket), Err("motor start was cancelled"));
    gate.close();
    assert_eq!(gate.start(gate.ticket()), Err("device connection is closing"));
}

#[test]
fn each_cancel_moves_the_ticket_on() {
    let mut gate = MotorGate::default();
    assert_eq!(gate.ticket(), 0);
    gate.cancel();
    gate.cancel();
    assert_eq!(gate.ticket(), 2);
    assert!(!gate.is_closed());
}
