use keyer_core::{element_timing, Duration, Element, ElementQueue, KeyCommand, TxController};

#[test]
fn element_timing_follows_unit_ratios() {
    let unit = Duration::from_millis(60);
    let dit = element_timing(Element::Dit, unit);
    assert!(dit.keyed);
    assert_eq!(dit.on_time.as_millis(), 60);
    assert_eq!(dit.pause.as_millis(), 60);
    let dah = element_timing(Element::Dah, unit);
    assert!(dah.keyed);
    assert_eq!(dah.on_time.as_millis(), 180);
    assert_eq!(dah.pause.as_millis(), 60);
    let space = element_timing(Element::CharSpace, unit);
    assert!(!space.keyed);
    assert_eq!(space.on_time.as_millis(), 0);
    assert_eq!(space.pause.as_millis(), 180);
}

#[test]
fn tx_controller_flags() {
    let mut tx = TxController::new();
    assert!(tx.is_idle());
    assert!(!tx.is_transmitting());
    assert!(tx.can_start_transmission(0));
    tx.set_transmitting(100);
    assert!(tx.is_transmitting());
    assert!(!tx.can_start_transmission(500));
    assert!(!tx.is_element_finished(99));
    assert!(tx.is_element_finished(100));
    tx.set_idle_with_constraint(200);
    assert!(!tx.can_start_transmission(199));
    assert!(tx.can_start_transmission(200));
}

#[test]
fn start_and_end_set_deadlines() {
    let mut tx = TxController::new();
    assert!(tx.start_element_transmission(Element::Dah, 1000, 60));
    assert!(!tx.is_element_finished(1179));
    assert!(tx.is_element_finished(1180));
    tx.end_element_transmission(1180, 60);
    assert!(!tx.can_start_transmission(1239));
    assert!(tx.can_start_transmission(1240));
    assert!(!tx.start_element_transmission(Element::CharSpace, 1240, 60));
    assert!(tx.is_idle());
    assert!(!tx.can_start_transmission(1359));
    assert!(tx.can_start_transmission(1360));
}

#[test]
fn sender_plays_queue_in_order() {
    let mut tx = TxController::new();
    let mut queue = ElementQueue::new();
    queue.enqueue(Element::Dit).unwrap();
    queue.enqueue(Element::Dah).unwrap();

    assert_eq!(tx.update_transmission_fsm(0, 60, &mut queue), KeyCommand::Down);
    assert_eq!(queue.len(), 1);
    assert_eq!(tx.update_transmission_fsm(59, 60, &mut queue), KeyCommand::Hold);
    assert_eq!(tx.update_transmission_fsm(60, 60, &mut queue), KeyCommand::Up);
    assert_eq!(tx.update_transmission_fsm(119, 60, &mut queue), KeyCommand::Hold);
    assert_eq!(queue.len(), 1);
    assert_eq!(tx.update_transmission_fsm(120, 60, &mut queue), KeyCommand::Down);
    assert!(queue.is_empty());
    assert_eq!(tx.update_transmission_fsm(299, 60, &mut queue), KeyCommand::Hold);
    assert_eq!(tx.update_transmission_fsm(300, 60, &mut queue), KeyCommand::Up);
    assert_eq!(tx.update_transmission_fsm(400, 60, &mut queue), KeyCommand::Hold);
}

#[test]
fn low_power_needs_quiet_idle() {
    let mut tx = TxController::new();
    assert!(keyer_core::can_enter_low_power(&tx, true, false, 5000, 0));
    assert!(!keyer_core::can_enter_low_power(&tx, true, false, 4999, 0));
    assert!(!keyer_core::can_enter_low_power(&tx, false, false, 9000, 0));
    assert!(!keyer_core::can_enter_low_power(&tx, true, true, 9000, 0));
    assert!(!keyer_core::can_enter_low_power(&tx, true, false, 10, 20));
    tx.set_transmitting(9100);
    assert!(!keyer_core::can_enter_low_power(&tx, true, false, 9000, 0));
}
