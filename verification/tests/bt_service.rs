use flipperzero::firmware::bt::{
    ble_event_dispatcher_register_svc_handler, ble_event_dispatcher_unregister_svc_handler, bt_profile_restore_default,
    bt_profile_start, can_unregister_svc_handler, BtInner,
};
use flipperzero::sys;
use std::cell::RefCell;

fn ack(status: u8) -> sys::BleEventAckStatus {
    sys::BleEventAckStatus(status)
}

#[test]
fn handlers_are_asked_in_order_until_one_acknowledges() {
    let mut bt: BtInner<u8, u32> = BtInner::new();
    let first = ble_event_dispatcher_register_svc_handler(&mut bt, 10);
    let second = ble_event_dispatcher_register_svc_handler(&mut bt, 20);
    ble_event_dispatcher_register_svc_handler(&mut bt, 30);
    assert_eq!((first, second), (0, 1));
    let asked = RefCell::new(Vec::new());
    bt.receive_hci_event(vec![0x3e, 1, 7]);
    assert!(bt.has_hci_event());
    assert!(bt.hci_event_waiting());
    let consumed = bt.handle_hci_event(|handler: &u8, event: &Vec<u8>| {
        asked.borrow_mut().push((*handler, event.clone()));
        if *handler == 20 { ack(sys::BleEventAckFlowEnable) } else { ack(sys::BleEventNotAck) }
    });
    assert_eq!(consumed, Some(1));
    assert_eq!(*asked.borrow(), vec![(10, vec![0x3e, 1, 7]), (20, vec![0x3e, 1, 7])]);
    assert!(!bt.has_hci_event());
}

#[test]
fn an_event_nobody_acknowledges_reaches_every_handler() {
    let mut bt: BtInner<u8, u32> = BtInner::new();
    ble_event_dispatcher_register_svc_handler(&mut bt, 1);
    ble_event_dispatcher_register_svc_handler(&mut bt, 2);
    let count = RefCell::new(0);
    bt.receive_hci_event(vec![5, 0]);
    let consumed = bt.handle_hci_event(|_: &u8, _: &Vec<u8>| {
        *count.borrow_mut() += 1;
        ack(sys::BleEventNotAck)
    });
    assert_eq!(consumed, None);
    assert_eq!(*count.borrow(), 2);
}

#[test]
fn unregistering_removes_the_handler_at_its_index() {
    let mut bt: BtInner<u8, u32> = BtInner::new();
    let first = ble_event_dispatcher_register_svc_handler(&mut bt, 1);
    let second = ble_event_dispatcher_register_svc_handler(&mut bt, 2);
    ble_event_dispatcher_unregister_svc_handler(&mut bt, second);
    let asked = RefCell::new(Vec::new());
    bt.receive_hci_event(vec![5, 0]);
    bt.handle_hci_event(|handler: &u8, _: &Vec<u8>| {
        asked.borrow_mut().push(*handler);
        ack(sys::BleEventNotAck)
    });
    assert_eq!(*asked.borrow(), vec![1]);
    ble_event_dispatcher_unregister_svc_handler(&mut bt, first);
}

#[test]
fn starting_a_profile_stops_the_previous_one() {
    let mut bt: BtInner<u8, u32> = BtInner::new();
    let stopped = RefCell::new(Vec::new());
    let had_previous = bt_profile_start(
        &mut bt,
        |mut config: sys::GapConfig| {
            assert_eq!(config.appearance_char, 0);
            config.appearance_char = 0x0341;
            config
        },
        || 1u32,
        |profile: u32| stopped.borrow_mut().push(profile),
    );
    assert!(!had_previous);
    let had_previous = bt_profile_start(&mut bt, |config: sys::GapConfig| config, || 2u32, |profile: u32| {
        stopped.borrow_mut().push(profile)
    });
    assert!(had_previous);
    assert_eq!(*stopped.borrow(), vec![1]);
    assert!(bt_profile_restore_default(&mut bt, |profile: u32| stopped.borrow_mut().push(profile)));
    assert_eq!(*stopped.borrow(), vec![1, 2]);
    assert!(bt_profile_restore_default(&mut bt, |profile: u32| stopped.borrow_mut().push(profile)));
    assert_eq!(*stopped.borrow(), vec![1, 2]);
}

#[test]
fn stopping_the_service() {
    let mut bt: BtInner<u8, u32> = BtInner::new();
    assert!(!bt.is_stopped());
    bt.request_stop();
    assert!(bt.is_stopped());
    bt.set_thread_id(3);
}

#[test]
fn a_handler_whose_index_went_stale_cannot_be_unregistered() {
    let mut bt: BtInner<u8, u32> = BtInner::new();
    let first = ble_event_dispatcher_register_svc_handler(&mut bt, 1);
    let second = ble_event_dispatcher_register_svc_handler(&mut bt, 2);
    assert!(can_unregister_svc_handler(&bt, first));
    assert!(can_unregister_svc_handler(&bt, second));
    assert!(!can_unregister_svc_handler(&bt, 7));
    ble_event_dispatcher_unregister_svc_handler(&mut bt, first);
    // The second handler was registered at index 1, which the list no longer has.
    assert!(!can_unregister_svc_handler(&bt, second));
}
