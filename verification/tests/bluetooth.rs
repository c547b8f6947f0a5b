use flipperzero::bluetooth::handler::{ack_status, dispatch_ble_event, BleEventCallbacks, EventBubbling};
use flipperzero::bluetooth::hci::{async_command_result, hci_request_for, sync_command_status, HciError};
use flipperzero::bluetooth::profile::{
    dispatch_configure_gap_profile, set_gap_name_and_appearance, BleProfileCallbacks, BleProfileContext,
    FURI_HAL_VERSION_DEVICE_NAME_LENGTH,
};
use flipperzero::bluetooth::{get_radio_stack, radio_stack_from_c2_info, RadioStack, SupportedRadioStack};
use flipperzero::sys;
use bt_hci::event::EventPacket;
use bt_hci::param::Status;
use bt_hci::FromHciBytesError;

fn c2(stack_type: u8) -> sys::BleGlueC2Info {
    sys::BleGlueC2Info { StackType: stack_type, StackTypeString: [0; 20] }
}

#[test]
fn supported_radio_stacks() {
    assert_eq!(get_radio_stack(sys::FuriHalBtStack(sys::FuriHalBtStackLight), &c2(0)), Ok(SupportedRadioStack::Light));
    assert_eq!(get_radio_stack(sys::FuriHalBtStack(sys::FuriHalBtStackFull), &c2(0)), Ok(SupportedRadioStack::Full));
    assert_eq!(get_radio_stack(sys::FuriHalBtStack(sys::FuriHalBtStackUnknown), &c2(0x02)), Err(RadioStack::Hci));
}

#[test]
fn radio_stacks_by_stack_type() {
    assert_eq!(radio_stack_from_c2_info(&c2(0x01)), RadioStack::Full);
    assert_eq!(radio_stack_from_c2_info(&c2(0x03)), RadioStack::Light);
    assert_eq!(radio_stack_from_c2_info(&c2(0x04)), RadioStack::Beacon);
    assert_eq!(radio_stack_from_c2_info(&c2(0x05)), RadioStack::Basic);
    assert_eq!(radio_stack_from_c2_info(&c2(0x06)), RadioStack::Full);
    assert_eq!(radio_stack_from_c2_info(&c2(0x07)), RadioStack::Full);
    assert_eq!(radio_stack_from_c2_info(&c2(0x10)), RadioStack::Unknown(0x10));
}

struct Answer {
    bubbling: EventBubbling,
    seen: Vec<(u8, Vec<u8>)>,
}

impl BleEventCallbacks for Answer {
    fn handle_event<'a, 'b>(&'a mut self, event_packet: EventPacket<'b>) -> EventBubbling {
        self.seen.push((event_packet.kind.0, event_packet.data.to_vec()));
        self.bubbling.clone()
    }
}

#[test]
fn ble_events_are_parsed_and_acknowledged() {
    let mut consumer = Answer { bubbling: EventBubbling::Consumed, seen: Vec::new() };
    let packet = [0x3e, 3, 1, 2, 3, 0xAA, 0xBB];
    let status = dispatch_ble_event(&mut consumer, &packet);
    assert_eq!(status.0, sys::BleEventAckFlowEnable);
    assert_eq!(consumer.seen, vec![(0x3e, vec![1, 2, 3])]);

    let mut passer = Answer { bubbling: EventBubbling::ReturnForAdditionalProcessing, seen: Vec::new() };
    let status = dispatch_ble_event(&mut passer, &[0x05, 0]);
    assert_eq!(status.0, sys::BleEventNotAck);
    assert_eq!(passer.seen, vec![(0x05, vec![])]);
}

#[test]
fn ack_statuses() {
    assert_eq!(ack_status(EventBubbling::Consumed).0, sys::BleEventAckFlowEnable);
    assert_eq!(ack_status(EventBubbling::ReturnForAdditionalProcessing).0, sys::BleEventNotAck);
}

#[test]
fn hci_requests() {
    let request = hci_request_for(0x2006, vec![1, 2, 3], 1);
    assert_eq!(request.ogf, 0x08);
    assert_eq!(request.ocf, 0x0006);
    assert_eq!(request.event, 0);
    assert_eq!(request.cparam, vec![1, 2, 3]);
    assert_eq!(request.clen, 3);
    assert_eq!(request.rlen, 1);
}

#[test]
fn async_command_results() {
    assert_eq!(async_command_result(0, 0), Ok(()));
    assert_eq!(async_command_result(0x0C, 0), Err(Status::new(0x0C)));
    assert_eq!(async_command_result(0, 0x12), Err(Status::new(0x12)));
    assert_eq!(async_command_result(0x01, 0x12), Err(Status::new(0x01)));
}

#[test]
fn sync_command_statuses() {
    assert!(sync_command_status(0).is_ok());
    match sync_command_status(0x02) {
        Err(HciError::Status(status)) => assert_eq!(status.into_inner(), 0x02),
        _ => panic!("expected a status error"),
    }
}

#[test]
fn hci_errors_from_parse_errors() {
    assert!(matches!(HciError::from(FromHciBytesError::InvalidSize), HciError::InvalidSize));
    assert!(matches!(HciError::from(FromHciBytesError::InvalidValue), HciError::InvalidValue));
}

struct Named {
    appearance: u16,
}

impl BleProfileContext for Named {
    type ProfileContext = ();
}

impl BleProfileCallbacks for Named {
    fn configure_appearance(&self) -> u16 {
        self.appearance
    }
}

fn empty_config() -> sys::GapConfig {
    sys::GapConfig {
        adv_service: sys::GapConfig__bindgen_ty_1 { UUID_Type: 0, Service_UUID_16: 0, Service_UUID_128: [0; 16] },
        mfg_data: [0; 23],
        mfg_data_len: 0,
        appearance_char: 0,
        bonding_mode: false,
        pairing_method: sys::GapPairing(0),
        mac_address: [0; 6],
        adv_name: [0xFF; 18],
        conn_param: sys::GapConnectionParamsRequest {
            conn_int_min: 0,
            conn_int_max: 0,
            slave_latency: 0,
            supervisor_timeout: 0,
        },
    }
}

#[test]
fn default_name_is_padded_with_zeros() {
    let named = Named { appearance: 0 };
    let name = named.configure_name(b"Flipper Ab");
    assert_eq!(&name[..10], b"Flipper Ab");
    assert!(name[10..].iter().all(|byte| *byte == 0));
    assert_eq!(name.len(), FURI_HAL_VERSION_DEVICE_NAME_LENGTH - 1);
}

#[test]
fn gap_configuration_advertises_the_name() {
    let mut named = Named { appearance: 0x0341 };
    let mut config = empty_config();
    dispatch_configure_gap_profile(&mut named, &mut config, b"Flipper Zed");
    assert_eq!(config.adv_name[0], 0x09);
    assert_eq!(&config.adv_name[1..12], b"Flipper Zed");
    assert!(config.adv_name[12..].iter().all(|byte| *byte == 0));
    assert_eq!(config.appearance_char, 0x0341);

    let mut other = empty_config();
    set_gap_name_and_appearance(&mut other, [b'x'; 17], 7);
    assert_eq!(&other.adv_name[1..], &[b'x'; 17]);
    assert_eq!(other.appearance_char, 7);
}

#[test]
fn opcode_fields_make_up_the_opcode() {
    for opcode in [0x0000u16, 0x2006, 0x0C03, 0xFC01, 0xFFFF] {
        let request = hci_request_for(opcode, vec![], 0);
        assert_eq!((request.ogf << 10) | request.ocf, opcode);
    }
}
