//! Handling of BLE events: an HCI event packet from the coprocessor is
//! parsed, handed to the application's callbacks, and acknowledged as they
//! answer.
use crate::sys;
use bt_hci::event::EventPacket;
use bt_hci::FromHciBytes;
use bt_hci::FromHciBytesError;
use vstd::prelude::*;

verus! {

/// bt-hci's HCI event packet: an event code and its parameter bytes.
#[verifier::external_type_specification]
#[verifier::external_body]
pub struct ExEventPacket<'a>(bt_hci::event::EventPacket<'a>);

/// Whether the callbacks consumed a BLE event.
#[derive(Debug, Clone, PartialEq, Eq, Structural)]
pub enum EventBubbling {
    Consumed,
    ReturnForAdditionalProcessing,
}

/// Reacts to BLE events.
pub trait BleEventCallbacks {
    /// Callback to invoke when a BLE event is received.
    ///
    /// Note: this will be invoked on the BLE GAP service thread.
    fn handle_event<'a, 'b>(&'a mut self, event_packet: EventPacket<'b>) -> EventBubbling;
}

/// `bytes` hold a whole HCI event packet: the event code, the length of the
/// parameters, and at least that many parameter bytes.
pub open spec fn holds_event_packet(bytes: Seq<u8>) -> bool {
    bytes.len() >= 2 && bytes.len() - 2 >= bytes[1]
}

/// `bt_hci::event::EventPacket::from_hci_bytes_complete`: reads the event
/// code and parameter length of a packet and takes that many parameter
/// bytes, ignoring any bytes after them; with fewer bytes it fails with
/// `InvalidSize`. The packet is handed back with its event code and
/// parameter bytes.
#[verifier::external_body]
fn parse_event_packet<'a>(bytes: &'a [u8]) -> (result: Result<(EventPacket<'a>, u8, &'a [u8]), FromHciBytesError>)
    ensures
        match result {
            Ok((_, kind, params)) => {
                &&& holds_event_packet(bytes@)
                &&& kind == bytes@[0]
                &&& params@ == bytes@.subrange(2, 2 + bytes@[1])
            },
            Err(error) => !holds_event_packet(bytes@) && error == FromHciBytesError::InvalidSize,
        },
{
    match EventPacket::from_hci_bytes_complete(bytes) {
        Ok(packet) => {
            let kind = packet.kind.0;
            let params = packet.data;
            Ok((packet, kind, params))
        },
        Err(error) => Err(error),
    }
}

/// The acknowledgement code for what the callbacks made of an event.
pub open spec fn ack_code(bubbling: EventBubbling) -> u8 {
    if bubbling is Consumed {
        sys::BleEventAckFlowEnable
    } else {
        sys::BleEventNotAck
    }
}

/// How the coprocessor is told what became of an event: one the callbacks
/// consumed lets the event flow on; any other is not acknowledged.
pub fn ack_status(bubbling: EventBubbling) -> (status: sys::BleEventAckStatus)
    ensures
        status.0 == ack_code(bubbling),
{
    match bubbling {
        EventBubbling::Consumed => sys::BleEventAckStatus(sys::BleEventAckFlowEnable),
        EventBubbling::ReturnForAdditionalProcessing => sys::BleEventAckStatus(sys::BleEventNotAck),
    }
}

/// Handles an HCI event packet from the coprocessor: the packet (its event
/// code, its parameter length, and the parameters) is parsed and handed to
/// the callbacks, as they were, whose answer becomes the acknowledgement;
/// the callbacks are left as handling the event left them. A whole packet
/// always parses.
pub fn dispatch_ble_event<C: BleEventCallbacks>(callbacks: &mut C, hci_event_packet: &[u8]) -> (status:
    sys::BleEventAckStatus)
    requires
        holds_event_packet(hci_event_packet@),
    ensures
        exists|r: &mut C, packet: EventPacket, bubbling: EventBubbling|
            #![trigger call_ensures(C::handle_event, (r, packet), bubbling)]
            call_ensures(C::handle_event, (r, packet), bubbling) && *r == *old(callbacks) && *final(r)
                == *final(callbacks) && status.0 == ack_code(bubbling),
{
    let data_len = hci_event_packet[1] as usize;
    let event = vstd::slice::slice_subrange(hci_event_packet, 0, 2 + data_len);
    match parse_event_packet(event) {
        Ok((event_packet, _kind, _params)) => {
            let handle_event = C::handle_event;
            let ghost packet = event_packet;
            let event_handled = handle_event(callbacks, event_packet);
            let ghost answer = event_handled;
            assert(exists|r: &mut C| call_ensures(C::handle_event, (r, packet), answer) && *r == *old(callbacks) && *final(r) == *callbacks);
            ack_status(event_handled)
        },
        Err(_error) => sys::BleEventAckStatus(sys::BleEventNotAck),
    }
}

/// An event the callbacks consumed is acknowledged with flow enabled; any
/// other is not acknowledged.
pub proof fn law_ack_codes(bubbling: EventBubbling)
    ensures
        ack_code(bubbling) == sys::BleEventAckFlowEnable <==> bubbling is Consumed,
        ack_code(bubbling) == sys::BleEventNotAck <==> bubbling is ReturnForAdditionalProcessing,
{
}

} // verus!
