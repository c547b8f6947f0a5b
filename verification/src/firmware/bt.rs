//! The Bluetooth service's record: the GAP configuration and the profile
//! running, the registered BLE event handlers, and the HCI event waiting to
//! be handled.
use crate::sys;
use vstd::prelude::*;

verus! {

/// The HCI event channel between the radio and the service.
pub enum ChannelState {
    /// An HCI event packet waits to be handled.
    Full(Vec<u8>),
    /// The service is handing the packet to the handlers.
    Processing,
}

/// A registered BLE event handler: its callback with its context (`H`), the
/// number of handlers registered before it, and its identity.
pub struct GapEventHandler<H> {
    pub callback: H,
    pub index: usize,
    pub handle: u64,
}

/// The Bluetooth service; `H` is a handler's callback, `P` a running
/// profile.
///
/// A handler is known by its identity, as the firmware knows it by its
/// address; identities are handed out in order.
pub struct BtInner<H, P> {
    thread_id: usize,
    hci_event_channel: Option<ChannelState>,
    stop: bool,
    config: Option<sys::GapConfig>,
    profile: Option<P>,
    handlers: Vec<GapEventHandler<H>>,
    next_handle: u64,
}

/// The handlers' identities, in order.
pub open spec fn handles<H>(handlers: Seq<GapEventHandler<H>>) -> Seq<u64> {
    handlers.map_values(|handler: GapEventHandler<H>| handler.handle)
}

impl<H, P> BtInner<H, P> {
    /// The id of the thread the service runs on.
    pub closed spec fn thread(&self) -> usize {
        self.thread_id
    }

    /// The channel of HCI events.
    pub closed spec fn channel(&self) -> Option<ChannelState> {
        self.hci_event_channel
    }

    /// Whether the service was asked to stop.
    pub closed spec fn stopped(&self) -> bool {
        self.stop
    }

    /// The GAP configuration of the running profile.
    pub closed spec fn config(&self) -> Option<sys::GapConfig> {
        self.config
    }

    /// The running profile.
    pub closed spec fn profile(&self) -> Option<P> {
        self.profile
    }

    /// The registered handlers, in the order they are asked.
    pub closed spec fn handlers(&self) -> Seq<GapEventHandler<H>> {
        self.handlers@
    }

    /// The identity the next handler gets.
    pub closed spec fn next_handle(&self) -> u64 {
        self.next_handle
    }

    /// Every handler's identity is below the next one.
    pub open spec fn wf(&self) -> bool {
        forall|i: int| 0 <= i < self.handlers().len() ==> #[trigger] self.handlers()[i].handle < self.next_handle()
    }

    /// The record of a freshly started service: nothing registered, no
    /// profile, no event waiting.
    pub fn new() -> (bt: Self)
        ensures
            bt.wf(),
            bt.thread() == 0,
            bt.channel() is None,
            !bt.stopped(),
            bt.config() is None,
            bt.profile() is None,
            bt.handlers() == Seq::<GapEventHandler<H>>::empty(),
            bt.next_handle() == 0,
    {
        BtInner {
            thread_id: 0,
            hci_event_channel: None,
            stop: false,
            config: None,
            profile: None,
            handlers: Vec::new(),
            next_handle: 0,
        }
    }

    /// Records the thread the service runs on.
    pub fn set_thread_id(&mut self, thread_id: usize)
        ensures
            final(self).thread() == thread_id,
            final(self).channel() == old(self).channel(),
            final(self).stopped() == old(self).stopped(),
            final(self).config() == old(self).config(),
            final(self).profile() == old(self).profile(),
            final(self).handlers() == old(self).handlers(),
            final(self).next_handle() == old(self).next_handle(),
    {
        self.thread_id = thread_id;
    }

    /// Asks the service to stop.
    pub fn request_stop(&mut self)
        ensures
            final(self).stopped(),
            final(self).thread() == old(self).thread(),
            final(self).channel() == old(self).channel(),
            final(self).config() == old(self).config(),
            final(self).profile() == old(self).profile(),
            final(self).handlers() == old(self).handlers(),
            final(self).next_handle() == old(self).next_handle(),
    {
        self.stop = true;
    }

    /// Whether the channel holds an HCI event, waiting or being handled.
    pub fn has_hci_event(&self) -> (pending: bool)
        ensures
            pending == (self.channel() is Some),
    {
        self.hci_event_channel.is_some()
    }

    /// Whether an HCI event waits to be handled.
    pub fn hci_event_waiting(&self) -> (waiting: bool)
        ensures
            waiting == (self.channel() matches Some(ChannelState::Full(_))),
    {
        match &self.hci_event_channel {
            Some(ChannelState::Full(_)) => true,
            _ => false,
        }
    }

    /// Whether the service was asked to stop.
    pub fn is_stopped(&self) -> (stopped: bool)
        ensures
            stopped == self.stopped(),
    {
        self.stop
    }

    /// Hands an HCI event packet to the service; the channel must be empty.
    /// The sender then waits until [`Self::has_hci_event`] is false.
    pub fn receive_hci_event(&mut self, event: Vec<u8>)
        requires
            old(self).channel() is None,
        ensures
            final(self).channel() == Some(ChannelState::Full(event)),
            final(self).thread() == old(self).thread(),
            final(self).stopped() == old(self).stopped(),
            final(self).config() == old(self).config(),
            final(self).profile() == old(self).profile(),
            final(self).handlers() == old(self).handlers(),
            final(self).next_handle() == old(self).next_handle(),
    {
        self.hci_event_channel = Some(ChannelState::Full(event));
    }

    /// Hands the waiting HCI event to the handlers, in order, until one
    /// acknowledges it with flow enabled (its position is returned); a
    /// handler that does not acknowledge passes it on. `call` calls a
    /// handler's callback with the packet. The channel is empty afterwards.
    pub fn handle_hci_event<F>(&mut self, call: F) -> (consumed_by: Option<usize>)
        where
            F: Fn(&H, &Vec<u8>) -> sys::BleEventAckStatus,
        requires
            old(self).channel() matches Some(ChannelState::Full(_)),
            forall|handler: &H, event: &Vec<u8>| call_requires(call, (handler, event)),
            forall|handler: &H, event: &Vec<u8>, status: sys::BleEventAckStatus|
                call_ensures(call, (handler, event), status) ==> status.0 == sys::BleEventNotAck || status.0
                    == sys::BleEventAckFlowEnable,
        ensures
            final(self).channel() is None,
            final(self).handlers() == old(self).handlers(),
            final(self).thread() == old(self).thread(),
            final(self).stopped() == old(self).stopped(),
            final(self).config() == old(self).config(),
            final(self).profile() == old(self).profile(),
            final(self).next_handle() == old(self).next_handle(),
            ({
                let event = old(self).channel()->0->0;
                let handlers = old(self).handlers();
                match consumed_by {
                    Some(k) => {
                        &&& k < handlers.len()
                        &&& call_ensures(
                            call,
                            (&handlers[k as int].callback, &event),
                            sys::BleEventAckStatus(sys::BleEventAckFlowEnable),
                        )
                        &&& forall|j: int|
                            0 <= j < k ==> call_ensures(
                                call,
                                (&#[trigger] handlers[j].callback, &event),
                                sys::BleEventAckStatus(sys::BleEventNotAck),
                            )
                    },
                    None => forall|j: int|
                        0 <= j < handlers.len() ==> call_ensures(
                            call,
                            (&#[trigger] handlers[j].callback, &event),
                            sys::BleEventAckStatus(sys::BleEventNotAck),
                        ),
                }
            }),
    {
        let event = match self.hci_event_channel.take() {
            Some(ChannelState::Full(event)) => event,
            _ => {
                proof {
                    assert(false);
                }
                Vec::new()
            },
        };
        self.hci_event_channel = Some(ChannelState::Processing);
        let mut consumed_by: Option<usize> = None;
        let mut i: usize = 0;
        while i < self.handlers.len()
            invariant_except_break
                i <= self.handlers@.len(),
                consumed_by is None,
                forall|j: int|
                    0 <= j < i ==> call_ensures(
                        call,
                        (&#[trigger] self.handlers@[j].callback, &event),
                        sys::BleEventAckStatus(sys::BleEventNotAck),
                    ),
            invariant
                self.handlers@ == old(self).handlers(),
                forall|handler: &H, event: &Vec<u8>| call_requires(call, (handler, event)),
                forall|handler: &H, event: &Vec<u8>, status: sys::BleEventAckStatus|
                    call_ensures(call, (handler, event), status) ==> status.0 == sys::BleEventNotAck || status.0
                        == sys::BleEventAckFlowEnable,
            ensures
                match consumed_by {
                    Some(k) => {
                        &&& k < self.handlers@.len()
                        &&& call_ensures(
                            call,
                            (&self.handlers@[k as int].callback, &event),
                            sys::BleEventAckStatus(sys::BleEventAckFlowEnable),
                        )
                        &&& forall|j: int|
                            0 <= j < k ==> call_ensures(
                                call,
                                (&#[trigger] self.handlers@[j].callback, &event),
                                sys::BleEventAckStatus(sys::BleEventNotAck),
                            )
                    },
                    None => forall|j: int|
                        0 <= j < self.handlers@.len() ==> call_ensures(
                            call,
                            (&#[trigger] self.handlers@[j].callback, &event),
                            sys::BleEventAckStatus(sys::BleEventNotAck),
                        ),
                },
            decreases self.handlers@.len() - i,
        {
            let status = call(&self.handlers[i].callback, &event);
            if status.0 == sys::BleEventAckFlowEnable {
                consumed_by = Some(i);
                break;
            }
            i = i + 1;
        }
        self.hci_event_channel = None;
        consumed_by
    }
}

/// Registers a BLE event handler, asked after those registered before; its
/// identity is returned.
pub fn ble_event_dispatcher_register_svc_handler<H, P>(bt: &mut BtInner<H, P>, callback: H) -> (handle: u64)
    requires
        old(bt).wf(),
        old(bt).next_handle() < u64::MAX,
    ensures
        final(bt).wf(),
        handle == old(bt).next_handle(),
        final(bt).next_handle() == old(bt).next_handle() + 1,
        final(bt).handlers() == old(bt).handlers().push(
            GapEventHandler { callback, index: old(bt).handlers().len() as usize, handle },
        ),
        final(bt).thread() == old(bt).thread(),
        final(bt).channel() == old(bt).channel(),
        final(bt).stopped() == old(bt).stopped(),
        final(bt).config() == old(bt).config(),
        final(bt).profile() == old(bt).profile(),
{
    let handle = bt.next_handle;
    let index = bt.handlers.len();
    bt.handlers.push(GapEventHandler { callback, index, handle });
    bt.next_handle = handle + 1;
    handle
}

/// The position of the handler with identity `handle`, if one is
/// registered.
fn find_handler<H>(handlers: &Vec<GapEventHandler<H>>, handle: u64) -> (position: Option<usize>)
    ensures
        match position {
            Some(p) => p < handlers@.len() && handlers@[p as int].handle == handle,
            None => !handles(handlers@).contains(handle),
        },
{
    let mut i: usize = 0;
    while i < handlers.len()
        invariant
            i <= handlers@.len(),
            forall|j: int| 0 <= j < i ==> #[trigger] handlers@[j].handle != handle,
        decreases handlers@.len() - i,
    {
        if handlers[i].handle == handle {
            return Some(i);
        }
        i = i + 1;
    }
    proof {
        if handles(handlers@).contains(handle) {
            let j = choose|j: int| 0 <= j < handles(handlers@).len() && handles(handlers@)[j] == handle;
            assert(handlers@[j].handle != handle);
        }
    }
    None
}

/// Whether the handler with identity `handle` can be unregistered: it is
/// registered, and the position its index names still holds a handler.
pub fn can_unregister_svc_handler<H, P>(bt: &BtInner<H, P>, handle: u64) -> (allowed: bool)
    ensures
        allowed == (handles(bt.handlers()).contains(handle) && forall|p: int|
            0 <= p < bt.handlers().len() && #[trigger] bt.handlers()[p].handle == handle
                ==> bt.handlers()[p].index < bt.handlers().len()),
{
    let position = match find_handler(&bt.handlers, handle) {
        Some(position) => position,
        None => {
            return false;
        },
    };
    proof {
        assert(handles(bt.handlers@)[position as int] == handle);
    }
    let len = bt.handlers.len();
    let mut i: usize = 0;
    while i < len
        invariant
            len == bt.handlers@.len(),
            i <= len,
            forall|p: int| 0 <= p < i && #[trigger] bt.handlers@[p].handle == handle ==> bt.handlers@[p].index < len,
        decreases len - i,
    {
        if bt.handlers[i].handle == handle && bt.handlers[i].index >= len {
            return false;
        }
        i = i + 1;
    }
    true
}

/// Unregisters the handler with identity `handle`: the handler at the
/// position its index names (the number of handlers registered before it)
/// is removed. The handler must be registered, and that position must still
/// hold a handler.
pub fn ble_event_dispatcher_unregister_svc_handler<H, P>(bt: &mut BtInner<H, P>, handle: u64)
    requires
        old(bt).wf(),
        handles(old(bt).handlers()).contains(handle),
        forall|p: int|
            0 <= p < old(bt).handlers().len() && #[trigger] old(bt).handlers()[p].handle == handle
                ==> old(bt).handlers()[p].index < old(bt).handlers().len(),
    ensures
        final(bt).wf(),
        exists|p: int|
            0 <= p < old(bt).handlers().len() && #[trigger] old(bt).handlers()[p].handle == handle
                && final(bt).handlers() == old(bt).handlers().remove(old(bt).handlers()[p].index as int),
        final(bt).next_handle() == old(bt).next_handle(),
        final(bt).thread() == old(bt).thread(),
        final(bt).channel() == old(bt).channel(),
        final(bt).stopped() == old(bt).stopped(),
        final(bt).config() == old(bt).config(),
        final(bt).profile() == old(bt).profile(),
{
    let position = match find_handler(&bt.handlers, handle) {
        Some(position) => position,
        None => {
            proof {
                let j = choose|j: int| 0 <= j < handles(bt.handlers@).len() && handles(bt.handlers@)[j] == handle;
                assert(bt.handlers@[j].handle == handle);
            }
            0
        },
    };
    let index = bt.handlers[position].index;
    bt.handlers.remove(index);
    proof {
        assert forall|i: int| 0 <= i < bt.handlers().len() implies #[trigger] bt.handlers()[i].handle < bt.next_handle() by {
            if i < index {
                assert(bt.handlers()[i] == old(bt).handlers()[i]);
            } else {
                assert(bt.handlers()[i] == old(bt).handlers()[i + 1]);
            }
        }
    }
}

/// Changes the BLE profile: the GAP configuration is what `configure`
/// makes of the default one, the profile is what `start` gives; a profile
/// that was running is stopped by `stop`.
pub fn bt_profile_start<H, P, C, S, T>(bt: &mut BtInner<H, P>, configure: C, start: S, stop: T) -> (previous_stopped: bool)
    where
        C: FnOnce(sys::GapConfig) -> sys::GapConfig,
        S: FnOnce() -> P,
        T: FnOnce(P),
    requires
        forall|config: sys::GapConfig| call_requires(configure, (config,)),
        call_requires(start, ()),
        forall|profile: P| call_requires(stop, (profile,)),
    ensures
        previous_stopped == (old(bt).profile() is Some),
        old(bt).profile() matches Some(previous) ==> call_ensures(stop, (previous,), ()),
        exists|default: sys::GapConfig, config: sys::GapConfig|
            sys::is_zeroed_gap_config(default) && call_ensures(configure, (default,), config)
                && final(bt).config() == Some(config),
        exists|profile: P| call_ensures(start, (), profile) && final(bt).profile() == Some(profile),
        final(bt).handlers() == old(bt).handlers(),
        final(bt).next_handle() == old(bt).next_handle(),
        final(bt).thread() == old(bt).thread(),
        final(bt).channel() == old(bt).channel(),
        final(bt).stopped() == old(bt).stopped(),
{
    let default = <sys::GapConfig as Default>::default();
    let gap_config = configure(default);
    bt.config = Some(gap_config);
    let profile = start();
    let previous = bt.profile.take();
    bt.profile = Some(profile);
    match previous {
        Some(previous) => {
            stop(previous);
            true
        },
        None => false,
    }
}

/// Stops the running profile, if any, with `stop`, and forgets the GAP
/// configuration.
pub fn bt_profile_restore_default<H, P, T>(bt: &mut BtInner<H, P>, stop: T) -> (restored: bool)
    where
        T: FnOnce(P),
    requires
        forall|profile: P| call_requires(stop, (profile,)),
    ensures
        restored,
        old(bt).profile() matches Some(previous) ==> call_ensures(stop, (previous,), ()),
        final(bt).config() is None,
        final(bt).profile() is None,
        final(bt).handlers() == old(bt).handlers(),
        final(bt).next_handle() == old(bt).next_handle(),
        final(bt).thread() == old(bt).thread(),
        final(bt).channel() == old(bt).channel(),
        final(bt).stopped() == old(bt).stopped(),
{
    bt.config = None;
    match bt.profile.take() {
        Some(previous) => stop(previous),
        None => {},
    }
    true
}

} // verus!
