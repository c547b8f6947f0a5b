//! The firmware's view dispatcher: a registry of views by id, the current
//! view, the registered event callbacks, and the handling of input events.
use crate::sys;
use std::collections::BTreeSet;
use vstd::prelude::*;

verus! {

broadcast use {vstd::std_specs::btree::group_btree_axioms, vstd::laws_cmp::group_laws_cmp};

/// Special view ID which ignores navigation event.
pub const IGNORE: u32 = 0xFFFFFFFE;

/// The firmware's view dispatcher.
pub struct ViewDispatcher {
    views: BTreeSet<u32>,
    current_view: Option<u32>,
    custom_event_callback: bool,
    navigation_event_callback: bool,
    tick_event_callback: Option<u32>,
    stop: bool,
    gui: Option<sys::ViewDispatcherType>,
    view_port_draws: bool,
    view_port_queues_input: bool,
    event_context: bool,
    input_channel: Option<sys::InputEvent>,
}

impl ViewDispatcher {
    /// The ids under which views are registered.
    pub closed spec fn views(&self) -> Set<u32> {
        self.views@
    }

    /// The id of the current view, if any.
    pub closed spec fn current_view(&self) -> Option<u32> {
        self.current_view
    }

    /// Whether a custom event callback is registered.
    pub closed spec fn has_custom_event_callback(&self) -> bool {
        self.custom_event_callback
    }

    /// Whether a navigation event callback is registered.
    pub closed spec fn has_navigation_event_callback(&self) -> bool {
        self.navigation_event_callback
    }

    /// The period of the registered tick event callback, if one is registered.
    pub closed spec fn tick_period(&self) -> Option<u32> {
        self.tick_event_callback
    }

    /// Whether the dispatcher was asked to stop running.
    pub closed spec fn stopped(&self) -> bool {
        self.stop
    }

    /// Whether the dispatcher's view port has its draw callback set, with the
    /// dispatcher as its context: drawing draws the current view.
    pub closed spec fn view_port_draws(&self) -> bool {
        self.view_port_draws
    }

    /// Whether the dispatcher's view port has its input callback set, with
    /// the dispatcher as its context: input is queued for the dispatcher.
    pub closed spec fn view_port_queues_input(&self) -> bool {
        self.view_port_queues_input
    }

    /// Whether a context for the event callbacks was set (none is, at first).
    pub closed spec fn has_event_context(&self) -> bool {
        self.event_context
    }

    /// The input event queued for the dispatcher, if any.
    pub closed spec fn queued_input(&self) -> Option<sys::InputEvent> {
        self.input_channel
    }

    /// The placement of the dispatcher's view port on the GUI it is attached
    /// to, if it is attached.
    pub closed spec fn attached(&self) -> Option<sys::ViewDispatcherType> {
        self.gui
    }
}

/// The state of `after` is that of `before` except for the registered views
/// and the current view.
pub open spec fn same_callbacks(before: ViewDispatcher, after: ViewDispatcher) -> bool {
    &&& after.has_custom_event_callback() == before.has_custom_event_callback()
    &&& after.has_navigation_event_callback() == before.has_navigation_event_callback()
    &&& after.tick_period() == before.tick_period()
    &&& after.stopped() == before.stopped()
    &&& after.attached() == before.attached()
}

/// `after` has the view port, event context and queued input of `before`.
pub open spec fn same_view_port(before: ViewDispatcher, after: ViewDispatcher) -> bool {
    &&& after.view_port_draws() == before.view_port_draws()
    &&& after.view_port_queues_input() == before.view_port_queues_input()
    &&& after.has_event_context() == before.has_event_context()
    &&& after.queued_input() == before.queued_input()
}

/// Allocates a view dispatcher: no views, no current view, no callbacks.
pub fn view_dispatcher_alloc() -> (dispatcher: ViewDispatcher)
    ensures
        dispatcher.views() == Set::<u32>::empty(),
        dispatcher.current_view() is None,
        !dispatcher.has_custom_event_callback(),
        !dispatcher.has_navigation_event_callback(),
        dispatcher.tick_period() is None,
        !dispatcher.stopped(),
        dispatcher.attached() is None,
        dispatcher.view_port_draws(),
        dispatcher.view_port_queues_input(),
        !dispatcher.has_event_context(),
        dispatcher.queued_input() is None,
{
    ViewDispatcher {
        views: BTreeSet::new(),
        current_view: None,
        custom_event_callback: false,
        navigation_event_callback: false,
        tick_event_callback: None,
        stop: false,
        gui: None,
        view_port_draws: true,
        view_port_queues_input: true,
        event_context: false,
        input_channel: None,
    }
}

/// Registers a view under `view_id`, which must not be in use.
pub fn view_dispatcher_add_view(view_dispatcher: &mut ViewDispatcher, view_id: u32)
    requires
        !old(view_dispatcher).views().contains(view_id),
    ensures
        final(view_dispatcher).views() == old(view_dispatcher).views().insert(view_id),
        final(view_dispatcher).current_view() == old(view_dispatcher).current_view(),
        same_callbacks(*old(view_dispatcher), *final(view_dispatcher)),
        same_view_port(*old(view_dispatcher), *final(view_dispatcher)),
{
    view_dispatcher.views.insert(view_id);
}

/// Removes the view registered under `view_id`, if any.
pub fn view_dispatcher_remove_view(view_dispatcher: &mut ViewDispatcher, view_id: u32)
    ensures
        final(view_dispatcher).views() == old(view_dispatcher).views().remove(view_id),
        final(view_dispatcher).current_view() == old(view_dispatcher).current_view(),
        same_callbacks(*old(view_dispatcher), *final(view_dispatcher)),
        same_view_port(*old(view_dispatcher), *final(view_dispatcher)),
{
    view_dispatcher.views.remove(&view_id);
}

/// Makes the view registered under `view_id` the current view.
pub fn view_dispatcher_switch_to_view(view_dispatcher: &mut ViewDispatcher, view_id: u32)
    requires
        old(view_dispatcher).views().contains(view_id),
    ensures
        final(view_dispatcher).views() == old(view_dispatcher).views(),
        final(view_dispatcher).current_view() == Some(view_id),
        same_callbacks(*old(view_dispatcher), *final(view_dispatcher)),
        same_view_port(*old(view_dispatcher), *final(view_dispatcher)),
{
    view_dispatcher.current_view = Some(view_id);
}

/// Registers the custom event callback.
pub fn view_dispatcher_set_custom_event_callback(view_dispatcher: &mut ViewDispatcher)
    ensures
        final(view_dispatcher).has_custom_event_callback(),
        final(view_dispatcher).has_navigation_event_callback() == old(view_dispatcher).has_navigation_event_callback(),
        final(view_dispatcher).tick_period() == old(view_dispatcher).tick_period(),
        final(view_dispatcher).stopped() == old(view_dispatcher).stopped(),
        final(view_dispatcher).attached() == old(view_dispatcher).attached(),
        final(view_dispatcher).views() == old(view_dispatcher).views(),
        final(view_dispatcher).current_view() == old(view_dispatcher).current_view(),
        same_view_port(*old(view_dispatcher), *final(view_dispatcher)),
{
    view_dispatcher.custom_event_callback = true;
}

/// Registers the navigation event callback.
pub fn view_dispatcher_set_navigation_event_callback(view_dispatcher: &mut ViewDispatcher)
    ensures
        final(view_dispatcher).has_navigation_event_callback(),
        final(view_dispatcher).has_custom_event_callback() == old(view_dispatcher).has_custom_event_callback(),
        final(view_dispatcher).tick_period() == old(view_dispatcher).tick_period(),
        final(view_dispatcher).stopped() == old(view_dispatcher).stopped(),
        final(view_dispatcher).attached() == old(view_dispatcher).attached(),
        final(view_dispatcher).views() == old(view_dispatcher).views(),
        final(view_dispatcher).current_view() == old(view_dispatcher).current_view(),
        same_view_port(*old(view_dispatcher), *final(view_dispatcher)),
{
    view_dispatcher.navigation_event_callback = true;
}

/// Registers the tick event callback, to be called every `tick_period` ticks.
pub fn view_dispatcher_set_tick_event_callback(
    view_dispatcher: &mut ViewDispatcher,
    tick_period: u32,
)
    ensures
        final(view_dispatcher).tick_period() == Some(tick_period),
        final(view_dispatcher).has_custom_event_callback() == old(view_dispatcher).has_custom_event_callback(),
        final(view_dispatcher).has_navigation_event_callback() == old(view_dispatcher).has_navigation_event_callback(),
        final(view_dispatcher).stopped() == old(view_dispatcher).stopped(),
        final(view_dispatcher).attached() == old(view_dispatcher).attached(),
        final(view_dispatcher).views() == old(view_dispatcher).views(),
        final(view_dispatcher).current_view() == old(view_dispatcher).current_view(),
        same_view_port(*old(view_dispatcher), *final(view_dispatcher)),
{
    view_dispatcher.tick_event_callback = Some(tick_period);
}

/// Sets the context the event callbacks get.
pub fn view_dispatcher_set_event_callback_context(view_dispatcher: &mut ViewDispatcher)
    ensures
        final(view_dispatcher).has_event_context(),
        final(view_dispatcher).views() == old(view_dispatcher).views(),
        final(view_dispatcher).current_view() == old(view_dispatcher).current_view(),
        same_callbacks(*old(view_dispatcher), *final(view_dispatcher)),
        final(view_dispatcher).view_port_draws() == old(view_dispatcher).view_port_draws(),
        final(view_dispatcher).view_port_queues_input() == old(view_dispatcher).view_port_queues_input(),
        final(view_dispatcher).queued_input() == old(view_dispatcher).queued_input(),
{
    view_dispatcher.event_context = true;
}

/// Asks the dispatcher to stop running.
pub fn view_dispatcher_stop(view_dispatcher: &mut ViewDispatcher)
    ensures
        final(view_dispatcher).stopped(),
        final(view_dispatcher).views() == old(view_dispatcher).views(),
        final(view_dispatcher).current_view() == old(view_dispatcher).current_view(),
        final(view_dispatcher).has_custom_event_callback() == old(view_dispatcher).has_custom_event_callback(),
        final(view_dispatcher).has_navigation_event_callback() == old(view_dispatcher).has_navigation_event_callback(),
        final(view_dispatcher).tick_period() == old(view_dispatcher).tick_period(),
        final(view_dispatcher).attached() == old(view_dispatcher).attached(),
        same_view_port(*old(view_dispatcher), *final(view_dispatcher)),
{
    view_dispatcher.stop = true;
}

/// Attaches the dispatcher to the GUI, placing its view port as `type_` says.
pub fn view_dispatcher_attach_to_gui(
    view_dispatcher: &mut ViewDispatcher,
    type_: sys::ViewDispatcherType,
)
    ensures
        final(view_dispatcher).attached() == Some(type_),
        final(view_dispatcher).views() == old(view_dispatcher).views(),
        final(view_dispatcher).current_view() == old(view_dispatcher).current_view(),
        final(view_dispatcher).has_custom_event_callback() == old(view_dispatcher).has_custom_event_callback(),
        final(view_dispatcher).has_navigation_event_callback() == old(view_dispatcher).has_navigation_event_callback(),
        final(view_dispatcher).tick_period() == old(view_dispatcher).tick_period(),
        final(view_dispatcher).stopped() == old(view_dispatcher).stopped(),
        same_view_port(*old(view_dispatcher), *final(view_dispatcher)),
{
    view_dispatcher.gui = Some(type_);
}

/// Whether an input event that the current view did not consume asks for
/// navigation: a short press of the Back key.
pub open spec fn is_navigation_event(event: sys::InputEvent) -> bool {
    &&& event.key.0 == sys::InputKeyBack
    &&& event.type_.0 == sys::InputTypeShort
}

impl ViewDispatcher {
    /// Whether the dispatcher was asked to stop running.
    pub fn is_stopped(&self) -> (stopped: bool)
        ensures
            stopped == self.stopped(),
    {
        self.stop
    }

    /// The view port's input callback: queues `event` for the dispatcher's
    /// event loop. Nothing may be queued already.
    pub fn queue_input_event(&mut self, event: sys::InputEvent)
        requires
            old(self).queued_input() is None,
        ensures
            final(self).queued_input() == Some(event),
            final(self).views() == old(self).views(),
            final(self).current_view() == old(self).current_view(),
            same_callbacks(*old(self), *final(self)),
            final(self).view_port_draws() == old(self).view_port_draws(),
            final(self).view_port_queues_input() == old(self).view_port_queues_input(),
            final(self).has_event_context() == old(self).has_event_context(),
    {
        self.input_channel = Some(event);
    }

    /// Takes the queued input event, if any, for the event loop to handle.
    pub fn take_input_event(&mut self) -> (event: Option<sys::InputEvent>)
        ensures
            event == old(self).queued_input(),
            final(self).queued_input() is None,
            final(self).views() == old(self).views(),
            final(self).current_view() == old(self).current_view(),
            same_callbacks(*old(self), *final(self)),
            final(self).view_port_draws() == old(self).view_port_draws(),
            final(self).view_port_queues_input() == old(self).view_port_queues_input(),
            final(self).has_event_context() == old(self).has_event_context(),
    {
        self.input_channel.take()
    }

    /// One round of the event loop's input handling: the queued input event,
    /// if any, is taken and handled as [`Self::process_input`] says; the
    /// queue is empty afterwards, whatever the dispatcher held.
    pub fn process_queued_input<I, P, N>(&mut self, view_input: I, view_previous: P, navigation: N) -> (event:
        Option<sys::InputEvent>)
        where
            I: FnOnce(u32, sys::InputEvent) -> bool,
            P: FnOnce(u32) -> u32,
            N: FnOnce() -> bool,
        requires
            forall|id: u32, e: sys::InputEvent| call_requires(view_input, (id, e)),
            forall|id: u32| call_requires(view_previous, (id,)),
            call_requires(navigation, ()),
            old(self).current_view() matches Some(id) ==> old(self).views().contains(id),
            forall|id: u32, previous: u32|
                call_ensures(view_previous, (id,), previous) ==> previous == IGNORE || old(self).views().contains(previous),
        ensures
            event == old(self).queued_input(),
            final(self).queued_input() is None,
            final(self).views() == old(self).views(),
            final(self).has_custom_event_callback() == old(self).has_custom_event_callback(),
            final(self).has_navigation_event_callback() == old(self).has_navigation_event_callback(),
            final(self).tick_period() == old(self).tick_period(),
            final(self).attached() == old(self).attached(),
            event is None ==> final(self).current_view() == old(self).current_view() && final(self).stopped()
                == old(self).stopped(),
    {
        let event = self.take_input_event();
        match event {
            Some(e) => {
                self.process_input(e, view_input, view_previous, navigation);
            },
            None => {},
        }
        event
    }

    /// The view port's draw callback: draws the current view, if any, with
    /// `draw_view`, given the view's id; the dispatcher is left as it is.
    pub fn view_port_dispatch_draw<D>(&self, draw_view: D) -> (drawn: Option<u32>)
        where
            D: FnOnce(u32),
        requires
            forall|id: u32| call_requires(draw_view, (id,)),
        ensures
            drawn == self.current_view(),
            drawn matches Some(id) ==> call_ensures(draw_view, (id,), ()),
    {
        match self.current_view {
            Some(id) => {
                draw_view(id);
                Some(id)
            },
            None => None,
        }
    }

    /// Handles an input event.
    ///
    /// The event goes to the current view (`view_input` is the view's input
    /// callback, answering whether it consumed the event). An event the view
    /// does not consume that is a short Back press asks the view for the view
    /// to go back to (`view_previous`): [`IGNORE`] hands the event to the
    /// navigation event callback (`navigation`, answering whether the
    /// dispatcher should go on; the dispatcher stops when it answers false),
    /// any other id becomes the current view.
    pub fn process_input<I, P, N>(
        &mut self,
        event: sys::InputEvent,
        view_input: I,
        view_previous: P,
        navigation: N,
    )
        where
            I: FnOnce(u32, sys::InputEvent) -> bool,
            P: FnOnce(u32) -> u32,
            N: FnOnce() -> bool,
        requires
            forall|id: u32| call_requires(view_input, (id, event)),
            forall|id: u32| call_requires(view_previous, (id,)),
            call_requires(navigation, ()),
            old(self).current_view() matches Some(id) ==> old(self).views().contains(id),
            forall|id: u32, previous: u32|
                call_ensures(view_previous, (id,), previous) ==> previous == IGNORE || old(self).views().contains(previous),
        ensures
            final(self).views() == old(self).views(),
            final(self).has_custom_event_callback() == old(self).has_custom_event_callback(),
            final(self).has_navigation_event_callback() == old(self).has_navigation_event_callback(),
            final(self).tick_period() == old(self).tick_period(),
            final(self).attached() == old(self).attached(),
            same_view_port(*old(self), *final(self)),
            match old(self).current_view() {
                None => final(self).current_view() is None && final(self).stopped() == old(self).stopped(),
                Some(id) => exists|consumed: bool|
                    #![trigger call_ensures(view_input, (id, event), consumed)]
                    call_ensures(view_input, (id, event), consumed) && if consumed
                        || !is_navigation_event(event) {
                        final(self).current_view() == Some(id) && final(self).stopped() == old(self).stopped()
                    } else {
                        exists|previous: u32|
                            #![trigger call_ensures(view_previous, (id,), previous)]
                            call_ensures(view_previous, (id,), previous) && if previous == IGNORE {
                                final(self).current_view() == Some(id) && if old(self).has_navigation_event_callback() {
                                    exists|goes_on: bool|
                                        #![trigger call_ensures(navigation, (), goes_on)]
                                        call_ensures(navigation, (), goes_on) && final(self).stopped() == (old(self).stopped() || !goes_on)
                                } else {
                                    final(self).stopped() == old(self).stopped()
                                }
                            } else {
                                final(self).current_view() == Some(previous) && final(self).stopped() == old(self).stopped()
                            }
                    },
            },
    {
        let current_view_id = match self.current_view {
            None => {
                return;
            },
            Some(id) => id,
        };
        let is_consumed = view_input(current_view_id, event);
        if is_consumed {
            return;
        }
        if event.key.0 != sys::InputKeyBack {
            return;
        }
        if event.type_.0 != sys::InputTypeShort {
            return;
        }
        let view_to_switch_to = view_previous(current_view_id);
        if view_to_switch_to == IGNORE {
            if !self.navigation_event_callback {
                return;
            }
            let goes_on = navigation();
            if !goes_on {
                self.stop = true;
            }
        } else {
            self.current_view = Some(view_to_switch_to);
        }
    }
}

} // verus!
