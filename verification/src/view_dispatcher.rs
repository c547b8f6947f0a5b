//! One of the main primitives for holding views and having them drawn on the
//! screen.
//!
//! The view dispatcher contains a list of views, and allows for switching
//! between different ones. The current view is drawn to the screen and
//! receives the input events.
use crate::firmware::view_dispatcher as fw;
use crate::sys;
use crate::view_dispatcher_type::ViewDispatcherType;
use std::collections::BTreeMap;
use std::marker::PhantomData;
use vstd::prelude::*;

pub mod view_id;

verus! {

broadcast use {vstd::std_specs::btree::group_btree_axioms, vstd::laws_cmp::group_laws_cmp};

/// Should a back event stop the view dispatcher.
#[derive(Debug, PartialEq, Eq, Structural)]
pub enum StopDispatcher {
    /// Stops the currently running event loop.
    Yes,
    /// Discards the input event.
    No,
}

/// A binding method specialised for a specific event callback of the
/// dispatcher.
pub trait CallbackOption {
    /// `after` is `before` with this option's callback registered (ticking
    /// every `tick_period` ticks, for the tick callback).
    spec fn registered(before: fw::ViewDispatcher, after: fw::ViewDispatcher, tick_period: u32) -> bool;

    /// Registers this option's callback.
    fn register(dispatcher: &mut fw::ViewDispatcher, tick_period: u32)
        ensures
            Self::registered(*old(dispatcher), *final(dispatcher), tick_period),
    ;
}

/// Binds an event callback function.
pub trait BindOption<O: CallbackOption> {
    /// Whether this binding registers the callback.
    spec fn binds() -> bool;

    /// Bind the callback associated with this option type, and return whether
    /// it was bound.
    fn bind(dispatcher: &mut fw::ViewDispatcher, tick_period: u32) -> (bound: bool)
        ensures
            bound == Self::binds(),
            bound ==> O::registered(*old(dispatcher), *final(dispatcher), tick_period),
            !bound ==> *final(dispatcher) == *old(dispatcher),
    ;
}

/// An object for binding event callback functions to the dispatcher.
///
/// `O` specifies the specific event callback that should be bound; either
/// the custom event callback, the navigation event callback, or the tick
/// elapsed callback.
pub struct Bind<O> {
    _phantom: PhantomData<O>,
}

impl<T: CallbackOption> BindOption<T> for Bind<T> {
    open spec fn binds() -> bool {
        true
    }

    fn bind(dispatcher: &mut fw::ViewDispatcher, tick_period: u32) -> (bound: bool) {
        T::register(dispatcher, tick_period);
        true
    }
}

/// An object that skips binding a callback.
pub struct DontBind;

impl<T: CallbackOption> BindOption<T> for DontBind {
    open spec fn binds() -> bool {
        false
    }

    fn bind(dispatcher: &mut fw::ViewDispatcher, tick_period: u32) -> (bound: bool) {
        false
    }
}

/// Binding for [`ViewDispatcherCallbacks::on_custom`].
pub struct Custom;

impl CallbackOption for Custom {
    open spec fn registered(
        before: fw::ViewDispatcher,
        after: fw::ViewDispatcher,
        tick_period: u32,
    ) -> bool {
        &&& after.has_custom_event_callback()
        &&& after.has_navigation_event_callback() == before.has_navigation_event_callback()
        &&& after.tick_period() == before.tick_period()
        &&& after.stopped() == before.stopped()
        &&& after.attached() == before.attached()
        &&& after.views() == before.views()
        &&& after.current_view() == before.current_view()
        &&& fw::same_view_port(before, after)
    }

    fn register(dispatcher: &mut fw::ViewDispatcher, tick_period: u32) {
        fw::view_dispatcher_set_custom_event_callback(dispatcher);
    }
}

/// Binding for [`ViewDispatcherCallbacks::on_navigation`].
pub struct Navigation;

impl CallbackOption for Navigation {
    open spec fn registered(
        before: fw::ViewDispatcher,
        after: fw::ViewDispatcher,
        tick_period: u32,
    ) -> bool {
        &&& after.has_navigation_event_callback()
        &&& after.has_custom_event_callback() == before.has_custom_event_callback()
        &&& after.tick_period() == before.tick_period()
        &&& after.stopped() == before.stopped()
        &&& after.attached() == before.attached()
        &&& after.views() == before.views()
        &&& after.current_view() == before.current_view()
        &&& fw::same_view_port(before, after)
    }

    fn register(dispatcher: &mut fw::ViewDispatcher, tick_period: u32) {
        fw::view_dispatcher_set_navigation_event_callback(dispatcher);
    }
}

/// Binding for [`ViewDispatcherCallbacks::on_tick`].
pub struct Tick;

impl CallbackOption for Tick {
    open spec fn registered(
        before: fw::ViewDispatcher,
        after: fw::ViewDispatcher,
        tick_period: u32,
    ) -> bool {
        &&& after.tick_period() == Some(tick_period)
        &&& after.has_custom_event_callback() == before.has_custom_event_callback()
        &&& after.has_navigation_event_callback() == before.has_navigation_event_callback()
        &&& after.stopped() == before.stopped()
        &&& after.attached() == before.attached()
        &&& after.views() == before.views()
        &&& after.current_view() == before.current_view()
        &&& fw::same_view_port(before, after)
    }

    fn register(dispatcher: &mut fw::ViewDispatcher, tick_period: u32) {
        fw::view_dispatcher_set_tick_event_callback(dispatcher, tick_period);
    }
}

/// Handlers for events received by the view dispatcher. Each event handler
/// is given the dispatcher the event came to.
pub trait ViewDispatcherCallbacks: Sized {
    /// Whether the custom event callback is bound.
    type BindCustom: BindOption<Custom>;
    /// Whether the navigation event callback is bound.
    type BindNavigation: BindOption<Navigation>;
    /// Whether the tick event callback is bound.
    type BindTick: BindOption<Tick>;

    /// Called on a custom event, if that custom event is otherwise not
    /// consumed.
    ///
    /// The return value of this function is unused.
    fn on_custom(
        &self,
        view_dispatcher: &ViewDispatcherInner<Self>,
        event: u32,
    ) -> (consumed: bool)
        default_ensures
            !consumed,
    {
        false
    }

    /// Called on a (short) Back input event, if that input event is otherwise
    /// not consumed.
    ///
    /// Only called if:
    ///  * the view_dispatcher's current view does not consume the input.
    ///  * the view_dispatcher's current view does not define a previous view.
    fn on_navigation(
        &self,
        view_dispatcher: &ViewDispatcherInner<Self>,
    ) -> (stop: StopDispatcher)
        default_ensures
            stop == StopDispatcher::No,
    {
        StopDispatcher::No
    }

    /// Called every tick period, when the tick callback is bound.
    fn on_tick(&self, view_dispatcher: &ViewDispatcherInner<Self>) {
    }

    /// The number of ticks between two calls of [`Self::on_tick`].
    fn tick_period(&self) -> (period: u32)
        ensures
            period > 0,
        default_ensures
            period == 100,
    {
        100
    }
}

impl ViewDispatcherCallbacks for () {
    type BindCustom = DontBind;
    type BindNavigation = DontBind;
    type BindTick = DontBind;
}

/// The view dispatcher's own record of views and of the current view, kept
/// alongside the firmware's.
///
/// Each id ever used maps to whether a view is bound to it now.
pub struct ViewDispatcherInner<C> {
    inner: fw::ViewDispatcher,
    callbacks: C,
    current_view: u32,
    views: BTreeMap<u32, bool>,
}

/// `id` has a view bound to it.
pub open spec fn is_bound(views: Map<u32, bool>, id: u32) -> bool {
    views.contains_key(id) && views[id]
}

impl<C> ViewDispatcherInner<C> {
    /// The firmware's dispatcher.
    pub closed spec fn firmware(&self) -> fw::ViewDispatcher {
        self.inner
    }

    /// The callbacks of this dispatcher.
    pub closed spec fn callbacks(&self) -> C {
        self.callbacks
    }

    /// The id of the current view; [`view_id::NONE`] when there is none.
    pub closed spec fn current_view(&self) -> u32 {
        self.current_view
    }

    /// Each id ever used, with whether a view is bound to it now.
    pub closed spec fn views(&self) -> Map<u32, bool> {
        self.views@
    }

    /// The dispatcher's record agrees with the firmware's: the firmware holds
    /// exactly the bound views, and its current view is this dispatcher's.
    pub closed spec fn wf(&self) -> bool {
        &&& forall|id: u32| #[trigger]
            self.inner.views().contains(id) <==> is_bound(self.views@, id)
        &&& match self.inner.current_view() {
            None => self.current_view == view_id::NONE,
            Some(id) => self.current_view == id,
        }
    }
}

impl<C: ViewDispatcherCallbacks> ViewDispatcherInner<C> {
    /// Creates a new view dispatcher attached to the GUI, with the event
    /// callbacks that `C` binds registered, and the dispatcher as their
    /// context when at least one is bound.
    pub fn new(callbacks: C, kind: ViewDispatcherType) -> (dispatcher: Self)
        ensures
            dispatcher.wf(),
            dispatcher.views() == Map::<u32, bool>::empty(),
            dispatcher.current_view() == view_id::NONE,
            dispatcher.callbacks() == callbacks,
            dispatcher.firmware().views() == Set::<u32>::empty(),
            dispatcher.firmware().current_view() is None,
            dispatcher.firmware().has_custom_event_callback() == C::BindCustom::binds(),
            dispatcher.firmware().has_navigation_event_callback() == C::BindNavigation::binds(),
            C::BindTick::binds() ==> dispatcher.firmware().tick_period() is Some,
            !C::BindTick::binds() ==> dispatcher.firmware().tick_period() is None,
            !dispatcher.firmware().stopped(),
            dispatcher.firmware().attached() == Some(sys::ViewDispatcherType(kind.code())),
            dispatcher.firmware().view_port_draws(),
            dispatcher.firmware().view_port_queues_input(),
            dispatcher.firmware().has_event_context() == (C::BindCustom::binds() || C::BindNavigation::binds()
                || C::BindTick::binds()),
            dispatcher.firmware().queued_input() is None,
    {
        let mut inner = fw::view_dispatcher_alloc();
        let tick_period = callbacks.tick_period();
        let custom = C::BindCustom::bind(&mut inner, tick_period);
        let navigation = C::BindNavigation::bind(&mut inner, tick_period);
        let tick = C::BindTick::bind(&mut inner, tick_period);
        // The callbacks get the dispatcher as their context, if any is bound.
        if custom || navigation || tick {
            fw::view_dispatcher_set_event_callback_context(&mut inner);
        }
        fw::view_dispatcher_attach_to_gui(&mut inner, sys::ViewDispatcherType::from(kind));
        ViewDispatcherInner { inner, callbacks, current_view: view_id::NONE, views: BTreeMap::new() }
    }
}

impl<C> ViewDispatcherInner<C> {
    /// The id of the current view, if any.
    pub fn get_current_view(&self) -> (current: Option<u32>)
        ensures
            current == if self.current_view() == view_id::NONE {
                None
            } else {
                Some(self.current_view())
            },
    {
        if self.current_view == view_id::NONE {
            None
        } else {
            Some(self.current_view)
        }
    }

    /// A mutable reference to the callbacks.
    pub fn get_context_mut(&mut self) -> (callbacks: &mut C)
        requires
            old(self).wf(),
        ensures
            final(self).wf(),
            *callbacks == old(self).callbacks(),
            final(self).callbacks() == *final(callbacks),
            final(self).views() == old(self).views(),
            final(self).current_view() == old(self).current_view(),
            final(self).firmware() == old(self).firmware(),
    {
        &mut self.callbacks
    }

    /// Binds `view` to `id`, unless a view is bound to `id` already; then
    /// `view` is handed back.
    pub fn add_view<V>(&mut self, id: u32, view: V) -> (result: Result<ViewDispatcherView<V>, V>)
        requires
            old(self).wf(),
        ensures
            final(self).wf(),
            result is Ok <==> !is_bound(old(self).views(), id),
            match result {
                Ok(bound) => {
                    &&& bound.id == id
                    &&& bound.view == view
                    &&& final(self).views() == old(self).views().insert(id, true)
                    &&& final(self).firmware().views() == old(self).firmware().views().insert(id)
                },
                Err(rejected) => {
                    &&& rejected == view
                    &&& final(self).views() == old(self).views()
                    &&& final(self).firmware().views() == old(self).firmware().views()
                },
            },
            final(self).current_view() == old(self).current_view(),
            final(self).callbacks() == old(self).callbacks(),
            final(self).firmware().current_view() == old(self).firmware().current_view(),
            fw::same_callbacks(old(self).firmware(), final(self).firmware()),
    {
        let bound = match self.views.get(&id) {
            Some(bound) => *bound,
            None => false,
        };
        if bound {
            return Err(view);
        }
        self.add_view_on_success(id);
        Ok(ViewDispatcherView { view, id })
    }

    fn add_view_on_success(&mut self, id: u32)
        requires
            old(self).wf(),
            !is_bound(old(self).views(), id),
        ensures
            final(self).wf(),
            final(self).views() == old(self).views().insert(id, true),
            final(self).firmware().views() == old(self).firmware().views().insert(id),
            final(self).current_view() == old(self).current_view(),
            final(self).callbacks() == old(self).callbacks(),
            final(self).firmware().current_view() == old(self).firmware().current_view(),
            fw::same_callbacks(old(self).firmware(), final(self).firmware()),
    {
        self.views.insert(id, true);
        fw::view_dispatcher_add_view(&mut self.inner, id);
    }

    /// Unbinds the view bound to `view.id`, removing it from the firmware.
    pub fn remove_view<V>(&mut self, view: ViewDispatcherView<V>)
        requires
            old(self).wf(),
            old(self).views().contains_key(view.id),
        ensures
            final(self).wf(),
            final(self).views() == old(self).views().insert(view.id, false),
            final(self).firmware().views() == old(self).firmware().views().remove(view.id),
            final(self).current_view() == old(self).current_view(),
            final(self).callbacks() == old(self).callbacks(),
            final(self).firmware().current_view() == old(self).firmware().current_view(),
            fw::same_callbacks(old(self).firmware(), final(self).firmware()),
    {
        let id = view.id;
        self.views.insert(id, false);
        fw::view_dispatcher_remove_view(&mut self.inner, id);
    }

    /// Switch the dispatcher's current view to the view that was registered
    /// at `id`. If no view was ever registered there, this does nothing.
    pub fn switch_to_view(&mut self, id: u32)
        requires
            old(self).wf(),
            old(self).views().contains_key(id) ==> old(self).views()[id],
        ensures
            final(self).wf(),
            final(self).current_view() == if old(self).views().contains_key(id) {
                id
            } else {
                old(self).current_view()
            },
            final(self).firmware().current_view() == if old(self).views().contains_key(id) {
                Some(id)
            } else {
                old(self).firmware().current_view()
            },
            final(self).views() == old(self).views(),
            final(self).callbacks() == old(self).callbacks(),
            final(self).firmware().views() == old(self).firmware().views(),
            fw::same_callbacks(old(self).firmware(), final(self).firmware()),
    {
        if self.views.contains_key(&id) {
            self.switch_to_bound_view(id);
        }
    }

    fn switch_to_bound_view(&mut self, id: u32)
        requires
            old(self).wf(),
            is_bound(old(self).views(), id),
        ensures
            final(self).wf(),
            final(self).current_view() == id,
            final(self).firmware().current_view() == Some(id),
            final(self).views() == old(self).views(),
            final(self).callbacks() == old(self).callbacks(),
            final(self).firmware().views() == old(self).firmware().views(),
            fw::same_callbacks(old(self).firmware(), final(self).firmware()),
    {
        fw::view_dispatcher_switch_to_view(&mut self.inner, id);
        self.current_view = id;
    }

    /// Stops this view dispatcher: its event loop ends.
    pub fn stop(&mut self)
        requires
            old(self).wf(),
        ensures
            final(self).wf(),
            final(self).firmware().stopped(),
            final(self).views() == old(self).views(),
            final(self).current_view() == old(self).current_view(),
            final(self).callbacks() == old(self).callbacks(),
            final(self).firmware().views() == old(self).firmware().views(),
            final(self).firmware().current_view() == old(self).firmware().current_view(),
    {
        fw::view_dispatcher_stop(&mut self.inner);
    }
}

/// A view that is bound to a dispatcher, and may be switched to.
#[must_use]
pub struct ViewDispatcherView<V> {
    pub view: V,
    pub id: u32,
}

impl<V> ViewDispatcherView<V> {
    /// Switch this view to be the current view of the dispatcher. It will
    /// then be drawn to the screen, and will receive any input events.
    pub fn switch_to_view<C>(&self, dispatcher: &mut ViewDispatcherInner<C>)
        requires
            old(dispatcher).wf(),
            is_bound(old(dispatcher).views(), self.id),
        ensures
            final(dispatcher).wf(),
            final(dispatcher).current_view() == self.id,
            final(dispatcher).firmware().current_view() == Some(self.id),
            final(dispatcher).views() == old(dispatcher).views(),
            final(dispatcher).callbacks() == old(dispatcher).callbacks(),
            final(dispatcher).firmware().views() == old(dispatcher).firmware().views(),
    {
        dispatcher.switch_to_view(self.id);
    }
}

/// A handle that can make its view the dispatcher's current view.
pub trait Switchable {
    /// The id of the view this handle switches to.
    spec fn target(&self) -> u32;

    /// Makes the view this handle stands for the dispatcher's current view.
    fn switch_to_view<C>(&self, dispatcher: &mut ViewDispatcherInner<C>)
        requires
            old(dispatcher).wf(),
            is_bound(old(dispatcher).views(), self.target()),
        ensures
            final(dispatcher).wf(),
            final(dispatcher).current_view() == self.target(),
            final(dispatcher).firmware().current_view() == Some(self.target()),
            final(dispatcher).views() == old(dispatcher).views(),
            final(dispatcher).callbacks() == old(dispatcher).callbacks(),
            final(dispatcher).firmware().views() == old(dispatcher).firmware().views(),
    ;
}

impl<V> Switchable for ViewDispatcherView<V> {
    open spec fn target(&self) -> u32 {
        self.id
    }

    fn switch_to_view<C>(&self, dispatcher: &mut ViewDispatcherInner<C>) {
        ViewDispatcherView::switch_to_view(self, dispatcher);
    }
}

/// A handle to a view bound to a dispatcher, that only switches to it.
#[derive(Clone, Copy, Debug, PartialEq, Eq, Structural)]
pub struct SwitchableRef {
    pub id: u32,
}

impl Switchable for SwitchableRef {
    open spec fn target(&self) -> u32 {
        self.id
    }

    fn switch_to_view<C>(&self, dispatcher: &mut ViewDispatcherInner<C>) {
        dispatcher.switch_to_view(self.id);
    }
}

impl<V> ViewDispatcherView<V> {
    /// A handle that switches to this view.
    pub fn clone_switchable(&self) -> (switchable: SwitchableRef)
        ensures
            switchable.id == self.id,
    {
        SwitchableRef { id: self.id }
    }
}

/// Whether the dispatcher goes on after its navigation callback answered.
pub fn navigation_continues(stop: StopDispatcher) -> (continues: bool)
    ensures
        continues == (stop is No),
{
    stop != StopDispatcher::Yes
}

impl<C: ViewDispatcherCallbacks> ViewDispatcherInner<C> {
    /// Hands a custom event to the callbacks, answering what they answer.
    pub fn dispatch_custom(&self, event: u32) -> (consumed: bool)
        ensures
            exists|answer: bool|
                #![trigger call_ensures(C::on_custom, (&self.callbacks(), self, event), answer)]
                call_ensures(C::on_custom, (&self.callbacks(), self, event), answer) && consumed == answer,
    {
        let on_custom = C::on_custom;
        on_custom(&self.callbacks, self, event)
    }

    /// Asks the callbacks what a Back event no view consumed does, answering
    /// whether the dispatcher goes on.
    pub fn dispatch_navigation(&self) -> (continues: bool)
        ensures
            exists|stop: StopDispatcher|
                #![trigger call_ensures(C::on_navigation, (&self.callbacks(), self), stop)]
                call_ensures(C::on_navigation, (&self.callbacks(), self), stop) && continues == (stop is No),
    {
        let on_navigation = C::on_navigation;
        let stop = on_navigation(&self.callbacks, self);
        navigation_continues(stop)
    }

    /// Tells the callbacks that a tick period elapsed.
    pub fn dispatch_tick(&self)
        ensures
            call_ensures(C::on_tick, (&self.callbacks(), self), ()),
    {
        let on_tick = C::on_tick;
        on_tick(&self.callbacks, self)
    }
}

/// The id a dispatcher reports as its current view: none while the current
/// view is [`view_id::NONE`].
pub open spec fn reported_current_view(current_view: u32) -> Option<u32> {
    if current_view == view_id::NONE {
        None
    } else {
        Some(current_view)
    }
}

/// Switching to a view bound under an id other than [`view_id::NONE`] makes
/// the dispatcher report that id as its current view.
pub proof fn law_switch_then_current<C>(before: ViewDispatcherInner<C>, after: ViewDispatcherInner<C>, id: u32)
    requires
        before.wf(),
        is_bound(before.views(), id),
        id != view_id::NONE,
        after.current_view() == (if before.views().contains_key(id) {
            id
        } else {
            before.current_view()
        }),
    ensures
        reported_current_view(after.current_view()) == Some(id),
{
}

/// An id stays taken while a view is bound to it: a second view added under
/// it is refused; once that view is removed, a view can be added under it
/// again.
pub proof fn law_bind_remove_bind(views: Map<u32, bool>, id: u32)
    ensures
        is_bound(views.insert(id, true), id),
        !is_bound(views.insert(id, true).insert(id, false), id),
{
}

/// The firmware holds exactly the bound views, and its current view is the
/// dispatcher's; every operation of the dispatcher keeps this so.
pub proof fn law_firmware_agrees<C>(dispatcher: ViewDispatcherInner<C>, id: u32)
    requires
        dispatcher.wf(),
    ensures
        dispatcher.firmware().views().contains(id) <==> is_bound(dispatcher.views(), id),
        match dispatcher.firmware().current_view() {
            None => dispatcher.current_view() == view_id::NONE,
            Some(current) => dispatcher.current_view() == current,
        },
{
}

} // verus!
