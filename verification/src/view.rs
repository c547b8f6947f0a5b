//! View callbacks and how their answers reach the firmware.
use crate::firmware::view::{
    view_alloc, view_allocate_model, view_set_context, view_set_draw_callback, view_set_input_callback,
    view_set_previous_callback, ViewInstance,
};
use crate::firmware::view_dispatcher::IGNORE;
use crate::input::{converts_input_event, input_event_converts, InputEvent};
use crate::sys;
use vstd::prelude::*;

verus! {

/// Whether a view consumed an input event.
#[derive(Clone, Debug, PartialEq, Eq, Structural)]
pub enum EventBubbling {
    Consumed,
    ReturnForAdditionalProcessing,
}

/// Callbacks of a view.
pub trait ViewCallbacks: Send {
    /// Draw the view onto the canvas.
    ///
    /// NOTE: called from the GUI thread
    fn on_draw(&mut self, canvas: &mut sys::Canvas);

    /// React to a user input.
    fn on_input(&mut self, event: InputEvent) -> (bubbling: EventBubbling)
        default_ensures
            bubbling == EventBubbling::ReturnForAdditionalProcessing,
    {
        EventBubbling::ReturnForAdditionalProcessing
    }

    /// React to a custom event.
    fn on_custom_event(&mut self, event: u32) {
    }

    /// Provide the ID of a scene to switch to, on a (short) Back input event.
    ///
    /// Note; this is only called if the view is owned by a view dispatcher.
    ///
    /// If none is returned, the view dispatcher's navigation event callback
    /// will be invoked, which may then optionally stop the view dispatcher.
    fn on_back_event(&mut self) -> (scene: Option<u32>)
        default_ensures
            scene is None,
    {
        None
    }
}

impl ViewCallbacks for () {
    fn on_draw(&mut self, _canvas: &mut sys::Canvas) {
    }
}

/// The view id a view's answer to a Back event stands for: the id it names,
/// or [`IGNORE`] when it names none.
pub fn previous_view_id(back: Option<u32>) -> (id: u32)
    ensures
        id == previous_view_id_spec(back),
{
    match back {
        Some(scene_id) => scene_id,
        None => IGNORE,
    }
}

/// The view id a view's answer to a Back event stands for.
pub open spec fn previous_view_id_spec(back: Option<u32>) -> u32 {
    match back {
        Some(id) => id,
        None => IGNORE,
    }
}

/// Whether a view's answer to an input event tells the firmware the event
/// was handled.
pub fn input_handled(bubbling: EventBubbling) -> (handled: bool)
    ensures
        handled == (bubbling is Consumed),
{
    bubbling == EventBubbling::Consumed
}

/// Asks a view to draw itself on `canvas`: the view's callbacks, as they
/// were, draw on the canvas as it was; both are left as drawing left them.
pub fn dispatch_draw<C: ViewCallbacks>(callbacks: &mut C, canvas: &mut sys::Canvas)
    ensures
        exists|r: &mut C, c: &mut sys::Canvas|
            #![trigger call_ensures(C::on_draw, (r, c), ())]
            {
                &&& call_ensures(C::on_draw, (r, c), ())
                &&& *r == *old(callbacks)
                &&& *final(r) == *final(callbacks)
                &&& *c == *old(canvas)
                &&& *final(c) == *final(canvas)
            },
{
    let on_draw = C::on_draw;
    on_draw(callbacks, canvas);
    assert(exists|r: &mut C, c: &mut sys::Canvas|
        call_ensures(C::on_draw, (r, c), ()) && *r == *old(callbacks) && *final(r) == *callbacks && *c == *old(canvas)
            && *final(c) == *canvas);
}

/// Asks a view for the view to go back to, in the firmware's terms: the
/// view's callbacks, as they were, answer the Back event, and are left as
/// answering it left them.
pub fn dispatch_previous<C: ViewCallbacks>(callbacks: &mut C) -> (id: u32)
    ensures
        exists|r: &mut C, back: Option<u32>|
            #![trigger call_ensures(C::on_back_event, (r,), back)]
            call_ensures(C::on_back_event, (r,), back) && *r == *old(callbacks) && *final(r) == *final(callbacks)
                && id == previous_view_id_spec(back),
{
    let on_back_event = C::on_back_event;
    let back = on_back_event(callbacks);
    let ghost answer = back;
    assert(exists|r: &mut C| call_ensures(C::on_back_event, (r,), answer) && *r == *old(callbacks) && *final(r) == *callbacks);
    previous_view_id(back)
}

/// Hands an input event to a view, answering in the firmware's terms
/// whether it was handled: the raw event, which must name a key and a type,
/// is converted, and the view's callbacks, as they were, answer the
/// converted event; they are left as answering it left them.
pub fn dispatch_input<C: ViewCallbacks>(callbacks: &mut C, event: sys::InputEvent) -> (handled: bool)
    requires
        input_event_converts(event),
    ensures
        exists|r: &mut C, converted: InputEvent, bubbling: EventBubbling|
            #![trigger call_ensures(C::on_input, (r, converted), bubbling)]
            {
                &&& converts_input_event(event, converted)
                &&& call_ensures(C::on_input, (r, converted), bubbling)
                &&& *r == *old(callbacks)
                &&& *final(r) == *final(callbacks)
                &&& handled == (bubbling is Consumed)
            },
{
    let converted = match InputEvent::from_sys(event) {
        Ok(converted) => converted,
        Err(_) => {
            return false;
        },
    };
    let on_input = C::on_input;
    let bubbling = on_input(callbacks, converted);
    let ghost answer = bubbling;
    assert(exists|r: &mut C| call_ensures(C::on_input, (r, converted), answer) && *r == *old(callbacks) && *final(r) == *callbacks);
    input_handled(bubbling)
}

/// UI view: a firmware view whose callbacks are the view's callbacks.
pub struct View<C> {
    inner: ViewInstance,
    callbacks: C,
}

impl<C> View<C> {
    /// The firmware's view.
    pub closed spec fn raw(&self) -> ViewInstance {
        self.inner
    }

    /// The view's callbacks.
    pub closed spec fn callbacks(&self) -> C {
        self.callbacks
    }

    /// The firmware's view.
    pub fn as_raw(&self) -> (raw: &ViewInstance)
        ensures
            *raw == self.raw(),
    {
        &self.inner
    }

    /// The view's callbacks, to act on them.
    pub fn callbacks_mut(&mut self) -> (callbacks: &mut C)
        ensures
            *callbacks == old(self).callbacks(),
            final(self).callbacks() == *final(callbacks),
            final(self).raw() == old(self).raw(),
    {
        &mut self.callbacks
    }
}

impl<C: ViewCallbacks> View<C> {
    /// A view drawing, answering input and Back with `callbacks`: its draw,
    /// previous and input callbacks are registered, with the callbacks as
    /// context, and a lock-free model is allocated.
    pub fn new(callbacks: C) -> (view: Self)
        ensures
            view.callbacks() == callbacks,
            view.raw().has_draw_callback(),
            view.raw().has_previous_callback(),
            view.raw().has_input_callback(),
            view.raw().has_context(),
            view.raw().model() == Some(sys::ViewModelType(sys::ViewModelTypeLockFree)),
    {
        let mut inner = view_alloc();
        view_set_draw_callback(&mut inner);
        view_set_previous_callback(&mut inner);
        view_set_input_callback(&mut inner);
        view_set_context(&mut inner);
        view_allocate_model(&mut inner, sys::ViewModelType(sys::ViewModelTypeLockFree));
        View { inner, callbacks }
    }
}

impl View<()> {
    /// A view for a firmware view whose callbacks are set already.
    pub fn new_from_raw(raw: ViewInstance) -> (view: Self)
        ensures
            view.raw() == raw,
    {
        View { inner: raw, callbacks: () }
    }
}

/// A view's answer to Back names the view to go back to, or, when it names
/// none, hands the event on (`IGNORE`).
pub proof fn law_previous_view_id(back: Option<u32>)
    ensures
        back matches Some(id) ==> previous_view_id_spec(back) == id,
        back is None ==> previous_view_id_spec(back) == IGNORE,
{
}

} // verus!
