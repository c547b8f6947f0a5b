//! The firmware's view: the unit a view dispatcher switches between. The
//! model records which of its callbacks are registered.
use crate::sys;
use vstd::prelude::*;

verus! {

/// A firmware view.
pub struct ViewInstance {
    draw_callback: bool,
    input_callback: bool,
    previous_callback: bool,
    context: bool,
    model: Option<sys::ViewModelType>,
    update_requested: bool,
}

impl ViewInstance {
    /// Whether a draw callback is registered.
    pub closed spec fn has_draw_callback(&self) -> bool {
        self.draw_callback
    }

    /// Whether an input callback is registered.
    pub closed spec fn has_input_callback(&self) -> bool {
        self.input_callback
    }

    /// Whether a previous (navigation) callback is registered.
    pub closed spec fn has_previous_callback(&self) -> bool {
        self.previous_callback
    }

    /// Whether a context for the callbacks is set.
    pub closed spec fn has_context(&self) -> bool {
        self.context
    }

    /// The type of the view's model, if one is allocated.
    pub closed spec fn model(&self) -> Option<sys::ViewModelType> {
        self.model
    }

    /// Whether a commit of the model asked for the view to be updated
    /// (redrawn).
    pub closed spec fn update_requested(&self) -> bool {
        self.update_requested
    }
}

impl ViewInstance {
    /// Whether a commit of the model asked for the view to be updated.
    pub fn is_update_requested(&self) -> (requested: bool)
        ensures
            requested == self.update_requested(),
    {
        self.update_requested
    }
}

/// Allocates a view with no callbacks and no context.
pub fn view_alloc() -> (view: ViewInstance)
    ensures
        !view.has_draw_callback(),
        !view.has_input_callback(),
        !view.has_previous_callback(),
        !view.has_context(),
        view.model() is None,
        !view.update_requested(),
{
    ViewInstance {
        draw_callback: false,
        input_callback: false,
        previous_callback: false,
        context: false,
        model: None,
        update_requested: false,
    }
}

/// Registers the draw callback.
pub fn view_set_draw_callback(view: &mut ViewInstance)
    ensures
        final(view).has_draw_callback(),
        final(view).has_input_callback() == old(view).has_input_callback(),
        final(view).has_previous_callback() == old(view).has_previous_callback(),
        final(view).has_context() == old(view).has_context(),
        final(view).model() == old(view).model(),
        final(view).update_requested() == old(view).update_requested(),
{
    view.draw_callback = true;
}

/// Registers the input callback.
pub fn view_set_input_callback(view: &mut ViewInstance)
    ensures
        final(view).has_input_callback(),
        final(view).has_draw_callback() == old(view).has_draw_callback(),
        final(view).has_previous_callback() == old(view).has_previous_callback(),
        final(view).has_context() == old(view).has_context(),
        final(view).model() == old(view).model(),
        final(view).update_requested() == old(view).update_requested(),
{
    view.input_callback = true;
}

/// Registers the previous (navigation) callback.
pub fn view_set_previous_callback(view: &mut ViewInstance)
    ensures
        final(view).has_previous_callback(),
        final(view).has_draw_callback() == old(view).has_draw_callback(),
        final(view).has_input_callback() == old(view).has_input_callback(),
        final(view).has_context() == old(view).has_context(),
        final(view).model() == old(view).model(),
        final(view).update_requested() == old(view).update_requested(),
{
    view.previous_callback = true;
}

/// Sets the context handed to the callbacks.
pub fn view_set_context(view: &mut ViewInstance)
    ensures
        final(view).has_context(),
        final(view).has_draw_callback() == old(view).has_draw_callback(),
        final(view).has_input_callback() == old(view).has_input_callback(),
        final(view).has_previous_callback() == old(view).has_previous_callback(),
        final(view).model() == old(view).model(),
        final(view).update_requested() == old(view).update_requested(),
{
    view.context = true;
}

/// Allocate view model; the model must be lock-free.
pub fn view_allocate_model(view: &mut ViewInstance, type_: sys::ViewModelType)
    requires
        type_.0 == sys::ViewModelTypeLockFree,
    ensures
        final(view).model() == Some(type_),
        final(view).has_draw_callback() == old(view).has_draw_callback(),
        final(view).has_input_callback() == old(view).has_input_callback(),
        final(view).has_previous_callback() == old(view).has_previous_callback(),
        final(view).has_context() == old(view).has_context(),
        final(view).update_requested() == old(view).update_requested(),
{
    view.model = Some(type_);
}

/// Commits the view's model: with `update`, the view is to be updated.
pub fn view_commit_model(view: &mut ViewInstance, update: bool)
    ensures
        final(view).update_requested() == (old(view).update_requested() || update),
        final(view).has_draw_callback() == old(view).has_draw_callback(),
        final(view).has_input_callback() == old(view).has_input_callback(),
        final(view).has_previous_callback() == old(view).has_previous_callback(),
        final(view).has_context() == old(view).has_context(),
        final(view).model() == old(view).model(),
{
    if update {
        view.update_requested = true;
    }
}

} // verus!
