//! The firmware's text input: a view for typing a line of text.
use crate::firmware::view::{view_alloc, ViewInstance};
use vstd::prelude::*;

verus! {

/// A text input and its view.
pub struct TextInput {
    view: ViewInstance,
}

impl TextInput {
    /// The text input's view.
    pub closed spec fn view(&self) -> ViewInstance {
        self.view
    }
}

/// Allocate and initialize a text input, with a fresh view.
pub fn text_input_alloc() -> (text_input: TextInput)
    ensures
        !text_input.view().has_draw_callback(),
        !text_input.view().has_input_callback(),
        !text_input.view().has_previous_callback(),
        !text_input.view().has_context(),
        text_input.view().model() is None,
{
    TextInput { view: view_alloc() }
}

/// Deinitialize and free a text input, with its view.
pub fn text_input_free(text_input: TextInput) {
}

/// Get the text input's view.
pub fn text_input_get_view(text_input: &TextInput) -> (view: &ViewInstance)
    ensures
        *view == text_input.view(),
{
    &text_input.view
}

} // verus!
