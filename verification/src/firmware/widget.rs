//! The firmware's widget: a view made of a list of elements (strings, text
//! boxes, buttons, icons and shapes), drawn in the order they were added.
use crate::firmware::view::{view_alloc, ViewInstance};
use crate::sys;
use vstd::prelude::*;

verus! {

/// What a widget element draws.
pub enum WidgetElementKind<'a, B> {
    /// A string that may span several lines.
    StringMultiline {
        x: u8,
        y: u8,
        horizontal: sys::Align,
        vertical: sys::Align,
        font: sys::Font,
        text: Vec<u8>,
    },
    /// A single-line string.
    String { x: u8, y: u8, horizontal: sys::Align, vertical: sys::Align, font: sys::Font, text: Vec<u8> },
    /// Formatted text fitted into a box.
    TextBox {
        x: u8,
        y: u8,
        width: u8,
        height: u8,
        horizontal: sys::Align,
        vertical: sys::Align,
        text: Vec<u8>,
        strip_to_dots: bool,
    },
    /// Formatted text in a scrollable box.
    TextScroll { x: u8, y: u8, width: u8, height: u8, text: Vec<u8> },
    /// A button; `callback` (with its context) is called when it is pressed.
    Button { button_type: sys::GuiButtonType, text: Vec<u8>, callback: Option<B> },
    /// An icon, placed by its top left corner.
    Icon { x: u8, y: u8, icon: &'a sys::Icon },
    /// A rectangle, placed by its top left corner.
    Rect { x: u8, y: u8, width: u8, height: u8, radius: u8, fill: bool },
    /// A circle, placed by its centre.
    Circle { x: u8, y: u8, radius: u8, fill: bool },
    /// A line between two points.
    Line { x1: u8, y1: u8, x2: u8, y2: u8 },
}

/// An element of a widget.
pub struct WidgetElement<'a, B> {
    pub kind: WidgetElementKind<'a, B>,
}

/// A widget: the elements it holds and the view that draws them.
pub struct Widget<'a, B> {
    pub elements: Vec<WidgetElement<'a, B>>,
    pub view: ViewInstance,
}

impl<'a, B> Widget<'a, B> {
    /// The elements, in the order they were added.
    pub open spec fn elements(&self) -> Seq<WidgetElement<'a, B>> {
        self.elements@
    }

    /// The widget's view.
    pub open spec fn view(&self) -> ViewInstance {
        self.view
    }
}

/// `after` is `before` with `element` added at the end.
pub open spec fn element_added<'a, B>(
    before: Widget<'a, B>,
    after: Widget<'a, B>,
    element: WidgetElementKind<'a, B>,
) -> bool {
    &&& after.elements() == before.elements().push(WidgetElement { kind: element })
    &&& after.view() == before.view()
}

/// Allocate Widget that holds Widget Elements.
pub fn widget_alloc<'a, B>() -> (widget: Widget<'a, B>)
    ensures
        widget.elements() == Seq::<WidgetElement<'a, B>>::empty(),
        !widget.view().has_draw_callback(),
        !widget.view().has_input_callback(),
        !widget.view().has_previous_callback(),
        !widget.view().has_context(),
{
    Widget { elements: Vec::new(), view: view_alloc() }
}

/// Free Widget, together with its elements.
pub fn widget_free<'a, B>(widget: Widget<'a, B>) {
}

/// Reset Widget: remove all its elements.
pub fn widget_reset<'a, B>(widget: &mut Widget<'a, B>)
    ensures
        final(widget).elements() == Seq::<WidgetElement<'a, B>>::empty(),
        final(widget).view() == old(widget).view(),
{
    widget.elements.clear();
}

/// Get Widget view.
pub fn widget_get_view<'w, 'a, B>(widget: &'w Widget<'a, B>) -> (view: &'w ViewInstance)
    ensures
        *view == widget.view(),
{
    &widget.view
}

fn push_element<'a, B>(widget: &mut Widget<'a, B>, kind: WidgetElementKind<'a, B>)
    ensures
        final(widget).elements() == old(widget).elements().push(WidgetElement { kind }),
        final(widget).view() == old(widget).view(),
{
    widget.elements.push(WidgetElement { kind });
}

/// Add Multi String Element at (`x`, `y`), aligned as `horizontal` and
/// `vertical` say, in `font`.
pub fn widget_add_string_multiline_element<'a, B>(
    widget: &mut Widget<'a, B>,
    x: u8,
    y: u8,
    horizontal: sys::Align,
    vertical: sys::Align,
    font: sys::Font,
    text: &[u8],
)
    ensures
        exists|copy: Vec<u8>|
            copy@ == text@ && element_added(
                *old(widget),
                *final(widget),
                WidgetElementKind::StringMultiline { x, y, horizontal, vertical, font, text: copy },
            ),
{
    let copy = vstd::slice::slice_to_vec(text);
    push_element(widget, WidgetElementKind::StringMultiline { x, y, horizontal, vertical, font, text: copy });
}

/// Add String Element at (`x`, `y`), aligned as `horizontal` and `vertical`
/// say, in `font`.
pub fn widget_add_string_element<'a, B>(
    widget: &mut Widget<'a, B>,
    x: u8,
    y: u8,
    horizontal: sys::Align,
    vertical: sys::Align,
    font: sys::Font,
    text: &[u8],
)
    ensures
        exists|copy: Vec<u8>|
            copy@ == text@ && element_added(
                *old(widget),
                *final(widget),
                WidgetElementKind::String { x, y, horizontal, vertical, font, text: copy },
            ),
{
    let copy = vstd::slice::slice_to_vec(text);
    push_element(widget, WidgetElementKind::String { x, y, horizontal, vertical, font, text: copy });
}

/// Add Text Box Element: formatted text fitted into the `width` by `height`
/// box at (`x`, `y`), stripped to dots where it does not fit if
/// `strip_to_dots`.
pub fn widget_add_text_box_element<'a, B>(
    widget: &mut Widget<'a, B>,
    x: u8,
    y: u8,
    width: u8,
    height: u8,
    horizontal: sys::Align,
    vertical: sys::Align,
    text: &[u8],
    strip_to_dots: bool,
)
    ensures
        exists|copy: Vec<u8>|
            copy@ == text@ && element_added(
                *old(widget),
                *final(widget),
                WidgetElementKind::TextBox { x, y, width, height, horizontal, vertical, text: copy, strip_to_dots },
            ),
{
    let copy = vstd::slice::slice_to_vec(text);
    push_element(
        widget,
        WidgetElementKind::TextBox { x, y, width, height, horizontal, vertical, text: copy, strip_to_dots },
    );
}

/// Add Text Scroll Element: formatted text in the `width` by `height` box
/// at (`x`, `y`).
pub fn widget_add_text_scroll_element<'a, B>(
    widget: &mut Widget<'a, B>,
    x: u8,
    y: u8,
    width: u8,
    height: u8,
    text: &[u8],
)
    ensures
        exists|copy: Vec<u8>|
            copy@ == text@ && element_added(
                *old(widget),
                *final(widget),
                WidgetElementKind::TextScroll { x, y, width, height, text: copy },
            ),
{
    let copy = vstd::slice::slice_to_vec(text);
    push_element(widget, WidgetElementKind::TextScroll { x, y, width, height, text: copy });
}

/// Add Button Element of kind `button_type` labelled `text`; `callback`
/// (with its context) is called when it is pressed.
pub fn widget_add_button_element<'a, B>(
    widget: &mut Widget<'a, B>,
    button_type: sys::GuiButtonType,
    text: &[u8],
    callback: Option<B>,
)
    ensures
        exists|copy: Vec<u8>|
            copy@ == text@ && element_added(
                *old(widget),
                *final(widget),
                WidgetElementKind::Button { button_type, text: copy, callback },
            ),
{
    let copy = vstd::slice::slice_to_vec(text);
    push_element(widget, WidgetElementKind::Button { button_type, text: copy, callback });
}

/// Add Icon Element with its top left corner at (`x`, `y`).
pub fn widget_add_icon_element<'a, B>(widget: &mut Widget<'a, B>, x: u8, y: u8, icon: &'a sys::Icon)
    ensures
        element_added(*old(widget), *final(widget), WidgetElementKind::Icon { x, y, icon }),
{
    push_element(widget, WidgetElementKind::Icon { x, y, icon });
}

/// Add Rect Element with its top left corner at (`x`, `y`), corner radius
/// `radius`, filled if `fill`.
pub fn widget_add_rect_element<'a, B>(
    widget: &mut Widget<'a, B>,
    x: u8,
    y: u8,
    width: u8,
    height: u8,
    radius: u8,
    fill: bool,
)
    ensures
        element_added(
            *old(widget),
            *final(widget),
            WidgetElementKind::Rect { x, y, width, height, radius, fill },
        ),
{
    push_element(widget, WidgetElementKind::Rect { x, y, width, height, radius, fill });
}

/// Add Circle Element centred at (`x`, `y`), filled if `fill`.
pub fn widget_add_circle_element<'a, B>(widget: &mut Widget<'a, B>, x: u8, y: u8, radius: u8, fill: bool)
    ensures
        element_added(*old(widget), *final(widget), WidgetElementKind::Circle { x, y, radius, fill }),
{
    push_element(widget, WidgetElementKind::Circle { x, y, radius, fill });
}

/// Add Line Element from (`x1`, `y1`) to (`x2`, `y2`).
pub fn widget_add_line_element<'a, B>(widget: &mut Widget<'a, B>, x1: u8, y1: u8, x2: u8, y2: u8)
    ensures
        element_added(*old(widget), *final(widget), WidgetElementKind::Line { x1, y1, x2, y2 }),
{
    push_element(widget, WidgetElementKind::Line { x1, y1, x2, y2 });
}

} // verus!
