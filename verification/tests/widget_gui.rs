use flipperzero::firmware::gui::{gui_add_view_port, gui_remove_view_port, GuiInner};
use flipperzero::firmware::widget::{self as fw, WidgetElementKind};
use flipperzero::sys;

#[test]
fn widget_elements_keep_their_order_and_values() {
    let icon = sys::Icon { width: 10, height: 10, frame_count: 1, frame_rate: 0, frames: vec![vec![0u8; 13]] };
    let mut widget = fw::widget_alloc::<u32>();
    fw::widget_add_string_element(
        &mut widget,
        1,
        2,
        sys::Align(sys::AlignLeft),
        sys::Align(sys::AlignTop),
        sys::Font(sys::FontPrimary),
        b"Hello",
    );
    fw::widget_add_button_element(&mut widget, sys::GuiButtonType(sys::GuiButtonTypeCenter), b"OK", Some(7));
    fw::widget_add_icon_element(&mut widget, 3, 4, &icon);
    fw::widget_add_rect_element(&mut widget, 0, 0, 20, 10, 2, true);
    fw::widget_add_circle_element(&mut widget, 30, 30, 5, false);
    fw::widget_add_line_element(&mut widget, 0, 0, 127, 63);
    fw::widget_add_text_box_element(
        &mut widget,
        0,
        0,
        128,
        64,
        sys::Align(sys::AlignCenter),
        sys::Align(sys::AlignCenter),
        b"\x1b#Bold",
        true,
    );
    fw::widget_add_text_scroll_element(&mut widget, 0, 0, 128, 64, b"Scroll");
    fw::widget_add_string_multiline_element(
        &mut widget,
        5,
        6,
        sys::Align(sys::AlignRight),
        sys::Align(sys::AlignBottom),
        sys::Font(sys::FontSecondary),
        b"Line 1\nLine 2",
    );
    assert_eq!(widget.elements.len(), 9);
    match &widget.elements[0].kind {
        WidgetElementKind::String { x, y, text, .. } => {
            assert_eq!((*x, *y), (1, 2));
            assert_eq!(text.as_slice(), b"Hello");
        }
        _ => panic!("expected a string"),
    }
    match &widget.elements[1].kind {
        WidgetElementKind::Button { text, callback, .. } => {
            assert_eq!(text.as_slice(), b"OK");
            assert_eq!(*callback, Some(7));
        }
        _ => panic!("expected a button"),
    }
    assert!(matches!(widget.elements[2].kind, WidgetElementKind::Icon { x: 3, y: 4, .. }));
    assert!(matches!(widget.elements[5].kind, WidgetElementKind::Line { x1: 0, y1: 0, x2: 127, y2: 63 }));
    assert!(matches!(widget.elements[8].kind, WidgetElementKind::StringMultiline { x: 5, y: 6, .. }));
    fw::widget_reset(&mut widget);
    assert!(widget.elements.is_empty());
    let _view = fw::widget_get_view(&widget);
    fw::widget_free(widget);
}

#[test]
fn gui_view_port_registration_requests_redraws() {
    let mut gui = GuiInner::new();
    let idle = gui.service_step();
    assert_eq!(idle.redraw, None);
    assert!(!idle.exit);
    gui_add_view_port(&mut gui, 42, sys::GuiLayer(sys::GuiLayerFullscreen));
    assert_eq!(gui.view_port, Some(42));
    assert_eq!(gui.service_step().redraw, Some(42));
    gui.stop = true;
    assert!(gui.service_step().exit);
    gui_remove_view_port(&mut gui, 42);
    assert_eq!(gui.view_port, None);
}

#[test]
fn gui_request_redraw() {
    let mut gui = GuiInner::new();
    gui.view_port = Some(1);
    gui.request_redraw();
    assert_eq!(gui.service_step().redraw, Some(1));
    assert_eq!(gui.thread_id, 0);
}

#[test]
fn text_input_has_a_view() {
    let text_input = flipperzero::firmware::text_input::text_input_alloc();
    let _view = flipperzero::firmware::text_input::text_input_get_view(&text_input);
    flipperzero::firmware::text_input::text_input_free(text_input);
}

#[test]
fn gui_pending_flags() {
    let mut gui = GuiInner::new();
    assert!(!gui.redraw_pending());
    assert!(!gui.has_pending_input());
    gui.request_redraw();
    assert!(gui.redraw_pending());
}
