use flipperzero::firmware::submenu::{self as fw, SubmenuCallbacks, SubmenuInput};
use flipperzero::input::InputType;
use flipperzero::submenu::{Submenu, SubmenuCustomItem};
use flipperzero::sys;
use flipperzero::view_dispatcher::ViewDispatcherInner;
use flipperzero::view_dispatcher_type::ViewDispatcherType;
use std::cell::RefCell;

fn event(key: u8, kind: u8) -> sys::InputEvent {
    sys::InputEvent {
        __bindgen_anon_1: sys::InputEvent__bindgen_ty_1__bindgen_ty_1 {
            _bitfield_align_1: [],
            _bitfield_1: sys::InputEvent__bindgen_ty_1__bindgen_ty_1::new_bitfield_1(0, 0),
        },
        key: sys::InputKey(key),
        type_: sys::InputType(kind),
    }
}

struct Recorder<'a> {
    seen: &'a RefCell<Vec<InputType>>,
}

impl SubmenuCustomItem for Recorder<'_> {
    fn handle_input_event(&mut self, input_type: InputType) {
        self.seen.borrow_mut().push(input_type);
    }
}

#[test]
fn submenu_items_are_numbered_in_order() {
    let mut submenu = Submenu::new();
    let first = submenu.add_plaintext_item(b"First");
    let second = submenu.add_plaintext_item(b"Second");
    assert_eq!(first.index, 0);
    assert_eq!(second.index, 1);
    assert_eq!(second.label, b"Second");
}

#[test]
fn select_then_is_selected() {
    let mut submenu = Submenu::new();
    let mut first = submenu.add_plaintext_item(b"First");
    let mut second = submenu.add_plaintext_item(b"Second");
    assert!(first.is_selected(&submenu));
    second.select(&mut submenu);
    assert!(second.is_selected(&submenu));
    assert!(!first.is_selected(&submenu));
    first.select(&mut submenu);
    assert!(first.is_selected(&submenu));
}

#[test]
fn down_and_up_wrap_around() {
    let mut dispatcher = ViewDispatcherInner::new((), ViewDispatcherType::Desktop);
    let mut submenu = Submenu::new();
    let a = submenu.add_plaintext_item(b"A");
    let b = submenu.add_plaintext_item(b"B");
    let c = submenu.add_plaintext_item(b"C");
    assert!(submenu.process_input(event(sys::InputKeyDown, sys::InputTypeShort), &mut dispatcher));
    assert!(b.is_selected(&submenu));
    submenu.process_input(event(sys::InputKeyDown, sys::InputTypeShort), &mut dispatcher);
    submenu.process_input(event(sys::InputKeyDown, sys::InputTypeShort), &mut dispatcher);
    assert!(a.is_selected(&submenu));
    submenu.process_input(event(sys::InputKeyUp, sys::InputTypeShort), &mut dispatcher);
    assert!(c.is_selected(&submenu));
    submenu.process_input(event(sys::InputKeyDown, sys::InputTypeShort), &mut dispatcher);
    assert!(a.is_selected(&submenu));
    assert!(!submenu.process_input(event(sys::InputKeyBack, sys::InputTypeShort), &mut dispatcher));
    assert!(!submenu.process_input(event(sys::InputKeyLeft, sys::InputTypeShort), &mut dispatcher));
}

#[test]
fn custom_item_gets_the_ok_event_type() {
    let seen = RefCell::new(Vec::new());
    let mut recorder = Recorder { seen: &seen };
    let mut dispatcher = ViewDispatcherInner::new((), ViewDispatcherType::Desktop);
    {
        let mut submenu = Submenu::new();
        submenu.add_plaintext_item(b"Plain");
        let mut custom = submenu.add_custom_item(b"Custom", &mut recorder);
        assert_eq!(custom.index, 1);
        assert!(submenu.process_input(event(sys::InputKeyOk, sys::InputTypePress), &mut dispatcher));
        custom.select(&mut submenu);
        assert!(submenu.process_input(event(sys::InputKeyOk, sys::InputTypePress), &mut dispatcher));
        assert!(submenu.process_input(event(sys::InputKeyOk, sys::InputTypeRelease), &mut dispatcher));
    }
    assert_eq!(*seen.borrow(), vec![InputType::Press, InputType::Release]);
}

#[test]
fn nav_item_switches_the_dispatcher() {
    let mut dispatcher = ViewDispatcherInner::new((), ViewDispatcherType::Desktop);
    let target = dispatcher.add_view(9, ()).ok().unwrap();
    let submenu = Submenu::new();
    let mut bound = submenu.bind_to_view_dispatcher(3, &mut dispatcher);
    assert_eq!(bound.view().id, 3);
    bound.view().switch_to_view(&mut dispatcher);
    assert_eq!(dispatcher.get_current_view(), Some(3));
    let item = bound.add_nav_item(b"Go", &target);
    assert_eq!(item.index, 0);
    assert!(bound.submenu_mut().process_input(event(sys::InputKeyOk, sys::InputTypeShort), &mut dispatcher));
    assert_eq!(dispatcher.get_current_view(), Some(9));
}

#[test]
fn firmware_selects_the_first_item_with_an_index() {
    let mut submenu = fw::submenu_alloc::<u32>();
    fw::submenu_add_item(&mut submenu, b"a", 7, None);
    fw::submenu_add_item(&mut submenu, b"b", 5, Some(1));
    fw::submenu_add_item_ex(&mut submenu, b"c", 5, Some(2));
    fw::submenu_set_selected_item(&mut submenu, 5);
    assert_eq!(fw::submenu_get_selected_item(&submenu), 5);
    assert_eq!(submenu.handle_input(event(sys::InputKeyOk, sys::InputTypeShort)), SubmenuInput::Activated {
        position: 1,
        input_type: sys::InputType(sys::InputTypeShort),
    });
    fw::submenu_set_selected_item(&mut submenu, 99);
    assert_eq!(fw::submenu_get_selected_item(&submenu), 7);
}

#[test]
fn firmware_change_label_and_reset() {
    let mut submenu = fw::submenu_alloc::<u32>();
    fw::submenu_add_item(&mut submenu, b"old", 4, None);
    fw::submenu_add_item(&mut submenu, b"other", 4, None);
    fw::submenu_change_item_label(&mut submenu, 4, b"new");
    assert_eq!(submenu.item_mut(0).label, b"new".to_vec());
    assert_eq!(submenu.item_mut(1).label, b"other".to_vec());
    assert!(matches!(submenu.item_mut(1).callback, SubmenuCallbacks::Normal(None)));
    fw::submenu_set_header(&mut submenu, b"Header");
    fw::submenu_reset(&mut submenu);
    assert_eq!(fw::submenu_get_selected_item(&submenu), 0);
    assert_eq!(submenu.handle_input(event(sys::InputKeyBack, sys::InputTypeShort)), SubmenuInput::NotConsumed);
}

#[test]
fn firmware_moves_with_up_and_down() {
    let mut submenu = fw::submenu_alloc::<u32>();
    fw::submenu_add_item(&mut submenu, b"x", 10, None);
    fw::submenu_add_item(&mut submenu, b"y", 11, None);
    assert_eq!(submenu.handle_input(event(sys::InputKeyUp, sys::InputTypeShort)), SubmenuInput::Moved);
    assert_eq!(fw::submenu_get_selected_item(&submenu), 11);
    assert_eq!(submenu.handle_input(event(sys::InputKeyDown, sys::InputTypeShort)), SubmenuInput::Moved);
    assert_eq!(fw::submenu_get_selected_item(&submenu), 10);
}
