use flipperzero::firmware::variable_item_list::{
    self as fw, ValueText, VariableItemList as FirmwareList, VariableItemListInput,
};
use flipperzero::sys;
use flipperzero::variable_item_list::{
    Callback, MutexGuardedVariableItemType, OnCurrentValueTextChangedCallbacks, VariableItem,
    VariableItemList, VariableItemType,
};
use std::cell::{Cell, RefCell};

fn event(key: u8, kind: u8) -> sys::InputEvent {
    sys::InputEvent {
        __bindgen_anon_1: sys::InputEvent__bindgen_ty_1__bindgen_ty_1 {
            _bitfield_align_1: [],
            _bitfield_1: sys::InputEvent__bindgen_ty_1__bindgen_ty_1::new_bitfield_1(0, 0),
        },
        key: sys::InputKey(key),
        type_: sys::InputType(kind),
    }
}

struct CountClicks<'a> {
    clicks: &'a Cell<u32>,
}

impl<'a> Callback<'a> for CountClicks<'a> {
    fn on_click<'guard>(&'guard self, _item: MutexGuardedVariableItemType<'guard, 'a>) {
        self.clicks.set(self.clicks.get() + 1);
    }
}

struct Labels<'a> {
    asked: &'a RefCell<Vec<(usize, u8)>>,
    reacted: &'a Cell<u32>,
}

impl OnCurrentValueTextChangedCallbacks for Labels<'_> {
    fn get_new_label(&self, item: &VariableItem, value: u8) -> Vec<u8> {
        self.asked.borrow_mut().push((item.list_index(), value));
        format!("value {}", value).into_bytes()
    }

    fn react_to_change(&self) {
        self.reacted.set(self.reacted.get() + 1);
    }
}

fn value_text(item: &fw::VariableItem<()>) -> Option<Vec<u8>> {
    match &item.current_value_text {
        ValueText::Text(text) => Some(text.clone()),
        _ => None,
    }
}

#[test]
fn list_items_are_numbered_in_order() {
    let clicks = Cell::new(0);
    let mut list = VariableItemList::new();
    let first = list.push_item_plaintext(b"First".to_vec());
    let second = list.push_item_with_on_click_callback(b"Second".to_vec(), CountClicks { clicks: &clicks });
    assert_eq!(first.get_label_mut(&mut list).as_slice(), b"First");
    assert_eq!(second.get_label_mut(&mut list).as_slice(), b"Second");
    let guard = second.get_mut(&mut list);
    assert!(matches!(guard.item, VariableItemType::Plain(item) if item.list_index() == 1));
    assert_eq!(guard.raw.values_count, 0);
    assert_eq!(guard.raw.current_value_index, None);
    assert!(matches!(guard.raw.current_value_text, ValueText::Unset));
}

#[test]
fn ok_clicks_the_selected_item_only_if_it_has_a_callback() {
    let clicks = Cell::new(0);
    let mut list = VariableItemList::new();
    list.push_item_plaintext(b"Plain".to_vec());
    list.push_item_with_on_click_callback(b"Click".to_vec(), CountClicks { clicks: &clicks });
    assert!(list.process_input(event(sys::InputKeyOk, sys::InputTypeShort)));
    assert_eq!(clicks.get(), 0);
    assert!(list.process_input(event(sys::InputKeyDown, sys::InputTypeShort)));
    assert!(list.process_input(event(sys::InputKeyOk, sys::InputTypeShort)));
    assert_eq!(clicks.get(), 1);
    assert!(!list.process_input(event(sys::InputKeyBack, sys::InputTypeShort)));
}

#[test]
fn options_start_with_the_label_of_the_first_value() {
    let asked = RefCell::new(Vec::new());
    let reacted = Cell::new(0);
    let mut list = VariableItemList::new();
    let item = list.push_item_with_options(b"Options".to_vec(), 3, Labels { asked: &asked, reacted: &reacted });
    assert_eq!(*asked.borrow(), vec![(0, 0)]);
    assert_eq!(reacted.get(), 0);
    let guard = item.get_mut(&mut list);
    assert_eq!(guard.raw.current_value_index, Some(0));
    assert_eq!(guard.raw.values_count, 3);
    assert_eq!(value_text(guard.raw), Some(b"value 0".to_vec()));
}

#[test]
fn right_and_left_change_the_value_and_its_label() {
    let asked = RefCell::new(Vec::new());
    let reacted = Cell::new(0);
    let mut list = VariableItemList::new();
    let item = list.push_item_with_options(b"Options".to_vec(), 3, Labels { asked: &asked, reacted: &reacted });
    assert!(list.process_input(event(sys::InputKeyRight, sys::InputTypeShort)));
    assert!(list.process_input(event(sys::InputKeyRight, sys::InputTypeShort)));
    {
        let guard = item.get_mut(&mut list);
        assert_eq!(guard.raw.current_value_index, Some(2));
        assert_eq!(value_text(guard.raw), Some(b"value 2".to_vec()));
    }
    assert!(list.process_input(event(sys::InputKeyRight, sys::InputTypeShort)));
    assert_eq!(item.get_mut(&mut list).raw.current_value_index, Some(0));
    assert!(list.process_input(event(sys::InputKeyLeft, sys::InputTypeShort)));
    assert_eq!(item.get_mut(&mut list).raw.current_value_index, Some(3));
    assert_eq!(reacted.get(), 4);
    assert_eq!(*asked.borrow(), vec![(0, 0), (0, 1), (0, 2), (0, 0), (0, 3)]);
}

#[test]
fn clicks_and_options_together() {
    let asked = RefCell::new(Vec::new());
    let reacted = Cell::new(0);
    let clicks = Cell::new(0);
    let mut list = VariableItemList::new();
    list.push_item_plaintext(b"Plain".to_vec());
    let item = list.push_item_with_on_click_callback_and_options(
        b"Both".to_vec(),
        CountClicks { clicks: &clicks },
        2,
        Labels { asked: &asked, reacted: &reacted },
    );
    assert_eq!(item.get_mut(&mut list).raw.values_count, 2);
    list.process_input(event(sys::InputKeyUp, sys::InputTypeShort));
    list.process_input(event(sys::InputKeyOk, sys::InputTypeShort));
    assert_eq!(clicks.get(), 1);
    list.process_input(event(sys::InputKeyRight, sys::InputTypeShort));
    assert_eq!(*asked.borrow(), vec![(1, 0), (1, 1)]);
    list.clear();
    list.process_input(event(sys::InputKeyOk, sys::InputTypeShort));
    assert_eq!(clicks.get(), 1);
}

#[test]
fn left_and_right_on_a_plain_item_change_nothing() {
    let mut list = VariableItemList::new();
    let item = list.push_item_plaintext(b"Plain".to_vec());
    assert!(list.process_input(event(sys::InputKeyLeft, sys::InputTypeShort)));
    assert_eq!(item.get_mut(&mut list).raw.current_value_index, None);
}

#[test]
fn single_callback_gets_every_click() {
    let clicks = Cell::new(0);
    let mut list = VariableItemList::new_with_callback(CountClicks { clicks: &clicks });
    assert!(!list.process_input(event(sys::InputKeyBack, sys::InputTypeShort)));
    list.clear();
    assert_eq!(clicks.get(), 0);
}

#[test]
fn firmware_list_values() {
    let mut list: FirmwareList<(), ()> = fw::variable_item_list_alloc();
    fw::variable_item_list_set_enter_callback(&mut list, ());
    let position = fw::variable_item_list_add(&mut list, b"Volume", 4, None);
    assert_eq!(position, 0);
    let plain = fw::variable_item_list_add(&mut list, b"Plain", 0, None);
    assert_eq!(plain, 1);
    {
        let item = fw::variable_item_list_get_item(&mut list, 0);
        assert!(matches!(item.current_value_text, ValueText::Placeholder));
        assert_eq!(fw::variable_item_get_current_value_index(item), 0);
        fw::variable_item_set_current_value_index(item, 2);
        fw::variable_item_set_current_value_text(item, b"two");
        assert_eq!(fw::variable_item_get_current_value_index(item), 2);
        assert_eq!(value_text(item), Some(b"two".to_vec()));
        fw::variable_item_set_values_count(item, 9);
        assert_eq!(item.values_count, 9);
        assert!(fw::variable_item_get_context(item).is_none());
    }
    assert_eq!(list.handle_input(event(sys::InputKeyRight, sys::InputTypeShort)), VariableItemListInput::ValueChanged {
        position: 0
    });
    assert_eq!(fw::variable_item_get_current_value_index(fw::variable_item_list_get_item(&mut list, 0)), 3);
    assert_eq!(list.handle_input(event(sys::InputKeyOk, sys::InputTypeShort)), VariableItemListInput::Entered {
        index: 0
    });
    fw::variable_item_list_set_selected_item(&mut list, 1);
    assert_eq!(fw::variable_item_list_get_selected_item_index(&list), 1);
    assert_eq!(list.handle_input(event(sys::InputKeyLeft, sys::InputTypeShort)), VariableItemListInput::NoValues);
    fw::variable_item_list_set_selected_item(&mut list, 30);
    assert_eq!(fw::variable_item_list_get_selected_item_index(&list), 0);
    fw::variable_item_list_reset(&mut list);
    assert_eq!(list.handle_input(event(sys::InputKeyBack, sys::InputTypeShort)), VariableItemListInput::NotConsumed);
}

#[test]
fn only_a_short_ok_clicks() {
    let clicks = Cell::new(0);
    let mut list = VariableItemList::new();
    list.push_item_with_on_click_callback(b"Click".to_vec(), CountClicks { clicks: &clicks });
    assert!(list.process_input(event(sys::InputKeyOk, sys::InputTypePress)));
    assert!(list.process_input(event(sys::InputKeyOk, sys::InputTypeRelease)));
    assert!(list.process_input(event(sys::InputKeyOk, sys::InputTypeLong)));
    assert_eq!(clicks.get(), 0);
    assert!(list.process_input(event(sys::InputKeyOk, sys::InputTypeShort)));
    assert_eq!(clicks.get(), 1);
}

#[test]
fn value_changes_from_the_program_commit_the_model() {
    let asked = RefCell::new(Vec::new());
    let reacted = Cell::new(0);
    let mut list = VariableItemList::new();
    let item = list.push_item_with_options(b"Options".to_vec(), 3, Labels { asked: &asked, reacted: &reacted });
    let guard = item.get_mut(&mut list);
    assert!(!guard.view.is_update_requested());
    match guard.item {
        VariableItemType::WithValues(context) => {
            context.set_currently_selected_value(guard.raw, guard.view, 2, Some(b"two".to_vec()), false);
            assert!(!guard.view.is_update_requested());
            context.set_number_of_options(guard.raw, guard.view, 4, false);
            assert_eq!(guard.raw.values_count, 4);
            context.override_value_label(guard.raw, guard.view, b"deux".to_vec(), true);
            assert!(guard.view.is_update_requested());
        },
        VariableItemType::Plain(_) => panic!("the item has values"),
    }
    assert_eq!(guard.raw.current_value_index, Some(2));
    assert_eq!(value_text(guard.raw), Some(b"deux".to_vec()));
}
