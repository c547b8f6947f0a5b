//! The firmware's variable item list: a list of labelled items, each with an
//! optional set of values to choose between with Left and Right, one item
//! selected, and an enter callback for Ok.
use crate::firmware::view::{view_alloc, view_set_context, view_set_input_callback, ViewInstance};
use crate::sys;
use vstd::prelude::*;

verus! {

/// The text an item shows for its current value.
pub enum ValueText {
    /// The item has no values, and shows none.
    Unset,
    /// The item has values and shows a placeholder until a text is set.
    Placeholder,
    /// The text set for the current value.
    Text(Vec<u8>),
}

/// An item of the list; `K` is its change callback with its context.
pub struct VariableItem<K> {
    pub label: Vec<u8>,
    pub current_value_index: Option<u8>,
    pub current_value_text: ValueText,
    pub values_count: u8,
    pub change_callback: Option<K>,
}

/// The list; `E` is its enter callback with its context.
pub struct VariableItemList<E, K> {
    enter_callback: Option<E>,
    selected_item_index: u32,
    items: Vec<VariableItem<K>>,
    view: ViewInstance,
}

/// What the list does with an input event.
#[derive(Debug, Clone, Copy, PartialEq, Eq, Structural)]
pub enum VariableItemListInput {
    /// The event is not for the list.
    NotConsumed,
    /// The selection moved.
    Moved,
    /// Ok: the enter callback is to be called with the selected position.
    Entered { index: u32 },
    /// Left or Right changed the value of the item at `position`: its change
    /// callback, if any, is to be called.
    ValueChanged { position: u32 },
    /// Left or Right on an item without values: nothing changes.
    NoValues,
    /// Ok other than a short press: taken, and nothing changes.
    Ignored,
}

/// The value after Left: the previous one; from the first value, the number
/// of values.
pub open spec fn value_after_left(value: u8, count: u8) -> u8 {
    if value == 0 {
        count
    } else {
        (value - 1) as u8
    }
}

/// The value after Right: the next one, wrapping to the first.
pub open spec fn value_after_right(value: u8, count: u8) -> u8 {
    ((value + 1) % (count as int)) as u8
}

impl<K> VariableItem<K> {
    /// The item's label.
    pub open spec fn label(&self) -> Seq<u8> {
        self.label@
    }

    /// The index of the current value, if the item has values.
    pub open spec fn current_value_index(&self) -> Option<u8> {
        self.current_value_index
    }

    /// The text shown for the current value.
    pub open spec fn current_value_text(&self) -> ValueText {
        self.current_value_text
    }

    /// The number of values.
    pub open spec fn values_count(&self) -> u8 {
        self.values_count
    }

    /// The change callback, with its context.
    pub open spec fn change_callback(&self) -> Option<K> {
        self.change_callback
    }
}

/// `text` is the text `expected`.
pub open spec fn shows_text(text: ValueText, expected: Seq<u8>) -> bool {
    text matches ValueText::Text(t) && t@ == expected
}

/// `after` is `before` with its current value index, and nothing else,
/// changed to `value`.
pub open spec fn value_index_set<K>(before: VariableItem<K>, after: VariableItem<K>, value: Option<u8>) -> bool {
    &&& after.current_value_index() == value
    &&& after.label() == before.label()
    &&& after.current_value_text() == before.current_value_text()
    &&& after.values_count() == before.values_count()
    &&& after.change_callback() == before.change_callback()
}

impl<E, K> VariableItemList<E, K> {
    /// The enter callback, with its context.
    pub closed spec fn enter_callback(&self) -> Option<E> {
        self.enter_callback
    }

    /// The position of the selected item.
    pub closed spec fn selected(&self) -> u32 {
        self.selected_item_index
    }

    /// The items, in the order they are drawn.
    pub closed spec fn items(&self) -> Seq<VariableItem<K>> {
        self.items@
    }

    /// The list's view.
    pub closed spec fn view(&self) -> ViewInstance {
        self.view
    }

    /// The selected position is that of an item, or 0; every position fits
    /// in a `u32`.
    pub open spec fn wf(&self) -> bool {
        &&& self.items().len() <= u32::MAX
        &&& self.selected() < self.items().len() || self.selected() == 0
    }

    /// Handles an input event: a short Ok enters the selected item (any other
    /// Ok is taken and does nothing), Left and Right
    /// change the selected item's value, Down and Up move the selection,
    /// wrapping around; other keys are not consumed.
    ///
    /// A short Ok needs an enter callback; Left, Right, Up and Down need at least one
    /// item; Right needs the selected value to have a successor to wrap.
    pub fn handle_input(&mut self, event: sys::InputEvent) -> (outcome: VariableItemListInput)
        requires
            old(self).wf(),
            event.key.0 == sys::InputKeyOk && event.type_.0 == sys::InputTypeShort ==> old(self).enter_callback() is Some,
            event.key.0 == sys::InputKeyLeft || event.key.0 == sys::InputKeyRight || event.key.0
                == sys::InputKeyDown || event.key.0 == sys::InputKeyUp ==> old(self).items().len() > 0,
            event.key.0 == sys::InputKeyRight ==> match old(self).items()[old(self).selected() as int].current_value_index() {
                Some(value) => value < 255 && old(self).items()[old(self).selected() as int].values_count() != 0,
                None => true,
            },
        ensures
            final(self).wf(),
            final(self).enter_callback() == old(self).enter_callback(),
            final(self).view() == old(self).view(),
            final(self).items().len() == old(self).items().len(),
            event.key.0 == sys::InputKeyOk ==> outcome == (if event.type_.0 == sys::InputTypeShort {
                VariableItemListInput::Entered { index: old(self).selected() }
            } else {
                VariableItemListInput::Ignored
            }) && final(self).items() == old(self).items() && final(self).selected() == old(self).selected(),
            event.key.0 == sys::InputKeyDown ==> outcome == VariableItemListInput::Moved && final(self).items()
                == old(self).items() && final(self).selected() == crate::firmware::submenu::position_after_down(
                old(self).selected(),
                old(self).items().len(),
            ),
            event.key.0 == sys::InputKeyUp ==> outcome == VariableItemListInput::Moved && final(self).items()
                == old(self).items() && final(self).selected() == crate::firmware::submenu::position_after_up(
                old(self).selected(),
                old(self).items().len(),
            ),
            event.key.0 == sys::InputKeyLeft || event.key.0 == sys::InputKeyRight ==> {
                let position = old(self).selected() as int;
                let item = old(self).items()[position];
                &&& final(self).selected() == old(self).selected()
                &&& match item.current_value_index() {
                    None => outcome == VariableItemListInput::NoValues && final(self).items() == old(self).items(),
                    Some(value) => {
                        let new_value = if event.key.0 == sys::InputKeyLeft {
                            value_after_left(value, item.values_count())
                        } else {
                            value_after_right(value, item.values_count())
                        };
                        &&& outcome == (VariableItemListInput::ValueChanged { position: old(self).selected() })
                        &&& final(self).items().len() == old(self).items().len()
                        &&& value_index_set(item, final(self).items()[position], Some(new_value))
                        &&& forall|j: int|
                            0 <= j < old(self).items().len() && j != position ==> #[trigger] final(self).items()[j]
                                == old(self).items()[j]
                    },
                }
            },
            event.key.0 != sys::InputKeyOk && event.key.0 != sys::InputKeyLeft && event.key.0 != sys::InputKeyRight
                && event.key.0 != sys::InputKeyDown && event.key.0 != sys::InputKeyUp ==> outcome
                == VariableItemListInput::NotConsumed && final(self).items() == old(self).items() && final(self).selected()
                == old(self).selected(),
    {
        let len = self.items.len() as u32;
        if event.key.0 == sys::InputKeyOk {
            if event.type_.0 == sys::InputTypeShort {
                VariableItemListInput::Entered { index: self.selected_item_index }
            } else {
                VariableItemListInput::Ignored
            }
        } else if event.key.0 == sys::InputKeyLeft || event.key.0 == sys::InputKeyRight {
            let position = self.selected_item_index;
            let item = &mut self.items[position as usize];
            match item.current_value_index {
                Some(value) => {
                    let new_value = if event.key.0 == sys::InputKeyLeft {
                        if value == 0 {
                            item.values_count
                        } else {
                            value - 1
                        }
                    } else {
                        (value + 1) % item.values_count
                    };
                    item.current_value_index = Some(new_value);
                    VariableItemListInput::ValueChanged { position }
                },
                None => VariableItemListInput::NoValues,
            }
        } else if event.key.0 == sys::InputKeyDown {
            self.selected_item_index = (self.selected_item_index + 1) % len;
            VariableItemListInput::Moved
        } else if event.key.0 == sys::InputKeyUp {
            if self.selected_item_index == 0 {
                self.selected_item_index = len - 1;
            } else {
                self.selected_item_index = self.selected_item_index - 1;
            }
            VariableItemListInput::Moved
        } else {
            VariableItemListInput::NotConsumed
        }
    }
}

/// Allocate and initialize VariableItemList: no items, the first position
/// selected, no enter callback, its view handling input with the list as
/// context.
pub fn variable_item_list_alloc<E, K>() -> (list: VariableItemList<E, K>)
    ensures
        list.wf(),
        list.items() == Seq::<VariableItem<K>>::empty(),
        list.selected() == 0,
        list.enter_callback() is None,
        list.view().has_input_callback(),
        list.view().has_context(),
        !list.view().has_draw_callback(),
        !list.view().has_previous_callback(),
{
    let mut view = view_alloc();
    view_set_input_callback(&mut view);
    view_set_context(&mut view);
    VariableItemList { enter_callback: None, items: Vec::new(), selected_item_index: 0, view }
}

/// Deinitialize and free VariableItemList.
pub fn variable_item_list_free<E, K>(variable_item_list: VariableItemList<E, K>) {
}

/// Clear all elements from list; the selection returns to the first
/// position.
pub fn variable_item_list_reset<E, K>(variable_item_list: &mut VariableItemList<E, K>)
    ensures
        final(variable_item_list).wf(),
        final(variable_item_list).items() == Seq::<VariableItem<K>>::empty(),
        final(variable_item_list).selected() == 0,
        final(variable_item_list).enter_callback() == old(variable_item_list).enter_callback(),
        final(variable_item_list).view() == old(variable_item_list).view(),
{
    variable_item_list.items.clear();
    variable_item_list.selected_item_index = 0;
}

/// Get VariableItemList View instance.
pub fn variable_item_list_get_view<'l, E, K>(variable_item_list: &'l VariableItemList<E, K>) -> (view:
    &'l ViewInstance)
    ensures
        *view == variable_item_list.view(),
{
    &variable_item_list.view
}

/// Add item to VariableItemList, with `values_count` values (the first
/// current, shown by a placeholder text) or none when it is 0; the item's
/// position in the list is returned.
pub fn variable_item_list_add<E, K>(
    variable_item_list: &mut VariableItemList<E, K>,
    label: &[u8],
    values_count: u8,
    change_callback: Option<K>,
) -> (position: usize)
    requires
        old(variable_item_list).wf(),
        old(variable_item_list).items().len() < u32::MAX,
    ensures
        final(variable_item_list).wf(),
        position == old(variable_item_list).items().len(),
        final(variable_item_list).items().len() == old(variable_item_list).items().len() + 1,
        final(variable_item_list).items().drop_last() == old(variable_item_list).items(),
        ({
            let item = final(variable_item_list).items().last();
            &&& item.label() == label@
            &&& item.values_count() == values_count
            &&& item.current_value_index() == if values_count != 0 {
                Some(0u8)
            } else {
                None
            }
            &&& item.current_value_text() == if values_count != 0 {
                ValueText::Placeholder
            } else {
                ValueText::Unset
            }
            &&& item.change_callback() == change_callback
        }),
        final(variable_item_list).selected() == old(variable_item_list).selected(),
        final(variable_item_list).enter_callback() == old(variable_item_list).enter_callback(),
        final(variable_item_list).view() == old(variable_item_list).view(),
{
    let has_values = values_count != 0;
    let item = VariableItem {
        label: vstd::slice::slice_to_vec(label),
        current_value_index: if has_values {
            Some(0)
        } else {
            None
        },
        current_value_text: if has_values {
            ValueText::Placeholder
        } else {
            ValueText::Unset
        },
        values_count,
        change_callback,
    };
    let position = variable_item_list.items.len();
    variable_item_list.items.push(item);
    proof {
        assert(variable_item_list.items@.drop_last() =~= old(variable_item_list).items@);
    }
    position
}

/// The item at `position` together with the list's view, both to change.
pub fn variable_item_list_get_item_and_view<'l, E, K>(
    variable_item_list: &'l mut VariableItemList<E, K>,
    position: usize,
) -> (parts: (&'l mut VariableItem<K>, &'l mut ViewInstance))
    requires
        position < old(variable_item_list).items().len(),
    ensures
        *parts.0 == old(variable_item_list).items()[position as int],
        *parts.1 == old(variable_item_list).view(),
        final(variable_item_list).items() == old(variable_item_list).items().update(position as int, *final(parts.0)),
        final(variable_item_list).view() == *final(parts.1),
        final(variable_item_list).selected() == old(variable_item_list).selected(),
        final(variable_item_list).enter_callback() == old(variable_item_list).enter_callback(),
{
    (&mut variable_item_list.items[position], &mut variable_item_list.view)
}

/// The item at `position`, as [`variable_item_list_add`] hands it out.
pub fn variable_item_list_get_item<'l, E, K>(variable_item_list: &'l mut VariableItemList<E, K>, position: usize) -> (item:
    &'l mut VariableItem<K>)
    requires
        position < old(variable_item_list).items().len(),
    ensures
        *item == old(variable_item_list).items()[position as int],
        final(variable_item_list).items() == old(variable_item_list).items().update(position as int, *final(item)),
        final(variable_item_list).selected() == old(variable_item_list).selected(),
        final(variable_item_list).enter_callback() == old(variable_item_list).enter_callback(),
        final(variable_item_list).view() == old(variable_item_list).view(),
{
    &mut variable_item_list.items[position]
}

/// Set enter callback.
pub fn variable_item_list_set_enter_callback<E, K>(variable_item_list: &mut VariableItemList<E, K>, callback: E)
    ensures
        final(variable_item_list).enter_callback() == Some(callback),
        final(variable_item_list).items() == old(variable_item_list).items(),
        final(variable_item_list).selected() == old(variable_item_list).selected(),
        final(variable_item_list).view() == old(variable_item_list).view(),
{
    variable_item_list.enter_callback = Some(callback);
}

/// Select the item at position `index`; past the last item, the first
/// position is selected.
pub fn variable_item_list_set_selected_item<E, K>(variable_item_list: &mut VariableItemList<E, K>, index: u8)
    requires
        old(variable_item_list).wf(),
    ensures
        final(variable_item_list).wf(),
        final(variable_item_list).selected() == if (index as nat) < old(variable_item_list).items().len() {
            index as u32
        } else {
            0
        },
        final(variable_item_list).items() == old(variable_item_list).items(),
        final(variable_item_list).enter_callback() == old(variable_item_list).enter_callback(),
        final(variable_item_list).view() == old(variable_item_list).view(),
{
    let position = if (index as usize) < variable_item_list.items.len() {
        index as u32
    } else {
        0
    };
    variable_item_list.selected_item_index = position;
}

/// The position of the selected item, as a byte.
pub fn variable_item_list_get_selected_item_index<E, K>(variable_item_list: &VariableItemList<E, K>) -> (index: u8)
    ensures
        index == variable_item_list.selected() as u8,
{
    variable_item_list.selected_item_index as u8
}

/// Set item current selected index.
pub fn variable_item_set_current_value_index<K>(item: &mut VariableItem<K>, current_value_index: u8)
    ensures
        value_index_set(*old(item), *final(item), Some(current_value_index)),
{
    item.current_value_index = Some(current_value_index);
}

/// Set number of values for item.
pub fn variable_item_set_values_count<K>(item: &mut VariableItem<K>, values_count: u8)
    ensures
        final(item).values_count() == values_count,
        final(item).label() == old(item).label(),
        final(item).current_value_index() == old(item).current_value_index(),
        final(item).current_value_text() == old(item).current_value_text(),
        final(item).change_callback() == old(item).change_callback(),
{
    item.values_count = values_count;
}

/// Set item current selected text.
pub fn variable_item_set_current_value_text<K>(item: &mut VariableItem<K>, current_value_text: &[u8])
    ensures
        shows_text(final(item).current_value_text(), current_value_text@),
        final(item).label() == old(item).label(),
        final(item).current_value_index() == old(item).current_value_index(),
        final(item).values_count() == old(item).values_count(),
        final(item).change_callback() == old(item).change_callback(),
{
    item.current_value_text = ValueText::Text(vstd::slice::slice_to_vec(current_value_text));
}

/// Get item current selected index; 0 for an item without values.
pub fn variable_item_get_current_value_index<K>(item: &VariableItem<K>) -> (index: u8)
    ensures
        index == match item.current_value_index() {
            Some(value) => value,
            None => 0,
        },
{
    match item.current_value_index {
        Some(value) => value,
        None => 0,
    }
}

/// Get item context: its change callback with the callback's context.
pub fn variable_item_get_context<K>(item: &VariableItem<K>) -> (context: &Option<K>)
    ensures
        *context == item.change_callback(),
{
    &item.change_callback
}

/// Pressing Right after Left gives back the value, except from the first
/// value, which Left takes to the number of values.
pub proof fn law_left_then_right(value: u8, count: u8)
    requires
        0 < value < count,
    ensures
        value_after_right(value_after_left(value, count), count) == value,
{
    assert(((value - 1 + 1) as int) % (count as int) == value) by (nonlinear_arith)
        requires
            0 < value < count,
    ;
}

/// Pressing Left after Right gives back the value, except from the last
/// value, which Right wraps to the first.
pub proof fn law_right_then_left(value: u8, count: u8)
    requires
        value + 1 < count,
    ensures
        value_after_left(value_after_right(value, count), count) == value,
{
    assert(((value + 1) as int) % (count as int) == value + 1) by (nonlinear_arith)
        requires
            value + 1 < count,
    ;
}

} // verus!
