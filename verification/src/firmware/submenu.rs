//! The firmware's submenu: a list of labelled items, one of them selected,
//! on which Up and Down move the selection and Ok activates the selected
//! item's callback.
use crate::firmware::view::{view_alloc, view_set_context, view_set_input_callback, ViewInstance};
use crate::sys;
use vstd::prelude::*;

verus! {

/// The callback of an item, with its context (`T`).
pub enum SubmenuCallbacks<T> {
    /// Called with the item's index.
    Normal(Option<T>),
    /// Called with the type of the Ok event and the item's index.
    Extended(Option<T>),
}

/// An item of a submenu.
pub struct SubmenuItem<T> {
    pub label: Vec<u8>,
    /// The index handed to the callback; several items may share one.
    pub index: u32,
    pub callback: SubmenuCallbacks<T>,
}

/// A submenu: its items in the order they are drawn, the position of the
/// selected item, and its optional header.
pub struct Submenu<T> {
    selected_item_index: u32,
    items: Vec<SubmenuItem<T>>,
    header: Option<Vec<u8>>,
    view: ViewInstance,
}

/// What a submenu does with an input event.
#[derive(Debug, Clone, Copy, PartialEq, Eq, Structural)]
pub enum SubmenuInput {
    /// The event is not for the submenu.
    NotConsumed,
    /// The selection moved.
    Moved,
    /// Ok on the selected item, at `position`: its callback is to be called
    /// with the event's `input_type`.
    Activated { position: u32, input_type: sys::InputType },
}

/// `position` is that of the first item with `index`.
pub open spec fn is_first_with_index<T>(items: Seq<SubmenuItem<T>>, index: u32, position: int) -> bool {
    &&& 0 <= position < items.len()
    &&& items[position].index == index
    &&& forall|j: int| 0 <= j < position ==> #[trigger] items[j].index != index
}

/// No item has `index`.
pub open spec fn has_no_index<T>(items: Seq<SubmenuItem<T>>, index: u32) -> bool {
    forall|j: int| 0 <= j < items.len() ==> #[trigger] items[j].index != index
}

/// The position of the selected item after Down: the next one, wrapping to
/// the first.
pub open spec fn position_after_down(position: u32, len: nat) -> u32 {
    ((position + 1) % (len as int)) as u32
}

/// The position of the selected item after Up: the previous one, wrapping
/// to the last.
pub open spec fn position_after_up(position: u32, len: nat) -> u32 {
    if position == 0 {
        (len - 1) as u32
    } else {
        (position - 1) as u32
    }
}

impl<T> Submenu<T> {
    /// The items, in the order they are drawn.
    pub closed spec fn items(&self) -> Seq<SubmenuItem<T>> {
        self.items@
    }

    /// The position of the selected item.
    pub closed spec fn selected(&self) -> u32 {
        self.selected_item_index
    }

    /// The header, if one is set.
    pub closed spec fn header(&self) -> Option<Seq<u8>> {
        match self.header {
            Some(header) => Some(header@),
            None => None,
        }
    }

    /// The submenu's view.
    pub closed spec fn view(&self) -> ViewInstance {
        self.view
    }

    /// The selected position is that of an item, or 0; every position fits
    /// in a `u32`.
    pub open spec fn wf(&self) -> bool {
        &&& self.items().len() <= u32::MAX
        &&& self.selected() < self.items().len() || self.selected() == 0
    }

    /// Handles an input event: Ok activates the selected item, Down and Up
    /// move the selection, wrapping around; other keys are not consumed.
    ///
    /// Ok, Up and Down need at least one item.
    pub fn handle_input(&mut self, event: sys::InputEvent) -> (outcome: SubmenuInput)
        requires
            old(self).wf(),
            event.key.0 == sys::InputKeyOk || event.key.0 == sys::InputKeyDown || event.key.0
                == sys::InputKeyUp ==> old(self).items().len() > 0,
        ensures
            final(self).wf(),
            final(self).items() == old(self).items(),
            final(self).header() == old(self).header(),
            final(self).view() == old(self).view(),
            event.key.0 == sys::InputKeyOk ==> outcome == (SubmenuInput::Activated {
                position: old(self).selected(),
                input_type: event.type_,
            }) && final(self).selected() == old(self).selected(),
            event.key.0 == sys::InputKeyDown ==> outcome == SubmenuInput::Moved && final(self).selected()
                == position_after_down(old(self).selected(), old(self).items().len()),
            event.key.0 == sys::InputKeyUp ==> outcome == SubmenuInput::Moved && final(self).selected()
                == position_after_up(old(self).selected(), old(self).items().len()),
            event.key.0 != sys::InputKeyOk && event.key.0 != sys::InputKeyDown && event.key.0
                != sys::InputKeyUp ==> outcome == SubmenuInput::NotConsumed && final(self).selected()
                == old(self).selected(),
    {
        let len = self.items.len() as u32;
        if event.key.0 == sys::InputKeyOk {
            SubmenuInput::Activated { position: self.selected_item_index, input_type: event.type_ }
        } else if event.key.0 == sys::InputKeyDown {
            self.selected_item_index = (self.selected_item_index + 1) % len;
            SubmenuInput::Moved
        } else if event.key.0 == sys::InputKeyUp {
            if self.selected_item_index == 0 {
                self.selected_item_index = len - 1;
            } else {
                self.selected_item_index = self.selected_item_index - 1;
            }
            SubmenuInput::Moved
        } else {
            SubmenuInput::NotConsumed
        }
    }

    /// The item at `position`, to call its callback.
    pub fn item_mut(&mut self, position: u32) -> (item: &mut SubmenuItem<T>)
        requires
            position < old(self).items().len(),
        ensures
            *item == old(self).items()[position as int],
            final(self).items() == old(self).items().update(position as int, *final(item)),
            final(self).selected() == old(self).selected(),
            final(self).header() == old(self).header(),
            final(self).view() == old(self).view(),
    {
        &mut self.items[position as usize]
    }
}

/// Allocate and initialize submenu: no items, the first position selected,
/// its view handling input with the submenu as context.
pub fn submenu_alloc<T>() -> (submenu: Submenu<T>)
    ensures
        submenu.wf(),
        submenu.items() == Seq::<SubmenuItem<T>>::empty(),
        submenu.selected() == 0,
        submenu.header() is None,
        submenu.view().has_input_callback(),
        submenu.view().has_context(),
        !submenu.view().has_draw_callback(),
        !submenu.view().has_previous_callback(),
{
    let mut view = view_alloc();
    view_set_input_callback(&mut view);
    view_set_context(&mut view);
    Submenu { view, items: Vec::new(), selected_item_index: 0, header: None }
}

/// Deinitialize and free submenu.
pub fn submenu_free<T>(submenu: Submenu<T>) {
}

/// Get submenu view.
pub fn submenu_get_view<'s, T>(submenu: &'s Submenu<T>) -> (view: &'s ViewInstance)
    ensures
        *view == submenu.view(),
{
    &submenu.view
}

fn push_item<T>(submenu: &mut Submenu<T>, label: &[u8], index: u32, callback: SubmenuCallbacks<T>)
    requires
        old(submenu).wf(),
        old(submenu).items().len() < u32::MAX,
    ensures
        final(submenu).wf(),
        final(submenu).items().len() == old(submenu).items().len() + 1,
        final(submenu).items().drop_last() == old(submenu).items(),
        final(submenu).items().last().label@ == label@,
        final(submenu).items().last().index == index,
        final(submenu).items().last().callback == callback,
        final(submenu).selected() == old(submenu).selected(),
        final(submenu).header() == old(submenu).header(),
        final(submenu).view() == old(submenu).view(),
{
    let label = vstd::slice::slice_to_vec(label);
    submenu.items.push(SubmenuItem { label, index, callback });
    proof {
        assert(submenu.items@.drop_last() =~= old(submenu).items@);
    }
}

/// Add item to submenu; `index` is handed to `callback` and may be the same
/// as that of other items.
pub fn submenu_add_item<T>(submenu: &mut Submenu<T>, label: &[u8], index: u32, callback: Option<T>)
    requires
        old(submenu).wf(),
        old(submenu).items().len() < u32::MAX,
    ensures
        final(submenu).wf(),
        final(submenu).items().len() == old(submenu).items().len() + 1,
        final(submenu).items().drop_last() == old(submenu).items(),
        final(submenu).items().last().label@ == label@,
        final(submenu).items().last().index == index,
        final(submenu).items().last().callback == SubmenuCallbacks::Normal(callback),
        final(submenu).selected() == old(submenu).selected(),
        final(submenu).header() == old(submenu).header(),
        final(submenu).view() == old(submenu).view(),
{
    push_item(submenu, label, index, SubmenuCallbacks::Normal(callback));
}

/// Add item to submenu with extended press events; `index` is handed to
/// `callback` and may be the same as that of other items.
pub fn submenu_add_item_ex<T>(submenu: &mut Submenu<T>, label: &[u8], index: u32, callback: Option<T>)
    requires
        old(submenu).wf(),
        old(submenu).items().len() < u32::MAX,
    ensures
        final(submenu).wf(),
        final(submenu).items().len() == old(submenu).items().len() + 1,
        final(submenu).items().drop_last() == old(submenu).items(),
        final(submenu).items().last().label@ == label@,
        final(submenu).items().last().index == index,
        final(submenu).items().last().callback == SubmenuCallbacks::Extended(callback),
        final(submenu).selected() == old(submenu).selected(),
        final(submenu).header() == old(submenu).header(),
        final(submenu).view() == old(submenu).view(),
{
    push_item(submenu, label, index, SubmenuCallbacks::Extended(callback));
}

/// The position of the first item with `index`, if any.
fn find_first<T>(items: &Vec<SubmenuItem<T>>, index: u32) -> (position: Option<usize>)
    ensures
        match position {
            Some(p) => is_first_with_index(items@, index, p as int),
            None => has_no_index(items@, index),
        },
{
    let mut position: usize = 0;
    while position < items.len()
        invariant
            position <= items.len(),
            forall|j: int| 0 <= j < position ==> #[trigger] items@[j].index != index,
        decreases items.len() - position,
    {
        if items[position].index == index {
            return Some(position);
        }
        position = position + 1;
    }
    None
}

/// Change label of an existing item: the first item with `index`. Without
/// such an item, nothing changes.
pub fn submenu_change_item_label<T>(submenu: &mut Submenu<T>, index: u32, label: &[u8])
    requires
        old(submenu).wf(),
    ensures
        final(submenu).wf(),
        final(submenu).items().len() == old(submenu).items().len(),
        forall|p: int|
            is_first_with_index(old(submenu).items(), index, p) ==> {
                &&& final(submenu).items()[p].label@ == label@
                &&& final(submenu).items()[p].index == index
                &&& final(submenu).items()[p].callback == old(submenu).items()[p].callback
                &&& forall|j: int|
                    0 <= j < old(submenu).items().len() && j != p ==> #[trigger] final(submenu).items()[j]
                        == old(submenu).items()[j]
            },
        has_no_index(old(submenu).items(), index) ==> final(submenu).items() == old(submenu).items(),
        final(submenu).selected() == old(submenu).selected(),
        final(submenu).header() == old(submenu).header(),
        final(submenu).view() == old(submenu).view(),
{
    match find_first(&submenu.items, index) {
        Some(position) => {
            let new_label = vstd::slice::slice_to_vec(label);
            let item = &mut submenu.items[position];
            item.label = new_label;
        },
        None => {},
    }
}

/// Remove all items from submenu; the selection returns to the first
/// position.
pub fn submenu_reset<T>(submenu: &mut Submenu<T>)
    ensures
        final(submenu).wf(),
        final(submenu).items() == Seq::<SubmenuItem<T>>::empty(),
        final(submenu).selected() == 0,
        final(submenu).header() == old(submenu).header(),
        final(submenu).view() == old(submenu).view(),
{
    submenu.items.clear();
    submenu.selected_item_index = 0;
}

/// Get submenu selected item index: the index of the selected item, or 0
/// without items.
pub fn submenu_get_selected_item<T>(submenu: &Submenu<T>) -> (index: u32)
    requires
        submenu.wf(),
    ensures
        index == if submenu.selected() < submenu.items().len() {
            submenu.items()[submenu.selected() as int].index
        } else {
            0
        },
{
    let position = submenu.selected_item_index as usize;
    if position < submenu.items.len() {
        submenu.items[position].index
    } else {
        0
    }
}

/// Set submenu selected item by index: select the first item with `index`,
/// or the first position without one.
pub fn submenu_set_selected_item<T>(submenu: &mut Submenu<T>, index: u32)
    requires
        old(submenu).wf(),
    ensures
        final(submenu).wf(),
        is_first_with_index(old(submenu).items(), index, final(submenu).selected() as int)
            || (has_no_index(old(submenu).items(), index) && final(submenu).selected() == 0),
        final(submenu).items() == old(submenu).items(),
        final(submenu).header() == old(submenu).header(),
        final(submenu).view() == old(submenu).view(),
{
    let position = match find_first(&submenu.items, index) {
        Some(position) => position,
        None => 0,
    };
    submenu.selected_item_index = position as u32;
}

/// Set optional header for submenu.
pub fn submenu_set_header<T>(submenu: &mut Submenu<T>, header: &[u8])
    ensures
        final(submenu).header() == Some(header@),
        final(submenu).items() == old(submenu).items(),
        final(submenu).selected() == old(submenu).selected(),
        final(submenu).view() == old(submenu).view(),
{
    submenu.header = Some(vstd::slice::slice_to_vec(header));
}

/// Moving the selection down and then up, or up and then down, returns to
/// the item selected before.
pub proof fn law_down_then_up(position: u32, len: nat)
    requires
        0 < len <= u32::MAX,
        position < len,
    ensures
        position_after_up(position_after_down(position, len), len) == position,
        position_after_down(position_after_up(position, len), len) == position,
{
    if position + 1 < len {
        assert((position + 1) % (len as int) == position + 1) by (nonlinear_arith)
            requires
                0 <= position + 1 < len,
        ;
    } else {
        assert((position + 1) % (len as int) == 0) by (nonlinear_arith)
            requires
                position + 1 == len,
                len > 0,
        ;
    }
    if position == 0 {
        assert(((len - 1) + 1) % (len as int) == 0) by (nonlinear_arith)
            requires
                len > 0,
        ;
    } else {
        assert((position as int) % (len as int) == position) by (nonlinear_arith)
            requires
                0 <= position < len,
        ;
    }
}

/// Moving the selection down as many times as there are items returns to
/// the item selected before.
pub open spec fn position_after_downs(position: u32, len: nat, times: nat) -> u32
    decreases times,
{
    if times == 0 {
        position
    } else {
        position_after_down(position_after_downs(position, len, (times - 1) as nat), len)
    }
}

/// Moving the selection down once per item goes round the whole list and
/// back to the item selected before.
pub proof fn law_down_cycles(position: u32, len: nat)
    requires
        0 < len <= u32::MAX,
        position < len,
    ensures
        position_after_downs(position, len, len) == position,
{
    lemma_downs(position, len, len);
    vstd::arithmetic::div_mod::lemma_mod_add_multiples_vanish(position as int, len as int);
    vstd::arithmetic::div_mod::lemma_small_mod(position as nat, len);
}

proof fn lemma_downs(position: u32, len: nat, times: nat)
    requires
        0 < len <= u32::MAX,
        position < len,
    ensures
        position_after_downs(position, len, times) == (position + times) % (len as int),
    decreases times,
{
    if times > 0 {
        lemma_downs(position, len, (times - 1) as nat);
        let before = (position + times - 1) % (len as int);
        assert(0 <= before < len) by (nonlinear_arith)
            requires
                len > 0,
                before == (position + times - 1) % (len as int),
        ;
        assert((before + 1) % (len as int) == (position + times) % (len as int)) by {
            vstd::arithmetic::div_mod::lemma_add_mod_noop_right(1, position + times - 1, len as int);
        }
    } else {
        assert((position as int) % (len as int) == position) by (nonlinear_arith)
            requires
                0 <= position < len,
        ;
    }
}

} // verus!
