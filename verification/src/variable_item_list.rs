//! A list, where each item may have selectable options, and a corresponding
//! label. See any settings page.
//!
//! Labels are owned byte strings. Items are numbered by their position in
//! the list, from 0, and that number is what the enter callback receives.
use crate::firmware::variable_item_list as fw;
use crate::firmware::view::{view_commit_model, ViewInstance};
use crate::sys;
use crate::tagged;
use crate::view_dispatcher::{is_bound, ViewDispatcherInner, ViewDispatcherView};
use vstd::prelude::*;

verus! {

/// An item in the list.
#[derive(Debug)]
pub struct VariableItem {
    list_index: usize,
}

impl VariableItem {
    /// The item's position in the list.
    pub closed spec fn index(&self) -> usize {
        self.list_index
    }

    /// The item's position in the list.
    pub fn list_index(&self) -> (index: usize)
        ensures
            index == self.index(),
    {
        self.list_index
    }
}

/// An item, with the callbacks of its values if it has values.
pub enum VariableItemType<'a> {
    Plain(VariableItem),
    WithValues(Box<VariableItemValueCallbacksContext<'a>>),
}

/// The position an item stands at.
pub open spec fn item_index<'a>(item: VariableItemType<'a>) -> usize {
    match item {
        VariableItemType::Plain(item) => item.index(),
        VariableItemType::WithValues(context) => context.item_spec().index(),
    }
}

/// The callbacks of an item with values, its current value label and its
/// number of options.
pub struct VariableItemValueCallbacksContext<'a> {
    callbacks: Box<dyn OnCurrentValueTextChangedCallbacks + 'a>,
    value_label: Vec<u8>,
    item: VariableItem,
    number_of_options: u8,
}

/// An item handed to an on-click callback: the list's item, the firmware's
/// record of it, and the list's view.
pub struct MutexGuardedVariableItemType<'guard, 'callbacks> {
    pub item: &'guard mut VariableItemType<'callbacks>,
    pub raw: &'guard mut fw::VariableItem<()>,
    pub view: &'guard mut ViewInstance,
}

/// The on-click callback `callback` was handed `guard`.
pub open spec fn clicked<'g, 'a, L: Callback<'a> + ?Sized>(
    callback: &L,
    guard: MutexGuardedVariableItemType<'g, 'a>,
) -> bool {
    call_ensures(L::on_click, (callback, guard), ())
}

/// Hands `guard` to the on-click callback `callback`.
fn click<'g, 'a, L: Callback<'a> + ?Sized>(callback: &L, guard: MutexGuardedVariableItemType<'g, 'a>)
    ensures
        clicked(callback, guard),
{
    let on_click = L::on_click;
    on_click(callback, guard);
}

/// `after` is the view `before` after its model was committed, with an
/// update asked for exactly when `redraw` is set or one was asked before.
pub open spec fn committed(before: ViewInstance, after: ViewInstance, redraw: bool) -> bool {
    &&& after.update_requested() == (before.update_requested() || redraw)
    &&& after.has_draw_callback() == before.has_draw_callback()
    &&& after.has_input_callback() == before.has_input_callback()
    &&& after.has_previous_callback() == before.has_previous_callback()
    &&& after.has_context() == before.has_context()
    &&& after.model() == before.model()
}

/// Reacts to a click on an item.
pub trait Callback<'callbacks> {
    /// Called on a (short) Ok input event.
    fn on_click<'guard>(&'guard self, item: MutexGuardedVariableItemType<'guard, 'callbacks>) -> ();
}

/// Reacts to the user changing an item's value.
pub trait OnCurrentValueTextChangedCallbacks {
    /// Called in response to the user changing this item's selected value
    /// (by pressing left or right while this item is selected in the list).
    /// Should return the new label for the value.
    ///
    /// Note that this is not invoked when the value is changed via methods
    /// on [VariableItemValueCallbacksContext].
    fn get_new_label(&self, item: &VariableItem, value: u8) -> Vec<u8>;

    /// An optional callback that allows for changes to the value to have
    /// further impact, in addition to just having the label change.
    fn react_to_change(&self) -> () {
    }
}

/// `label` is a label that `callbacks` answer when asked for the label of
/// `item`'s value `value`.
pub open spec fn answers_label<L: OnCurrentValueTextChangedCallbacks + ?Sized>(
    callbacks: &L,
    item: VariableItem,
    value: u8,
    label: Seq<u8>,
) -> bool {
    exists|answer: Vec<u8>| #[trigger] call_ensures(L::get_new_label, (callbacks, &item, value), answer) && answer@ == label
}

/// `callbacks` were told that their item's value changed.
pub open spec fn told_of_change<L: OnCurrentValueTextChangedCallbacks + ?Sized>(callbacks: &L) -> bool {
    call_ensures(L::react_to_change, (callbacks,), ())
}

/// Asks `callbacks` for the label of `item`'s value `value`.
fn ask_new_label<L: OnCurrentValueTextChangedCallbacks + ?Sized>(callbacks: &L, item: &VariableItem, value: u8) -> (label: Vec<u8>)
    ensures
        answers_label(callbacks, *item, value, label@),
{
    let get_new_label = L::get_new_label;
    let label = get_new_label(callbacks, item, value);
    assert(call_ensures(L::get_new_label, (callbacks, item, value), label));
    label
}

/// Tells `callbacks` that their item's value changed.
fn tell_of_change<L: OnCurrentValueTextChangedCallbacks + ?Sized>(callbacks: &L)
    ensures
        told_of_change(callbacks),
{
    let react_to_change = L::react_to_change;
    react_to_change(callbacks);
}

/// One on-click callback per item, each tagged with its item's position.
pub struct UniqueCallbackForEachItem<'a>(pub Vec<(usize, Box<dyn Callback<'a> + 'a>)>);

/// The Item List.
pub struct VariableItemList<'a, T> {
    inner: fw::VariableItemList<(), ()>,
    callback: T,
    strings: Vec<Vec<u8>>,
    items: Vec<VariableItemType<'a>>,
}

/// A reference to an item of a [`VariableItemList`], by its position.
pub struct VariableItemRef {
    list_index: usize,
}

impl<'a> VariableItemValueCallbacksContext<'a> {
    /// The label of the current value.
    pub closed spec fn value_label(&self) -> Seq<u8> {
        self.value_label@
    }

    /// The item these callbacks belong to.
    pub closed spec fn item_spec(&self) -> VariableItem {
        self.item
    }

    /// The number of options.
    pub closed spec fn number_of_options(&self) -> u8 {
        self.number_of_options
    }

    /// `label` is a label the item's callbacks answer for its value `value`.
    pub closed spec fn answers(&self, value: u8, label: Seq<u8>) -> bool {
        answers_label(&*self.callbacks, self.item, value, label)
    }

    /// The item's callbacks were told that its value changed.
    pub closed spec fn told(&self) -> bool {
        told_of_change(&*self.callbacks)
    }

    /// Sets the number of options, also in the firmware's record of the item
    /// (`raw`), so that Left and Right wrap at the new number. Note that this
    /// will not reset the current option, which may be a value greater than
    /// the new number of options. The list's `view` model is committed,
    /// asking for a redraw with `redraw`.
    pub fn set_number_of_options(
        &mut self,
        raw: &mut fw::VariableItem<()>,
        view: &mut ViewInstance,
        number_of_options: u8,
        redraw: bool,
    )
        ensures
            committed(*old(view), *final(view), redraw),
            final(raw).values_count() == number_of_options,
            final(raw).current_value_index() == old(raw).current_value_index(),
            final(raw).current_value_text() == old(raw).current_value_text(),
            final(raw).label() == old(raw).label(),
            final(raw).change_callback() == old(raw).change_callback(),
            final(self).number_of_options() == number_of_options,
            final(self).value_label() == old(self).value_label(),
            final(self).item_spec() == old(self).item_spec(),
    {
        self.number_of_options = number_of_options;
        fw::variable_item_set_values_count(raw, number_of_options);
        view_commit_model(view, redraw);
    }

    /// Sets the current value of the item (`raw` is the firmware's record of
    /// it), and, with `label_override`, its label; then the list's `view`
    /// model is committed, asking for a redraw with `redraw`.
    ///
    /// WARNING: The value that is set is not bounds checked, and so may be a
    /// value greater than the current number of options.
    pub fn set_currently_selected_value(
        &mut self,
        raw: &mut fw::VariableItem<()>,
        view: &mut ViewInstance,
        value: u8,
        label_override: Option<Vec<u8>>,
        redraw: bool,
    )
        ensures
            committed(*old(view), *final(view), redraw),
            final(raw).current_value_index() == Some(value),
            final(raw).label() == old(raw).label(),
            final(raw).values_count() == old(raw).values_count(),
            final(raw).change_callback() == old(raw).change_callback(),
            match label_override {
                Some(label) => {
                    &&& final(self).value_label() == label@
                    &&& fw::shows_text(final(raw).current_value_text(), label@)
                },
                None => {
                    &&& final(self).value_label() == old(self).value_label()
                    &&& final(raw).current_value_text() == old(raw).current_value_text()
                },
            },
            final(self).number_of_options() == old(self).number_of_options(),
            final(self).item_spec() == old(self).item_spec(),
    {
        fw::variable_item_set_current_value_index(raw, value);
        match label_override {
            Some(new_label) => {
                self.value_label = new_label;
                fw::variable_item_set_current_value_text(raw, self.value_label.as_slice());
            },
            None => {},
        }
        view_commit_model(view, redraw);
    }

    /// Temporarily override the value label (`raw` is the firmware's record
    /// of the item). Note that this will be reset when the user next changes
    /// the value, and [OnCurrentValueTextChangedCallbacks::get_new_label] is
    /// called. The list's `view` model is committed, asking for a redraw
    /// with `redraw`.
    pub fn override_value_label(
        &mut self,
        raw: &mut fw::VariableItem<()>,
        view: &mut ViewInstance,
        new_label: Vec<u8>,
        redraw: bool,
    )
        ensures
            committed(*old(view), *final(view), redraw),
            final(self).value_label() == new_label@,
            fw::shows_text(final(raw).current_value_text(), new_label@),
            final(raw).current_value_index() == old(raw).current_value_index(),
            final(raw).label() == old(raw).label(),
            final(raw).values_count() == old(raw).values_count(),
            final(raw).change_callback() == old(raw).change_callback(),
            final(self).number_of_options() == old(self).number_of_options(),
            final(self).item_spec() == old(self).item_spec(),
    {
        self.value_label = new_label;
        fw::variable_item_set_current_value_text(raw, self.value_label.as_slice());
        view_commit_model(view, redraw);
    }
}

/// The value index the firmware reports for an item: its current value, or
/// 0 when it has none.
pub open spec fn current_value_or_zero(index: Option<u8>) -> u8 {
    match index {
        Some(value) => value,
        None => 0,
    }
}

/// The value an item's firmware record holds after Left or Right.
pub open spec fn value_after_key(key: sys::InputKey, value: u8, count: u8) -> u8 {
    if key.0 == sys::InputKeyLeft {
        fw::value_after_left(value, count)
    } else {
        fw::value_after_right(value, count)
    }
}

/// Whether the list consumes an input event of `key`.
pub open spec fn consumes_key(key: sys::InputKey) -> bool {
    key.0 == sys::InputKeyOk || key.0 == sys::InputKeyLeft || key.0 == sys::InputKeyRight || key.0
        == sys::InputKeyDown || key.0 == sys::InputKeyUp
}

/// Whether `event` clicks the selected item: a short press of Ok.
pub open spec fn is_click(event: sys::InputEvent) -> bool {
    event.key.0 == sys::InputKeyOk && event.type_.0 == sys::InputTypeShort
}

/// Whether `key` moves the selection.
pub open spec fn moves_selection(key: sys::InputKey) -> bool {
    key.0 == sys::InputKeyDown || key.0 == sys::InputKeyUp
}

/// The position selected after an event of `key`.
pub open spec fn selected_after_key(key: sys::InputKey, position: u32, len: nat) -> u32 {
    if key.0 == sys::InputKeyDown {
        crate::firmware::submenu::position_after_down(position, len)
    } else if key.0 == sys::InputKeyUp {
        crate::firmware::submenu::position_after_up(position, len)
    } else {
        position
    }
}

/// What an input event needs of the list: an enter callback is always set;
/// keys that act on the selected item or move the selection need an item;
/// Right needs the selected value to have a successor to wrap.
pub open spec fn accepts_input(list: fw::VariableItemList<(), ()>, event: sys::InputEvent) -> bool {
    &&& list.enter_callback() is Some
    &&& event.key.0 == sys::InputKeyLeft || event.key.0 == sys::InputKeyRight || moves_selection(event.key)
        ==> list.items().len() > 0
    &&& event.key.0 == sys::InputKeyRight ==> match list.items()[list.selected() as int].current_value_index() {
        Some(value) => value < 255 && list.items()[list.selected() as int].values_count() != 0,
        None => true,
    }
}

/// The effect of Left or Right on the selected item at `position`: the
/// firmware's value moves as the key says, and an item with values and a
/// change callback shows the label its callbacks gave for the new value,
/// and its callbacks were told of the change.
pub open spec fn value_change<'a>(
    key: sys::InputKey,
    before: fw::VariableItem<()>,
    after: fw::VariableItem<()>,
    item_after: VariableItemType<'a>,
) -> bool {
    match before.current_value_index() {
        None => after == before,
        Some(value) => {
            &&& after.current_value_index() == Some(value_after_key(key, value, before.values_count()))
            &&& after.label() == before.label()
            &&& after.values_count() == before.values_count()
            &&& after.change_callback() == before.change_callback()
            &&& (before.change_callback() is Some && item_after is WithValues) ==> match item_after {
                VariableItemType::WithValues(context) => {
                    &&& fw::shows_text(after.current_value_text(), context.value_label())
                    &&& context.answers(value_after_key(key, value, before.values_count()), context.value_label())
                    &&& context.told()
                },
                VariableItemType::Plain(_) => true,
            }
            &&& !(before.change_callback() is Some && item_after is WithValues) ==> after.current_value_text()
                == before.current_value_text()
        },
    }
}

impl<'a, T> VariableItemList<'a, T> {
    /// The firmware's list.
    pub closed spec fn firmware(&self) -> fw::VariableItemList<(), ()> {
        self.inner
    }

    /// The on-click callback(s).
    pub closed spec fn callbacks(&self) -> T {
        self.callback
    }

    /// The items' labels.
    pub closed spec fn labels(&self) -> Seq<Seq<u8>> {
        label_views(self.strings@)
    }

    /// The items.
    pub closed spec fn items(&self) -> Seq<VariableItemType<'a>> {
        self.items@
    }

    /// The firmware holds one item per item of the list, and an enter
    /// callback.
    pub closed spec fn wf(&self) -> bool {
        &&& self.inner.wf()
        &&& self.inner.items().len() == self.items@.len()
        &&& self.strings@.len() == self.items@.len()
        &&& self.inner.enter_callback() is Some
    }

    /// What a well-formed list holds: the firmware's list is well formed,
    /// has an enter callback, and has one item, and the list one label, per
    /// item of the list.
    pub proof fn lemma_wf(&self)
        requires
            self.wf(),
        ensures
            self.firmware().wf(),
            self.firmware().enter_callback() is Some,
            self.firmware().items().len() == self.items().len(),
            self.labels().len() == self.items().len(),
    {
    }

    /// The firmware's variable item list.
    pub fn as_raw(&self) -> (raw: &fw::VariableItemList<(), ()>)
        ensures
            *raw == self.firmware(),
    {
        &self.inner
    }

    /// Adds an item to the firmware's list and to this list's records.
    fn push_entry(&mut self, label: Vec<u8>, values_count: u8, change_callback: Option<()>, item: VariableItemType<'a>) -> (list_index:
        usize)
        requires
            old(self).wf(),
            old(self).items().len() < u32::MAX,
            item_index(item) == old(self).items().len(),
        ensures
            final(self).wf(),
            list_index == old(self).items().len(),
            final(self).items() == old(self).items().push(item),
            pushed(*old(self), *final(self), label@, values_count, change_callback),
            final(self).callbacks() == old(self).callbacks(),
    {
        let list_index = self.items.len();
        let position = fw::variable_item_list_add(&mut self.inner, label.as_slice(), values_count, change_callback);
        self.items.push(item);
        self.strings.push(label);
        proof {
            assert(self.strings@.map_values(|label: Vec<u8>| label@) =~= old(self).strings@.map_values(
                |label: Vec<u8>| label@,
            ).push(label@));
            assert(self.items@.drop_last() =~= old(self).items@);
        }
        list_index
    }

    /// Builds the callbacks context of an item with values at `list_index`,
    /// and shows the label its callbacks give for the first value.
    fn new_value_context_at<C: OnCurrentValueTextChangedCallbacks + 'a>(
        &mut self,
        list_index: usize,
        number_of_options: u8,
        callbacks: C,
    ) -> (context: Box<VariableItemValueCallbacksContext<'a>>)
        requires
            old(self).firmware().wf(),
            list_index < old(self).firmware().items().len(),
        ensures
            final(self).firmware().wf(),
            context.item_spec().index() == list_index,
            context.number_of_options() == number_of_options,
            answers_label(&callbacks, context.item_spec(), 0, context.value_label()),
            final(self).items() == old(self).items(),
            final(self).labels() == old(self).labels(),
            final(self).callbacks() == old(self).callbacks(),
            final(self).firmware().selected() == old(self).firmware().selected(),
            final(self).firmware().enter_callback() == old(self).firmware().enter_callback(),
            final(self).firmware().items().len() == old(self).firmware().items().len(),
            forall|j: int| 0 <= j < old(self).firmware().items().len() && j != list_index ==> #[trigger] final(self).firmware().items()[j]
                == old(self).firmware().items()[j],
            ({
                let before = old(self).firmware().items()[list_index as int];
                let after = final(self).firmware().items()[list_index as int];
                &&& fw::shows_text(after.current_value_text(), context.value_label())
                &&& after.current_value_index() == before.current_value_index()
                &&& after.label() == before.label()
                &&& after.values_count() == before.values_count()
                &&& after.change_callback() == before.change_callback()
            }),
    {
        let item = VariableItem { list_index };
        let value_label = ask_new_label(&callbacks, &item, 0);
        let callbacks: Box<dyn OnCurrentValueTextChangedCallbacks + 'a> = Box::new(callbacks);
        let raw = fw::variable_item_list_get_item(&mut self.inner, list_index);
        fw::variable_item_set_current_value_text(raw, value_label.as_slice());
        Box::new(VariableItemValueCallbacksContext { callbacks, value_label, item, number_of_options })
    }
}

/// `after` is `before` with one item added at the end: a list item
/// `item` labelled `label`, and in the firmware an item with `values_count`
/// values and `change_callback`.
pub open spec fn pushed<'a, T>(
    before: VariableItemList<'a, T>,
    after: VariableItemList<'a, T>,
    label: Seq<u8>,
    values_count: u8,
    change_callback: Option<()>,
) -> bool {
    &&& after.items().drop_last() == before.items()
    &&& after.items().len() == before.items().len() + 1
    &&& item_index(after.items().last()) == before.items().len()
    &&& after.labels() == before.labels().push(label)
    &&& after.firmware().items().len() == before.firmware().items().len() + 1
    &&& after.firmware().items().drop_last() == before.firmware().items()
    &&& after.firmware().items().last().label() == label
    &&& after.firmware().items().last().values_count() == values_count
    &&& after.firmware().items().last().current_value_index() == if values_count != 0 {
        Some(0u8)
    } else {
        None
    }
    &&& after.firmware().items().last().change_callback() == change_callback
    &&& after.firmware().selected() == before.firmware().selected()
    &&& after.firmware().enter_callback() == before.firmware().enter_callback()
}

/// The item last pushed has values: its firmware record shows the label
/// `callbacks` gave for its first value (value 0), and it has
/// `number_of_options` options.
pub open spec fn pushed_with_values<'a, T, L: OnCurrentValueTextChangedCallbacks>(
    after: VariableItemList<'a, T>,
    number_of_options: u8,
    callbacks: &L,
) -> bool {
    match after.items().last() {
        VariableItemType::WithValues(context) => {
            &&& context.number_of_options() == number_of_options
            &&& fw::shows_text(after.firmware().items().last().current_value_text(), context.value_label())
            &&& answers_label(callbacks, context.item_spec(), 0, context.value_label())
        },
        VariableItemType::Plain(_) => false,
    }
}

impl<'a> VariableItemList<'a, UniqueCallbackForEachItem<'a>> {
    /// The on-click callbacks, each with the position of its item, in the
    /// order they were added.
    pub closed spec fn on_click_entries(&self) -> Seq<(usize, Box<dyn Callback<'a> + 'a>)> {
        self.callback.0@
    }

    /// The positions of the items the on-click callbacks belong to, in the
    /// order the callbacks were added.
    pub closed spec fn callback_ids(&self) -> Seq<usize> {
        tagged::tags(self.callback.0@)
    }

    /// The list is well formed and every on-click callback belongs to an item.
    pub open spec fn wf_unique(&self) -> bool {
        &&& self.wf()
        &&& forall|k: int| 0 <= k < self.callback_ids().len() ==> #[trigger] self.callback_ids()[k] < self.items().len()
    }

    /// Callbacks kept across a change that adds items keep belonging to
    /// items.
    proof fn lemma_callbacks_kept(&self, before: Self)
        requires
            before.wf_unique(),
            self.wf(),
            self.callbacks() == before.callbacks(),
            self.items().len() >= before.items().len(),
        ensures
            self.wf_unique(),
            self.callback_ids() == before.callback_ids(),
    {
    }

    /// Creates a new variable item list, for which each item may perform a
    /// different action when clicked.
    pub fn new() -> (list: Self)
        ensures
            list.wf_unique(),
            list.items().len() == 0,
            list.labels().len() == 0,
            list.callback_ids().len() == 0,
            list.firmware().items().len() == 0,
            list.firmware().selected() == 0,
            list.firmware().enter_callback() is Some,
    {
        let mut inner = fw::variable_item_list_alloc();
        fw::variable_item_list_set_enter_callback(&mut inner, ());
        let list = VariableItemList {
            inner,
            callback: UniqueCallbackForEachItem(Vec::new()),
            strings: Vec::new(),
            items: Vec::new(),
        };
        proof {
            assert(list.callback_ids() =~= Seq::<usize>::empty());
            assert(list.labels() =~= Seq::<Seq<u8>>::empty());
        }
        list
    }

    fn add_on_click_callback<C: Callback<'a> + 'a>(&mut self, list_index: usize, callback: C)
        requires
            old(self).wf_unique(),
            list_index < old(self).items().len(),
        ensures
            final(self).wf_unique(),
            final(self).callback_ids() == old(self).callback_ids().push(list_index),
            final(self).items() == old(self).items(),
            final(self).labels() == old(self).labels(),
            final(self).firmware() == old(self).firmware(),
    {
        let callback: Box<dyn Callback<'a> + 'a> = Box::new(callback);
        tagged::push_tagged(&mut self.callback.0, list_index, callback);
        proof {
            assert(self.items() == old(self).items());
            assert(self.wf());
            assert forall|k: int| 0 <= k < self.callback_ids().len() implies #[trigger] self.callback_ids()[k]
                < self.items().len() by {
                if k < old(self).callback_ids().len() {
                    assert(self.callback_ids()[k] == old(self).callback_ids()[k]);
                }
            }
        }
    }

    /// Push a plaintext item to the end of the variable item list.
    pub fn push_item_plaintext(&mut self, label: Vec<u8>) -> (item: VariableItemRef)
        requires
            old(self).wf_unique(),
            old(self).items().len() < u32::MAX,
        ensures
            final(self).wf_unique(),
            item.index() == old(self).items().len(),
            pushed(*old(self), *final(self), label@, 0, None),
            final(self).items().last() is Plain,
            final(self).callback_ids() == old(self).callback_ids(),
    {
        let list_index = self.items.len();
        let list_index = self.push_entry(label, 0, None, VariableItemType::Plain(VariableItem { list_index }));
        proof {
            self.lemma_callbacks_kept(*old(self));
        }
        VariableItemRef { list_index }
    }

    /// Push an item to the end of the variable item list that, when clicked
    /// on, invokes a callback.
    pub fn push_item_with_on_click_callback<C: Callback<'a> + 'a>(&mut self, label: Vec<u8>, callback: C) -> (item:
        VariableItemRef)
        requires
            old(self).wf_unique(),
            old(self).items().len() < u32::MAX,
        ensures
            final(self).wf_unique(),
            item.index() == old(self).items().len(),
            pushed(*old(self), *final(self), label@, 0, None),
            final(self).items().last() is Plain,
            final(self).callback_ids() == old(self).callback_ids().push(item.index()),
    {
        let list_index = self.items.len();
        let list_index = self.push_entry(label, 0, None, VariableItemType::Plain(VariableItem { list_index }));
        proof {
            self.lemma_callbacks_kept(*old(self));
        }
        self.add_on_click_callback(list_index, callback);
        VariableItemRef { list_index }
    }

    /// Push an item to the end of the variable item list. The item will
    /// have a number of options which can be selected.
    pub fn push_item_with_options<C: OnCurrentValueTextChangedCallbacks + 'a>(
        &mut self,
        label: Vec<u8>,
        number_of_options: u8,
        callbacks: C,
    ) -> (item: VariableItemRef)
        requires
            old(self).wf_unique(),
            old(self).items().len() < u32::MAX,
        ensures
            final(self).wf_unique(),
            item.index() == old(self).items().len(),
            pushed(*old(self), *final(self), label@, number_of_options, Some(())),
            pushed_with_values(*final(self), number_of_options, &callbacks),
            final(self).callback_ids() == old(self).callback_ids(),
    {
        let list_index = self.push_with_values(label, number_of_options, callbacks);
        VariableItemRef { list_index }
    }

    /// Push an item to the end of the variable item list. The item will
    /// have a number of options which can be selected, and, when clicked,
    /// will invoke a callback.
    pub fn push_item_with_on_click_callback_and_options<
        C: Callback<'a> + 'a,
        D: OnCurrentValueTextChangedCallbacks + 'a,
    >(
        &mut self,
        label: Vec<u8>,
        on_click_callback: C,
        number_of_options: u8,
        on_current_value_changed_callbacks: D,
    ) -> (item: VariableItemRef)
        requires
            old(self).wf_unique(),
            old(self).items().len() < u32::MAX,
        ensures
            final(self).wf_unique(),
            item.index() == old(self).items().len(),
            pushed(*old(self), *final(self), label@, number_of_options, Some(())),
            pushed_with_values(*final(self), number_of_options, &on_current_value_changed_callbacks),
            final(self).callback_ids() == old(self).callback_ids().push(item.index()),
    {
        let list_index = self.push_with_values(label, number_of_options, on_current_value_changed_callbacks);
        self.add_on_click_callback(list_index, on_click_callback);
        VariableItemRef { list_index }
    }

    fn push_with_values<C: OnCurrentValueTextChangedCallbacks + 'a>(
        &mut self,
        label: Vec<u8>,
        number_of_options: u8,
        callbacks: C,
    ) -> (list_index: usize)
        requires
            old(self).wf_unique(),
            old(self).items().len() < u32::MAX,
        ensures
            final(self).wf_unique(),
            list_index == old(self).items().len(),
            pushed(*old(self), *final(self), label@, number_of_options, Some(())),
            pushed_with_values(*final(self), number_of_options, &callbacks),
            final(self).callback_ids() == old(self).callback_ids(),
    {
        let list_index = self.items.len();
        let ghost before = *self;
        fw::variable_item_list_add(&mut self.inner, label.as_slice(), number_of_options, Some(()));
        let ghost added = self.inner;
        let context = self.new_value_context_at(list_index, number_of_options, callbacks);
        self.items.push(VariableItemType::WithValues(context));
        self.strings.push(label);
        proof {
            assert(self.strings@.map_values(|label: Vec<u8>| label@) =~= before.strings@.map_values(
                |label: Vec<u8>| label@,
            ).push(label@));
            assert(self.inner.items().drop_last() =~= added.items().drop_last());
            assert(self.items@.drop_last() =~= before.items@);
            self.lemma_callbacks_kept(before);
        }
        list_index
    }

    /// Handles an input event of the list's view: Up and Down move the
    /// selection, Left and Right change the selected item's value (calling
    /// its change callbacks), a short Ok calls the on-click callback of the
    /// selected item, if it has one, handing it the item; any other Ok is
    /// taken and does nothing. Answers whether the event was consumed.
    pub fn process_input(&mut self, event: sys::InputEvent) -> (consumed: bool)
        requires
            old(self).wf_unique(),
            accepts_input(old(self).firmware(), event),
        ensures
            final(self).wf_unique(),
            final(self).callback_ids() == old(self).callback_ids(),
            consumed == consumes_key(event.key),
            input_handled(*old(self), *final(self), event),
            is_click(event) ==> only_selected_clicked(*old(self), *final(self)),
            is_click(event) && !old(self).callback_ids().contains(
                old(self).firmware().selected() as usize,
            ) ==> final(self).items() == old(self).items() && final(self).firmware().items() == old(
                self,
            ).firmware().items(),
            is_click(event) && old(self).callback_ids().contains(old(self).firmware().selected() as usize) ==> exists|k: int, guard: MutexGuardedVariableItemType<'a, 'a>|
                #![trigger clicked(&*old(self).on_click_entries()[k].1, guard)]
                {
                    &&& tagged::is_first_tagged(old(self).callback_ids(), old(self).firmware().selected() as usize, k)
                    &&& clicked(&*old(self).on_click_entries()[k].1, guard)
                    &&& *guard.item == old(self).items()[old(self).firmware().selected() as int]
                    &&& *final(guard.item) == final(self).items()[old(self).firmware().selected() as int]
                    &&& *guard.raw == old(self).firmware().items()[old(self).firmware().selected() as int]
                    &&& *final(guard.raw) == final(self).firmware().items()[old(self).firmware().selected() as int]
                    &&& *guard.view == old(self).firmware().view()
                    &&& *final(guard.view) == final(self).firmware().view()
                },
    {
        let outcome = self.inner.handle_input(event);
        let ghost mid = *self;
        proof {
            assert(self.callback_ids() == old(self).callback_ids());
            assert(self.wf());
        }
        let consumed = match outcome {
            fw::VariableItemListInput::NotConsumed => {
                proof {
                    assert(!consumes_key(event.key));
                    assert(self.items() == old(self).items());
                    assert(self.firmware().items() == old(self).firmware().items());
                    assert(input_handled(*old(self), *self, event));
                }
                false
            },
            fw::VariableItemListInput::Moved => {
                assert(input_handled(*old(self), *self, event));
                true
            },
            fw::VariableItemListInput::NoValues | fw::VariableItemListInput::Ignored => {
                assert(input_handled(*old(self), *self, event));
                true
            },
            fw::VariableItemListInput::Entered { index } => {
                assert(self.on_click_entries() == old(self).on_click_entries());
                assert(self.items() == old(self).items());
                assert(self.firmware().items() == old(self).firmware().items());
                assert(self.firmware().view() == old(self).firmware().view());
                self.dispatch_click(index);
                assert(input_handled(*old(self), *self, event));
                true
            },
            fw::VariableItemListInput::ValueChanged { position } => {
                assert(event.key.0 == sys::InputKeyLeft || event.key.0 == sys::InputKeyRight);
                assert(position == old(self).firmware().selected());
                self.dispatch_value_changed(position);
                proof {
                    let before = *old(self);
                    let after = *self;
                    let p = position as int;
                    assert(value_change(
                        event.key,
                        before.firmware().items()[p],
                        after.firmware().items()[p],
                        after.items()[p],
                    ));
                    assert(tagged::same_except(before.items(), after.items(), p));
                    assert(tagged::same_except(before.firmware().items(), after.firmware().items(), p));
                    assert(input_handled(before, after, event));
                }
                true
            },
        };
        proof {
            assert(input_handled(*old(self), *self, event));
        }
        consumed
    }

    /// Calls the first on-click callback of the item at `index`, if it has
    /// one.
    fn dispatch_click(&mut self, index: u32)
        requires
            old(self).wf_unique(),
        ensures
            final(self).wf_unique(),
            final(self).callback_ids() == old(self).callback_ids(),
            final(self).labels() == old(self).labels(),
            final(self).items().len() == old(self).items().len(),
            final(self).firmware().selected() == old(self).firmware().selected(),
            final(self).firmware().enter_callback() == old(self).firmware().enter_callback(),
            final(self).firmware().items().len() == old(self).firmware().items().len(),
            tagged::same_except(old(self).items(), final(self).items(), index as int) && tagged::same_except(
                old(self).firmware().items(),
                final(self).firmware().items(),
                index as int,
                ),
            !old(self).callback_ids().contains(index as usize) ==> *final(self) == *old(self),
            old(self).callback_ids().contains(index as usize) ==> exists|k: int, guard: MutexGuardedVariableItemType<'a, 'a>|
                #![trigger clicked(&*old(self).on_click_entries()[k].1, guard)]
                {
                    &&& tagged::is_first_tagged(old(self).callback_ids(), index as usize, k)
                    &&& clicked(&*old(self).on_click_entries()[k].1, guard)
                    &&& *guard.item == old(self).items()[index as int]
                    &&& *final(guard.item) == final(self).items()[index as int]
                    &&& *guard.raw == old(self).firmware().items()[index as int]
                    &&& *final(guard.raw) == final(self).firmware().items()[index as int]
                    &&& *guard.view == old(self).firmware().view()
                    &&& *final(guard.view) == final(self).firmware().view()
                },
    {
        match tagged::find_tagged(&self.callback.0, index as usize) {
            None => {},
            Some(k) => {
                proof {
                    assert(self.callback_ids()[k as int] == index as usize);
                }
                let callback = tagged::tagged_value(&self.callback.0, k);
                assert(self.on_click_entries() == self.callback.0@);
                let item = &mut self.items[index as usize];
                let (raw, view) = fw::variable_item_list_get_item_and_view(&mut self.inner, index as usize);
                let handler = &**callback;
                click(handler, MutexGuardedVariableItemType { item, raw, view });
                assert(handler == &*old(self).on_click_entries()[k as int].1);
                assert(self.callback_ids() == old(self).callback_ids());
                assert(self.inner.wf());
                assert(self.wf());
            },
        }
    }

    /// Clear the variable item list.
    ///
    /// All items are cleared, and all callbacks associated with those items
    /// will be dropped.
    pub fn clear(&mut self)
        requires
            old(self).wf_unique(),
        ensures
            final(self).wf_unique(),
            final(self).items().len() == 0,
            final(self).labels().len() == 0,
            final(self).callback_ids().len() == 0,
            final(self).firmware().items().len() == 0,
            final(self).firmware().selected() == 0,
    {
        self.items.clear();
        self.callback.0.clear();
        self.strings.clear();
        fw::variable_item_list_reset(&mut self.inner);
        proof {
            assert(self.callback_ids() =~= Seq::<usize>::empty());
            assert(self.labels() =~= Seq::<Seq<u8>>::empty());
        }
    }
}

impl VariableItemRef {
    /// The position of the item referred to.
    pub closed spec fn index(&self) -> usize {
        self.list_index
    }

    /// A mutable reference to the item's entry in `list`, together with the
    /// firmware's record of it.
    pub fn get_mut<'l, 'a, T>(&self, list: &'l mut VariableItemList<'a, T>) -> (guard:
        MutexGuardedVariableItemType<'l, 'a>)
        requires
            old(list).wf(),
            self.index() < old(list).items().len(),
        ensures
            *guard.item == old(list).items()[self.index() as int],
            *guard.raw == old(list).firmware().items()[self.index() as int],
            *guard.view == old(list).firmware().view(),
            final(list).firmware().view() == *final(guard.view),
            final(list).wf(),
            final(list).items() == old(list).items().update(self.index() as int, *final(guard.item)),
            final(list).firmware().items() == old(list).firmware().items().update(
                self.index() as int,
                *final(guard.raw),
            ),
            final(list).firmware().selected() == old(list).firmware().selected(),
            final(list).firmware().enter_callback() == old(list).firmware().enter_callback(),
            final(list).labels() == old(list).labels(),
            final(list).callbacks() == old(list).callbacks(),
    {
        let item = &mut list.items[self.list_index];
        let (raw, view) = fw::variable_item_list_get_item_and_view(&mut list.inner, self.list_index);
        MutexGuardedVariableItemType { item, raw, view }
    }

    /// A mutable reference to the item's label in `list`.
    pub fn get_label_mut<'l, 'a, T>(&self, list: &'l mut VariableItemList<'a, T>) -> (label: &'l mut Vec<u8>)
        requires
            old(list).wf(),
            self.index() < old(list).items().len(),
        ensures
            label@ == old(list).labels()[self.index() as int],
            final(list).wf(),
            final(list).labels() == old(list).labels().update(self.index() as int, final(label)@),
            final(list).items() == old(list).items(),
            final(list).firmware() == old(list).firmware(),
            final(list).callbacks() == old(list).callbacks(),
    {
        proof {
            assert(list.strings@.len() == list.items@.len());
        }
        proof {
            lemma_labels_update(list.strings@, self.list_index as int);
        }
        &mut list.strings[self.list_index]
    }
}

/// The views of labels.
pub open spec fn label_views(labels: Seq<Vec<u8>>) -> Seq<Seq<u8>> {
    labels.map_values(|label: Vec<u8>| label@)
}

/// Replacing one label replaces its view.
proof fn lemma_labels_update(labels: Seq<Vec<u8>>, i: int)
    requires
        0 <= i < labels.len(),
    ensures
        forall|label: Vec<u8>| #[trigger] label_views(labels.update(i, label)) == label_views(labels).update(i, label@),
{
    assert forall|label: Vec<u8>| #[trigger] label_views(labels.update(i, label)) == label_views(labels).update(i, label@) by {
        assert(labels.update(i, label).map_values(|label: Vec<u8>| label@) =~= labels.map_values(
            |label: Vec<u8>| label@,
        ).update(i, label@));
    }
}

/// The effect of an input event on the list, apart from what an on-click
/// callback does to the item it is handed: the selection moves as Up and
/// Down say; Left and Right change the selected item's value (see
/// [`value_change`]); nothing else changes.
pub open spec fn input_handled<'a, T>(
    before: VariableItemList<'a, T>,
    after: VariableItemList<'a, T>,
    event: sys::InputEvent,
) -> bool {
    let position = before.firmware().selected() as int;
    let changes_value = event.key.0 == sys::InputKeyLeft || event.key.0 == sys::InputKeyRight;
    &&& after.labels() == before.labels()
    &&& after.items().len() == before.items().len()
    &&& after.firmware().items().len() == before.firmware().items().len()
    &&& after.firmware().enter_callback() == before.firmware().enter_callback()
    &&& after.firmware().selected() == selected_after_key(
        event.key,
        before.firmware().selected(),
        before.firmware().items().len(),
    )
    &&& changes_value ==> value_change(
        event.key,
        before.firmware().items()[position],
        after.firmware().items()[position],
        after.items()[position],
    )
    &&& changes_value ==> tagged::same_except(before.items(), after.items(), position as int) && tagged::same_except(
        before.firmware().items(),
        after.firmware().items(),
        position as int,
        )
    &&& !changes_value && !is_click(event) ==> {
        &&& after.items() == before.items()
        &&& after.firmware().items() == before.firmware().items()
    }
}

/// Ok on the list hands at most the selected item to an on-click callback:
/// every other item stays as it was.
pub open spec fn only_selected_clicked<'a, T>(before: VariableItemList<'a, T>, after: VariableItemList<'a, T>) -> bool {
    tagged::same_except(before.items(), after.items(), before.firmware().selected() as int) && tagged::same_except(
        before.firmware().items(),
        after.firmware().items(),
        before.firmware().selected() as int,
        )
}

impl<'a, T> VariableItemList<'a, T> {
    /// Handles Left or Right, or a key the list does not act on, after the
    /// firmware took it: calls the change callback of a changed item.
    fn dispatch_value_changed(&mut self, position: u32)
        requires
            old(self).wf(),
            position < old(self).items().len(),
        ensures
            final(self).wf(),
            final(self).labels() == old(self).labels(),
            final(self).items().len() == old(self).items().len(),
            final(self).firmware().selected() == old(self).firmware().selected(),
            final(self).firmware().enter_callback() == old(self).firmware().enter_callback(),
            final(self).firmware().items().len() == old(self).firmware().items().len(),
            tagged::same_except(old(self).items(), final(self).items(), position as int) && tagged::same_except(
                old(self).firmware().items(),
                final(self).firmware().items(),
                position as int,
                ),
            final(self).callbacks() == old(self).callbacks(),
            ({
                let before = old(self).firmware().items()[position as int];
                let after = final(self).firmware().items()[position as int];
                let item = final(self).items()[position as int];
                &&& after.current_value_index() == before.current_value_index()
                &&& after.label() == before.label()
                &&& after.values_count() == before.values_count()
                &&& after.change_callback() == before.change_callback()
                &&& (before.change_callback() is Some && item is WithValues) ==> match item {
                    VariableItemType::WithValues(context) => {
                        &&& fw::shows_text(after.current_value_text(), context.value_label())
                        &&& context.answers(current_value_or_zero(before.current_value_index()), context.value_label())
                        &&& context.told()
                    },
                    VariableItemType::Plain(_) => true,
                }
                &&& !(before.change_callback() is Some && item is WithValues) ==> {
                    &&& after.current_value_text() == before.current_value_text()
                    &&& item == old(self).items()[position as int]
                }
                &&& (item is WithValues <==> old(self).items()[position as int] is WithValues)
            }),
    {
        let position = position as usize;
        let raw = fw::variable_item_list_get_item(&mut self.inner, position);
        if fw::variable_item_get_context(raw).is_some() {
            match &mut self.items[position] {
                VariableItemType::WithValues(context) => {
                    let value = fw::variable_item_get_current_value_index(raw);
                    let new_label = ask_new_label(&*context.callbacks, &context.item, value);
                    fw::variable_item_set_current_value_text(raw, new_label.as_slice());
                    context.value_label = new_label;
                    tell_of_change(&*context.callbacks);
                },
                VariableItemType::Plain(_) => {},
            }
        }
    }
}

impl<'a, C: Callback<'a> + 'a> VariableItemList<'a, C> {
    /// Creates a new variable item list with a single callback that is
    /// invoked whenever any item is clicked.
    pub fn new_with_callback(on_click_callback: C) -> (list: Self)
        ensures
            list.wf(),
            list.callbacks() == on_click_callback,
            list.items().len() == 0,
            list.labels().len() == 0,
            list.firmware().items().len() == 0,
            list.firmware().selected() == 0,
            list.firmware().enter_callback() is Some,
    {
        let mut inner = fw::variable_item_list_alloc();
        fw::variable_item_list_set_enter_callback(&mut inner, ());
        let list = VariableItemList { inner, callback: on_click_callback, strings: Vec::new(), items: Vec::new() };
        proof {
            assert(list.labels() =~= Seq::<Seq<u8>>::empty());
        }
        list
    }

    /// Clear the variable item list.
    ///
    /// Note that this does not have any effect on the callback, which is
    /// left unchanged.
    pub fn clear(&mut self)
        requires
            old(self).wf(),
        ensures
            final(self).wf(),
            final(self).callbacks() == old(self).callbacks(),
            final(self).items().len() == 0,
            final(self).labels().len() == 0,
            final(self).firmware().items().len() == 0,
            final(self).firmware().selected() == 0,
    {
        self.items.clear();
        self.strings.clear();
        fw::variable_item_list_reset(&mut self.inner);
        proof {
            assert(self.labels() =~= Seq::<Seq<u8>>::empty());
        }
    }

    /// Handles an input event of the list's view: Up and Down move the
    /// selection, Left and Right change the selected item's value (calling
    /// its change callbacks), a short Ok calls the callback with the selected
    /// item; any other Ok is taken and does nothing. Answers whether the
    /// event was consumed.
    pub fn process_input(&mut self, event: sys::InputEvent) -> (consumed: bool)
        requires
            old(self).wf(),
            accepts_input(old(self).firmware(), event),
            is_click(event) ==> old(self).items().len() > 0,
        ensures
            final(self).wf(),
            final(self).callbacks() == old(self).callbacks(),
            consumed == consumes_key(event.key),
            input_handled(*old(self), *final(self), event),
            is_click(event) ==> only_selected_clicked(*old(self), *final(self)),
            is_click(event) ==> exists|guard: MutexGuardedVariableItemType<'a, 'a>|
                #![trigger clicked(&old(self).callbacks(), guard)]
                {
                    &&& clicked(&old(self).callbacks(), guard)
                    &&& *guard.item == old(self).items()[old(self).firmware().selected() as int]
                    &&& *final(guard.item) == final(self).items()[old(self).firmware().selected() as int]
                    &&& *guard.raw == old(self).firmware().items()[old(self).firmware().selected() as int]
                    &&& *final(guard.raw) == final(self).firmware().items()[old(self).firmware().selected() as int]
                    &&& *guard.view == old(self).firmware().view()
                    &&& *final(guard.view) == final(self).firmware().view()
                },
    {
        let outcome = self.inner.handle_input(event);
        let ghost mid = *self;
        proof {
            assert(self.wf());
        }
        let consumed = match outcome {
            fw::VariableItemListInput::NotConsumed => {
                proof {
                    assert(!consumes_key(event.key));
                    assert(self.items() == old(self).items());
                    assert(self.firmware().items() == old(self).firmware().items());
                    assert(input_handled(*old(self), *self, event));
                }
                false
            },
            fw::VariableItemListInput::Moved => {
                assert(input_handled(*old(self), *self, event));
                true
            },
            fw::VariableItemListInput::NoValues | fw::VariableItemListInput::Ignored => {
                assert(input_handled(*old(self), *self, event));
                true
            },
            fw::VariableItemListInput::Entered { index } => {
                assert(index == old(self).firmware().selected());
                assert(self.items@.len() == self.inner.items().len());
                let item = &mut self.items[index as usize];
                let (raw, view) = fw::variable_item_list_get_item_and_view(&mut self.inner, index as usize);
                assert(self.callback == old(self).callbacks());
                click(&self.callback, MutexGuardedVariableItemType { item, raw, view });
                assert(exists|g: MutexGuardedVariableItemType<'a, 'a>| clicked(&old(self).callbacks(), g));
                true
            },
            fw::VariableItemListInput::ValueChanged { position } => {
                assert(event.key.0 == sys::InputKeyLeft || event.key.0 == sys::InputKeyRight);
                assert(position == old(self).firmware().selected());
                self.dispatch_value_changed(position);
                proof {
                    let before = *old(self);
                    let after = *self;
                    let p = position as int;
                    assert(value_change(
                        event.key,
                        before.firmware().items()[p],
                        after.firmware().items()[p],
                        after.items()[p],
                    ));
                    assert(tagged::same_except(before.items(), after.items(), p));
                    assert(tagged::same_except(before.firmware().items(), after.firmware().items(), p));
                    assert(input_handled(before, after, event));
                }
                true
            },
        };
        proof {
            assert(input_handled(*old(self), *self, event));
        }
        consumed
    }
}


impl<'a, T> VariableItemList<'a, T> {
    /// The list's view, which a view dispatcher draws and hands input to.
    pub fn view(&self) -> (view: &crate::firmware::view::ViewInstance)
        ensures
            *view == self.firmware().view(),
    {
        fw::variable_item_list_get_view(&self.inner)
    }

    /// Consumes the `VariableItemList`, adding its view to the view
    /// dispatcher under `id`, which must be free.
    ///
    /// The variable item list does not define a previous view, so any back
    /// events that occur while this view is current are not consumed, and
    /// hand control to the dispatcher's navigation callback.
    pub fn bind_to_view_dispatcher<C>(self, id: u32, view_dispatcher: &mut ViewDispatcherInner<C>) -> (bound:
        VariableItemListBoundToViewDispatcher<'a, T>)
        requires
            old(view_dispatcher).wf(),
            !is_bound(old(view_dispatcher).views(), id),
        ensures
            bound.list_spec() == self,
            bound.view_spec().id == id,
            final(view_dispatcher).wf(),
            final(view_dispatcher).views() == old(view_dispatcher).views().insert(id, true),
            final(view_dispatcher).firmware().views() == old(view_dispatcher).firmware().views().insert(id),
            final(view_dispatcher).current_view() == old(view_dispatcher).current_view(),
    {
        let view = view_dispatcher.add_view(id, ()).unwrap();
        VariableItemListBoundToViewDispatcher { inner: self, view }
    }
}

/// A variable item list bound to a view dispatcher under an id.
pub struct VariableItemListBoundToViewDispatcher<'a, T> {
    inner: VariableItemList<'a, T>,
    view: ViewDispatcherView<()>,
}

impl<'a, T> VariableItemListBoundToViewDispatcher<'a, T> {
    /// The list.
    pub closed spec fn list_spec(&self) -> VariableItemList<'a, T> {
        self.inner
    }

    /// The list's place in the dispatcher.
    pub closed spec fn view_spec(&self) -> ViewDispatcherView<()> {
        self.view
    }

    /// The list's place in the dispatcher.
    pub fn as_ref(&self) -> (view: &ViewDispatcherView<()>)
        ensures
            *view == self.view_spec(),
    {
        &self.view
    }

    /// Makes the list the dispatcher's current view.
    pub fn switch_to_view<C>(&self, dispatcher: &mut ViewDispatcherInner<C>)
        requires
            old(dispatcher).wf(),
            is_bound(old(dispatcher).views(), self.view_spec().id),
        ensures
            final(dispatcher).wf(),
            final(dispatcher).current_view() == self.view_spec().id,
            final(dispatcher).firmware().current_view() == Some(self.view_spec().id),
            final(dispatcher).views() == old(dispatcher).views(),
    {
        self.view.switch_to_view(dispatcher);
    }

    /// The list.
    pub fn list(&self) -> (list: &VariableItemList<'a, T>)
        ensures
            *list == self.list_spec(),
    {
        &self.inner
    }

    /// The list, to push items or handle input.
    pub fn list_mut(&mut self) -> (list: &mut VariableItemList<'a, T>)
        ensures
            *list == old(self).list_spec(),
            final(self).list_spec() == *final(list),
            final(self).view_spec() == old(self).view_spec(),
    {
        &mut self.inner
    }
}

} // verus!
