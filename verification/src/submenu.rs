//! APIs for the Submenu View.
//!
//! Items are numbered in the order they are added, from 0, and that number
//! is the index the firmware hands to the item's callback and searches for
//! when an item is selected.
use crate::firmware::submenu as fw;
use crate::firmware::view::ViewInstance;
use crate::input::{input_type_from_sys, InputType};
use crate::sys;
use crate::view_dispatcher::{is_bound, ViewDispatcherInner, ViewDispatcherView};
use vstd::prelude::*;

verus! {

/// A trait that allows for custom handling of
/// [`Ok`](crate::input::InputKey::OK) events.
pub trait SubmenuCustomItem {
    fn handle_input_event(&mut self, input_type: InputType) -> ();
}

/// The custom item `item` was handed an Ok event of type `input_type`.
pub open spec fn custom_item_handled<L: SubmenuCustomItem + ?Sized>(item: &mut L, input_type: InputType) -> bool {
    call_ensures(L::handle_input_event, (item, input_type), ())
}

/// A boxed custom item handles an event as the item in the box does.
impl<'a> SubmenuCustomItem for Box<dyn SubmenuCustomItem + 'a> {
    fn handle_input_event(&mut self, input_type: InputType) -> () {
        (**self).handle_input_event(input_type)
    }
}

/// Hands an Ok event of type `input_type` to a custom item.
fn hand_to_custom_item<L: SubmenuCustomItem>(item: &mut L, input_type: InputType)
    ensures
        exists|r: &mut L|
            #![trigger call_ensures(L::handle_input_event, (r, input_type), ())]
            custom_item_handled(r, input_type) && *r == *old(item) && *final(r) == *final(item),
{
    let handle_input_event = L::handle_input_event;
    handle_input_event(item, input_type);
    assert(exists|r: &mut L| call_ensures(L::handle_input_event, (r, input_type), ()) && *r == *old(item) && *final(r) == *item);
}

/// A custom item's callback, borrowed for as long as the submenu lives.
struct BorrowedCustomItem<'a, C> {
    callback: &'a mut C,
}

impl<'a, C> BorrowedCustomItem<'a, C> {
    /// The custom callback, as it is now.
    pub closed spec fn custom(&self) -> C {
        *self.callback
    }
}

impl<'a, C: SubmenuCustomItem> SubmenuCustomItem for BorrowedCustomItem<'a, C> {
    fn handle_input_event(&mut self, input_type: InputType) -> (done: ())
        ensures
            exists|r: &mut C|
                #![trigger call_ensures(C::handle_input_event, (r, input_type), ())]
                call_ensures(C::handle_input_event, (r, input_type), ()) && *r == old(self).custom() && *final(r)
                    == final(self).custom(),
    {
        let handle_input_event = C::handle_input_event;
        handle_input_event(self.callback, input_type);
        assert(exists|r: &mut C| call_ensures(C::handle_input_event, (r, input_type), ()) && *r == old(self).custom() && *final(r) == self.custom());
    }
}

/// What activating an item does, besides consuming the event.
pub enum SubmenuItemAction<'a> {
    /// Hand the type of the Ok event to a custom callback.
    Custom(Box<dyn SubmenuCustomItem + 'a>),
    /// Switch the view dispatcher to the view bound to this id.
    SwitchToView(u32),
}

/// The callback of an item that does nothing.
pub open spec fn is_plaintext<'a>(callback: fw::SubmenuCallbacks<SubmenuItemAction<'a>>) -> bool {
    callback matches fw::SubmenuCallbacks::Normal(None)
}

/// The callback of an item that hands Ok events to a custom callback.
pub open spec fn is_custom<'a>(callback: fw::SubmenuCallbacks<SubmenuItemAction<'a>>) -> bool {
    callback matches fw::SubmenuCallbacks::Extended(Some(SubmenuItemAction::Custom(_)))
}

/// The view an item switches to, if it is a navigation item.
pub open spec fn nav_target<'a>(callback: fw::SubmenuCallbacks<SubmenuItemAction<'a>>) -> Option<u32> {
    match callback {
        fw::SubmenuCallbacks::Normal(Some(SubmenuItemAction::SwitchToView(id))) => Some(id),
        _ => None,
    }
}

/// Submenu.
pub struct Submenu<'a> {
    inner: fw::Submenu<SubmenuItemAction<'a>>,
    count: u32,
}

impl<'a> Submenu<'a> {
    /// The firmware's submenu.
    pub closed spec fn firmware(&self) -> fw::Submenu<SubmenuItemAction<'a>> {
        self.inner
    }

    /// The number of items added.
    pub closed spec fn count(&self) -> u32 {
        self.count
    }

    /// Every item's index is its position.
    pub closed spec fn wf(&self) -> bool {
        &&& self.inner.wf()
        &&& self.count == self.inner.items().len()
        &&& forall|p: int| 0 <= p < self.count ==> #[trigger] self.inner.items()[p].index == p
    }

    /// The index of the selected item, as the firmware reports it.
    pub open spec fn selected_index(&self) -> u32 {
        let items = self.firmware().items();
        let position = self.firmware().selected();
        if position < items.len() {
            items[position as int].index
        } else {
            0
        }
    }

    /// Constructs a new submenu view.
    pub fn new() -> (submenu: Self)
        ensures
            submenu.wf(),
            submenu.count() == 0,
            submenu.firmware().items() == Seq::<fw::SubmenuItem<SubmenuItemAction<'a>>>::empty(),
            submenu.firmware().selected() == 0,
    {
        let inner = fw::submenu_alloc();
        Submenu { inner, count: 0 }
    }

    fn next_index(&mut self) -> (index: u32)
        requires
            old(self).wf(),
            old(self).count() < u32::MAX,
        ensures
            index == old(self).count(),
            final(self).count() == old(self).count() + 1,
            final(self).firmware() == old(self).firmware(),
    {
        let index = self.count;
        self.count = self.count + 1;
        index
    }

    /// Adds a new item to the submenu that, when interacted with, will do
    /// nothing.
    pub fn add_plaintext_item<'label>(&mut self, label: &'label [u8]) -> (item: SubmenuItemRef<'label>)
        requires
            old(self).wf(),
            old(self).count() < u32::MAX,
        ensures
            final(self).wf(),
            item.index == old(self).count(),
            item.label == label,
            final(self).count() == old(self).count() + 1,
            final(self).firmware().items().drop_last() == old(self).firmware().items(),
            final(self).firmware().items().last().label@ == label@,
            is_plaintext(final(self).firmware().items().last().callback),
            final(self).firmware().selected() == old(self).firmware().selected(),
    {
        let index = self.next_index();
        fw::submenu_add_item(&mut self.inner, label, index, None);
        proof {
            assert forall|p: int| 0 <= p < self.count implies #[trigger] self.inner.items()[p].index == p by {
                if p < index {
                    assert(self.inner.items()[p] == self.inner.items().drop_last()[p]);
                }
            }
        }
        SubmenuItemRef { label, index }
    }

    /// Adds a new item to the submenu that, when receiving an
    /// [`Ok`](crate::input::InputKey::OK) event, will invoke a custom
    /// callback for the input event.
    pub fn add_custom_item<'item, C: SubmenuCustomItem + 'a>(
        &mut self,
        label: &'item [u8],
        callback: &'a mut C,
    ) -> (item: SubmenuItemRef<'item>)
        requires
            old(self).wf(),
            old(self).count() < u32::MAX,
        ensures
            final(self).wf(),
            item.index == old(self).count(),
            item.label == label,
            final(self).count() == old(self).count() + 1,
            final(self).firmware().items().drop_last() == old(self).firmware().items(),
            final(self).firmware().items().last().label@ == label@,
            is_custom(final(self).firmware().items().last().callback),
            final(self).firmware().selected() == old(self).firmware().selected(),
    {
        let index = self.next_index();
        let custom: Box<dyn SubmenuCustomItem + 'a> = Box::new(BorrowedCustomItem { callback });
        fw::submenu_add_item_ex(&mut self.inner, label, index, Some(SubmenuItemAction::Custom(custom)));
        proof {
            assert forall|p: int| 0 <= p < self.count implies #[trigger] self.inner.items()[p].index == p by {
                if p < index {
                    assert(self.inner.items()[p] == self.inner.items().drop_last()[p]);
                }
            }
        }
        SubmenuItemRef { label, index }
    }

    fn add_nav_item_raw<'label>(&mut self, label: &'label [u8], id: u32) -> (item: SubmenuItemRef<'label>)
        requires
            old(self).wf(),
            old(self).count() < u32::MAX,
        ensures
            final(self).wf(),
            item.index == old(self).count(),
            item.label == label,
            final(self).count() == old(self).count() + 1,
            final(self).firmware().items().drop_last() == old(self).firmware().items(),
            final(self).firmware().items().last().label@ == label@,
            nav_target(final(self).firmware().items().last().callback) == Some(id),
            final(self).firmware().selected() == old(self).firmware().selected(),
    {
        let index = self.next_index();
        fw::submenu_add_item(&mut self.inner, label, index, Some(SubmenuItemAction::SwitchToView(id)));
        proof {
            assert forall|p: int| 0 <= p < self.count implies #[trigger] self.inner.items()[p].index == p by {
                if p < index {
                    assert(self.inner.items()[p] == self.inner.items().drop_last()[p]);
                }
            }
        }
        SubmenuItemRef { label, index }
    }

    /// The firmware's submenu owned by this `Submenu`.
    pub fn as_raw(&self) -> (raw: &fw::Submenu<SubmenuItemAction<'a>>)
        ensures
            *raw == self.firmware(),
    {
        &self.inner
    }

    /// The submenu's view, which a view dispatcher draws and hands input to.
    pub fn view(&self) -> (view: &ViewInstance)
        ensures
            *view == self.firmware().view(),
    {
        fw::submenu_get_view(&self.inner)
    }

    /// Consumes the `Submenu`, adding its view to the view dispatcher under
    /// `id`, which must be free.
    ///
    /// The submenu does not define a previous view, so any back events that
    /// occur while this view is current are not consumed, and hand control
    /// to the dispatcher's navigation callback.
    pub fn bind_to_view_dispatcher<C>(
        self,
        id: u32,
        view_dispatcher: &mut ViewDispatcherInner<C>,
    ) -> (bound: SubmenuBoundToViewDispatcher<'a>)
        requires
            self.wf(),
            old(view_dispatcher).wf(),
            !is_bound(old(view_dispatcher).views(), id),
        ensures
            bound.wf(),
            bound.submenu_spec() == self,
            bound.view_spec().id == id,
            final(view_dispatcher).wf(),
            final(view_dispatcher).views() == old(view_dispatcher).views().insert(id, true),
            final(view_dispatcher).firmware().views() == old(view_dispatcher).firmware().views().insert(id),
            final(view_dispatcher).current_view() == old(view_dispatcher).current_view(),
    {
        let view = view_dispatcher.add_view(id, ()).unwrap();
        SubmenuBoundToViewDispatcher { inner: self, view }
    }

    /// Handles an input event of the submenu's view: Up and Down move the
    /// selection, Ok activates the selected item (a navigation item switches
    /// the dispatcher's view, a custom item gets the event's type). Answers
    /// whether the event was consumed.
    pub fn process_input<C>(&mut self, event: sys::InputEvent, dispatcher: &mut ViewDispatcherInner<C>) -> (consumed: bool)
        requires
            old(self).wf(),
            old(dispatcher).wf(),
            event.key.0 == sys::InputKeyOk || event.key.0 == sys::InputKeyDown || event.key.0
                == sys::InputKeyUp ==> old(self).count() > 0,
            event.key.0 == sys::InputKeyOk && is_custom(
                old(self).firmware().items()[old(self).firmware().selected() as int].callback,
            ) ==> input_type_from_sys(event.type_) is Ok,
            event.key.0 == sys::InputKeyOk ==> match nav_target(
                old(self).firmware().items()[old(self).firmware().selected() as int].callback,
            ) {
                Some(id) => old(dispatcher).views().contains_key(id) ==> old(dispatcher).views()[id],
                None => true,
            },
        ensures
            final(self).wf(),
            final(self).count() == old(self).count(),
            consumed == (event.key.0 == sys::InputKeyOk || event.key.0 == sys::InputKeyDown || event.key.0
                == sys::InputKeyUp),
            event.key.0 == sys::InputKeyDown ==> final(self).firmware().selected() == fw::position_after_down(
                old(self).firmware().selected(),
                old(self).firmware().items().len(),
            ),
            event.key.0 == sys::InputKeyUp ==> final(self).firmware().selected() == fw::position_after_up(
                old(self).firmware().selected(),
                old(self).firmware().items().len(),
            ),
            event.key.0 != sys::InputKeyDown && event.key.0 != sys::InputKeyUp ==> final(self).firmware().selected()
                == old(self).firmware().selected(),
            final(dispatcher).wf(),
            final(dispatcher).views() == old(dispatcher).views(),
            final(dispatcher).current_view() == if event.key.0 == sys::InputKeyOk {
                match nav_target(old(self).firmware().items()[old(self).firmware().selected() as int].callback) {
                    Some(id) => if old(dispatcher).views().contains_key(id) {
                        id
                    } else {
                        old(dispatcher).current_view()
                    },
                    None => old(dispatcher).current_view(),
                }
            } else {
                old(dispatcher).current_view()
            },
            event.key.0 == sys::InputKeyOk ==> match old(self).firmware().items()[old(self).firmware().selected() as int].callback {
                fw::SubmenuCallbacks::Extended(Some(SubmenuItemAction::Custom(item_before))) => match (
                    input_type_from_sys(event.type_),
                    final(self).firmware().items()[old(self).firmware().selected() as int].callback,
                ) {
                    (Ok(input_type), fw::SubmenuCallbacks::Extended(Some(SubmenuItemAction::Custom(item_after)))) => exists|
                        r: &mut Box<dyn SubmenuCustomItem + 'a>,
                    |
                        #![trigger custom_item_handled(r, input_type)]
                        custom_item_handled(r, input_type) && *r == item_before && *final(r) == item_after,
                    _ => false,
                },
                _ => true,
            },
    {
        let ghost before = self.inner;
        let outcome = self.inner.handle_input(event);
        match outcome {
            fw::SubmenuInput::NotConsumed => false,
            fw::SubmenuInput::Moved => true,
            fw::SubmenuInput::Activated { position, input_type } => {
                let item = self.inner.item_mut(position);
                match &mut item.callback {
                    fw::SubmenuCallbacks::Normal(Some(SubmenuItemAction::SwitchToView(id))) => {
                        dispatcher.switch_to_view(*id);
                    },
                    fw::SubmenuCallbacks::Extended(Some(SubmenuItemAction::Custom(custom))) => {
                        let input_type = match InputType::try_from(input_type) {
                            Ok(input_type) => input_type,
                            Err(_) => {
                                proof {
                                    assert(false);
                                }
                                InputType::Press
                            },
                        };
                        hand_to_custom_item(custom, input_type);
                    },
                    _ => {},
                }
                proof {
                    assert forall|p: int| 0 <= p < self.count implies #[trigger] self.inner.items()[p].index
                        == p by {
                        if p != position {
                            assert(self.inner.items()[p] == before.items()[p]);
                        }
                    }
                }
                true
            },
        }
    }
}

/// A submenu bound to a view dispatcher under an id.
pub struct SubmenuBoundToViewDispatcher<'a> {
    inner: Submenu<'a>,
    view: ViewDispatcherView<()>,
}

impl<'a> SubmenuBoundToViewDispatcher<'a> {
    /// The submenu.
    pub closed spec fn submenu_spec(&self) -> Submenu<'a> {
        self.inner
    }

    /// The submenu's place in the dispatcher.
    pub closed spec fn view_spec(&self) -> ViewDispatcherView<()> {
        self.view
    }

    /// The submenu is well formed.
    pub open spec fn wf(&self) -> bool {
        self.submenu_spec().wf()
    }

    /// The submenu.
    pub fn submenu(&self) -> (submenu: &Submenu<'a>)
        ensures
            *submenu == self.submenu_spec(),
    {
        &self.inner
    }

    /// The submenu's place in the dispatcher.
    pub fn view(&self) -> (view: &ViewDispatcherView<()>)
        ensures
            *view == self.view_spec(),
    {
        &self.view
    }

    /// The submenu, to add items or select one.
    pub fn submenu_mut(&mut self) -> (submenu: &mut Submenu<'a>)
        ensures
            *submenu == old(self).submenu_spec(),
            final(self).submenu_spec() == *final(submenu),
            final(self).view_spec() == old(self).view_spec(),
    {
        &mut self.inner
    }

    /// Adds a new item to the submenu that, when interacted with, will switch
    /// the dispatcher's current view to `view`.
    pub fn add_nav_item<'label, VC>(&mut self, label: &'label [u8], view: &ViewDispatcherView<VC>) -> (item:
        SubmenuItemRef<'label>)
        requires
            old(self).wf(),
            old(self).submenu_spec().count() < u32::MAX,
        ensures
            final(self).wf(),
            item.index == old(self).submenu_spec().count(),
            item.label == label,
            final(self).submenu_spec().count() == old(self).submenu_spec().count() + 1,
            final(self).submenu_spec().firmware().items().drop_last() == old(self).submenu_spec().firmware().items(),
            final(self).submenu_spec().firmware().items().last().label@ == label@,
            nav_target(final(self).submenu_spec().firmware().items().last().callback) == Some(view.id),
            final(self).view_spec() == old(self).view_spec(),
    {
        self.inner.add_nav_item_raw(label, view.id)
    }
}

/// A reference to an item contained in the [`Submenu`].
#[must_use]
pub struct SubmenuItemRef<'a> {
    pub label: &'a [u8],
    pub index: u32,
}

impl<'a> SubmenuItemRef<'a> {
    /// Make this item the currently selected item in the [`Submenu`].
    pub fn select<'s>(&mut self, submenu: &mut Submenu<'s>)
        requires
            old(submenu).wf(),
            old(self).index < old(submenu).count(),
        ensures
            final(submenu).wf(),
            final(submenu).selected_index() == old(self).index,
            final(submenu).firmware().selected() == old(self).index,
            final(submenu).count() == old(submenu).count(),
            final(submenu).firmware().items() == old(submenu).firmware().items(),
            *final(self) == *old(self),
    {
        fw::submenu_set_selected_item(&mut submenu.inner, self.index);
        proof {
            let items = old(submenu).inner.items();
            let position = submenu.inner.selected() as int;
            assert(items[self.index as int].index == self.index);
            if position != self.index {
                if position < self.index {
                    assert(items[position].index == position);
                } else {
                    assert(items[self.index as int].index != self.index);
                }
            }
        }
    }

    /// Check if this item is currently selected.
    pub fn is_selected<'s>(&self, submenu: &Submenu<'s>) -> (selected: bool)
        requires
            submenu.wf(),
        ensures
            selected == (submenu.selected_index() == self.index),
    {
        let selected_item_index = fw::submenu_get_selected_item(&submenu.inner);
        self.index == selected_item_index
    }
}

} // verus!
