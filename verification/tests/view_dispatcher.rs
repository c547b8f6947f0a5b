use flipperzero::firmware::view_dispatcher::{self as fw, IGNORE};
use flipperzero::input::{InputEvent, InputKey, InputType};
use flipperzero::sys;
use flipperzero::view::dispatch_draw;
use flipperzero::view::{dispatch_input, dispatch_previous, input_handled, previous_view_id, EventBubbling, ViewCallbacks};
use flipperzero::view_dispatcher::ViewDispatcherCallbacks;
use flipperzero::view_dispatcher::{view_id, ViewDispatcherInner};
use flipperzero::view_dispatcher_type::ViewDispatcherType;

fn event(key: u8, kind: u8) -> sys::InputEvent {
    sys::InputEvent {
        __bindgen_anon_1: sys::InputEvent__bindgen_ty_1__bindgen_ty_1 {
            _bitfield_align_1: [],
            _bitfield_1: sys::InputEvent__bindgen_ty_1__bindgen_ty_1::new_bitfield_1(0, 0),
        },
        key: sys::InputKey(key),
        type_: sys::InputType(kind),
    }
}

#[test]
fn new_dispatcher_has_no_current_view() {
    let dispatcher = ViewDispatcherInner::new((), ViewDispatcherType::Fullscreen);
    assert_eq!(dispatcher.get_current_view(), None);
}

#[test]
fn adding_under_a_bound_id_is_refused() {
    let mut dispatcher = ViewDispatcherInner::new((), ViewDispatcherType::Window);
    let first = dispatcher.add_view(1, "first").ok().unwrap();
    assert_eq!(first.id, 1);
    assert_eq!(first.view, "first");
    match dispatcher.add_view(1, "second") {
        Ok(_) => panic!("the id is taken"),
        Err(view) => assert_eq!(view, "second"),
    }
}

#[test]
fn switching_makes_a_view_current() {
    let mut dispatcher = ViewDispatcherInner::new((), ViewDispatcherType::Desktop);
    let one = dispatcher.add_view(1, ()).ok().unwrap();
    let two = dispatcher.add_view(2, ()).ok().unwrap();
    one.switch_to_view(&mut dispatcher);
    assert_eq!(dispatcher.get_current_view(), Some(1));
    two.switch_to_view(&mut dispatcher);
    assert_eq!(dispatcher.get_current_view(), Some(2));
    dispatcher.switch_to_view(1);
    assert_eq!(dispatcher.get_current_view(), Some(1));
}

#[test]
fn switching_to_an_unused_id_does_nothing() {
    let mut dispatcher = ViewDispatcherInner::new((), ViewDispatcherType::Desktop);
    dispatcher.switch_to_view(7);
    assert_eq!(dispatcher.get_current_view(), None);
    let view = dispatcher.add_view(3, ()).ok().unwrap();
    view.switch_to_view(&mut dispatcher);
    dispatcher.switch_to_view(8);
    assert_eq!(dispatcher.get_current_view(), Some(3));
}

#[test]
fn a_removed_id_can_be_used_again() {
    let mut dispatcher = ViewDispatcherInner::new((), ViewDispatcherType::Desktop);
    let view = dispatcher.add_view(5, 10u8).ok().unwrap();
    dispatcher.remove_view(view);
    let again = dispatcher.add_view(5, 20u8).ok().unwrap();
    assert_eq!(again.view, 20);
}

#[test]
fn context_is_reachable() {
    let mut dispatcher = ViewDispatcherInner::new((), ViewDispatcherType::Desktop);
    let context: &mut () = dispatcher.get_context_mut();
    assert_eq!(*context, ());
    dispatcher.stop();
}

#[test]
fn previous_view_ids() {
    assert_eq!(previous_view_id(Some(3)), 3);
    assert_eq!(previous_view_id(None), IGNORE);
    assert_eq!(IGNORE, view_id::IGNORE);
}

#[test]
fn input_handled_only_when_consumed() {
    assert!(input_handled(EventBubbling::Consumed));
    assert!(!input_handled(EventBubbling::ReturnForAdditionalProcessing));
}

#[test]
fn firmware_back_press_switches_to_the_previous_view() {
    let mut dispatcher = fw::view_dispatcher_alloc();
    fw::view_dispatcher_add_view(&mut dispatcher, 1);
    fw::view_dispatcher_add_view(&mut dispatcher, 2);
    fw::view_dispatcher_switch_to_view(&mut dispatcher, 2);
    let back = event(sys::InputKeyBack, sys::InputTypeShort);
    dispatcher.process_input(back, |_, _| false, |_| 1, || panic!("no navigation here"));
    let up = event(sys::InputKeyUp, sys::InputTypeShort);
    let seen = std::cell::Cell::new(None);
    dispatcher.process_input(up, |id, _| { seen.set(Some(id)); true }, |_| panic!(), || panic!());
    assert_eq!(seen.get(), Some(1));
}

#[test]
fn firmware_back_press_without_previous_view_asks_navigation() {
    let mut dispatcher = fw::view_dispatcher_alloc();
    fw::view_dispatcher_add_view(&mut dispatcher, 4);
    fw::view_dispatcher_switch_to_view(&mut dispatcher, 4);
    fw::view_dispatcher_set_navigation_event_callback(&mut dispatcher);
    let asked = std::cell::Cell::new(false);
    let back = event(sys::InputKeyBack, sys::InputTypeShort);
    dispatcher.process_input(back, |_, _| false, |_| IGNORE, || { asked.set(true); true });
    assert!(asked.get());
    assert!(!dispatcher.is_stopped());
    dispatcher.process_input(back, |_, _| false, |_| IGNORE, || false);
    assert!(dispatcher.is_stopped());
}

#[test]
fn firmware_long_back_press_is_not_navigation() {
    let mut dispatcher = fw::view_dispatcher_alloc();
    fw::view_dispatcher_add_view(&mut dispatcher, 4);
    fw::view_dispatcher_add_view(&mut dispatcher, 5);
    fw::view_dispatcher_switch_to_view(&mut dispatcher, 4);
    fw::view_dispatcher_set_navigation_event_callback(&mut dispatcher);
    let back = event(sys::InputKeyBack, sys::InputTypeLong);
    dispatcher.process_input(back, |_, _| false, |_| panic!("not navigation"), || panic!("not navigation"));
    assert!(!dispatcher.is_stopped());
}

#[test]
fn firmware_consumed_input_stays_with_the_view() {
    let mut dispatcher = fw::view_dispatcher_alloc();
    fw::view_dispatcher_add_view(&mut dispatcher, 4);
    fw::view_dispatcher_switch_to_view(&mut dispatcher, 4);
    let back = event(sys::InputKeyBack, sys::InputTypeShort);
    dispatcher.process_input(back, |_, _| true, |_| panic!("consumed"), || panic!("consumed"));
    let release = event(sys::InputKeyBack, sys::InputTypeRelease);
    dispatcher.process_input(release, |_, _| false, |_| panic!("not navigation"), || panic!("not navigation"));
}

struct BackToScene {
    asked: u32,
}

impl ViewCallbacks for BackToScene {
    fn on_draw(&mut self, _canvas: &mut sys::Canvas) {}

    fn on_input(&mut self, event: InputEvent) -> EventBubbling {
        self.asked += 1;
        if event.key == InputKey::OK && event.type_ == InputType::Short {
            EventBubbling::Consumed
        } else {
            EventBubbling::ReturnForAdditionalProcessing
        }
    }

    fn on_back_event(&mut self) -> Option<u32> {
        self.asked += 1;
        Some(3)
    }
}

#[test]
fn views_answer_back_and_input_through_their_callbacks() {
    let mut callbacks = BackToScene { asked: 0 };
    assert_eq!(dispatch_previous(&mut callbacks), 3);
    assert!(dispatch_input(&mut callbacks, event(sys::InputKeyOk, sys::InputTypeShort)));
    assert!(!dispatch_input(&mut callbacks, event(sys::InputKeyBack, sys::InputTypeShort)));
    assert_eq!(callbacks.asked, 3);
}

#[test]
fn default_view_callbacks_pass_everything_on() {
    let mut callbacks = ();
    assert_eq!(dispatch_previous(&mut callbacks), IGNORE);
    assert!(!dispatch_input(&mut callbacks, event(sys::InputKeyOk, sys::InputTypeShort)));
}

#[test]
fn default_dispatcher_callbacks() {
    let dispatcher = ViewDispatcherInner::new((), ViewDispatcherType::Desktop);
    assert_eq!(().tick_period(), 100);
    assert!(!().on_custom(&dispatcher, 1));
}

struct Drawn {
    draws: u32,
}

impl ViewCallbacks for Drawn {
    fn on_draw(&mut self, _canvas: &mut sys::Canvas) {
        self.draws += 1;
    }
}

#[test]
fn views_draw_through_their_callbacks() {
    let mut callbacks = Drawn { draws: 0 };
    let mut canvas = sys::Canvas {};
    dispatch_draw(&mut callbacks, &mut canvas);
    dispatch_draw(&mut callbacks, &mut canvas);
    assert_eq!(callbacks.draws, 2);
}

#[test]
fn raw_input_events_convert() {
    let converted = InputEvent::from_sys(event(sys::InputKeyOk, sys::InputTypeLong)).unwrap();
    assert_eq!(converted.key, InputKey::OK);
    assert_eq!(converted.type_, InputType::Long);
    assert_eq!((converted.sequence_source, converted.sequence_counter), (0, 0));
    assert!(InputEvent::from_sys(event(0x1f, sys::InputTypeShort)).is_err());
    assert!(InputEvent::from_sys(event(sys::InputKeyOk, 0x1f)).is_err());
}

#[test]
fn firmware_view_dispatcher_queues_input_and_draws_the_current_view() {
    let mut dispatcher = fw::view_dispatcher_alloc();
    let drawn = std::cell::Cell::new(None);
    assert_eq!(dispatcher.view_port_dispatch_draw(|id| drawn.set(Some(id))), None);
    fw::view_dispatcher_add_view(&mut dispatcher, 7);
    fw::view_dispatcher_switch_to_view(&mut dispatcher, 7);
    assert_eq!(dispatcher.view_port_dispatch_draw(|id| drawn.set(Some(id))), Some(7));
    assert_eq!(drawn.get(), Some(7));
    let back = event(sys::InputKeyBack, sys::InputTypeShort);
    dispatcher.queue_input_event(back);
    assert!(dispatcher.take_input_event().is_some());
    assert!(dispatcher.take_input_event().is_none());
}

#[test]
fn firmware_event_loop_round_empties_the_queue() {
    let mut dispatcher = fw::view_dispatcher_alloc();
    fw::view_dispatcher_add_view(&mut dispatcher, 4);
    fw::view_dispatcher_switch_to_view(&mut dispatcher, 4);
    assert!(dispatcher.process_queued_input(|_, _| panic!("nothing queued"), |_| IGNORE, || true).is_none());
    let up = event(sys::InputKeyUp, sys::InputTypeShort);
    dispatcher.queue_input_event(up);
    let seen = std::cell::Cell::new(None);
    let handled = dispatcher.process_queued_input(|id, _| { seen.set(Some(id)); true }, |_| IGNORE, || true);
    assert!(handled.is_some());
    assert_eq!(seen.get(), Some(4));
    assert!(dispatcher.take_input_event().is_none());
}
