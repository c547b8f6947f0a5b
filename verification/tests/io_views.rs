use flipperzero::io::{error_from_io_error_kind, io_error_source, read_to_string_step, Error, IoErrorSource};
use flipperzero::sys;
use flipperzero::view::{View, ViewCallbacks};
use flipperzero::view_dispatcher::{navigation_continues, StopDispatcher, Switchable, ViewDispatcherInner};
use flipperzero::view_dispatcher_type::ViewDispatcherType;
use std::io::ErrorKind;

#[test]
fn reading_appends_bytes_as_characters() {
    let mut string = vec!['a'];
    assert_eq!(read_to_string_step(&mut string, 1, b"bc"), Some(3));
    assert_eq!(string, vec!['a', 'b', 'c']);
    assert_eq!(read_to_string_step(&mut string, 3, &[0xE9]), Some(4));
    assert_eq!(string, vec!['a', 'b', 'c', 'é']);
    assert_eq!(read_to_string_step(&mut string, 4, b""), None);
    assert_eq!(string.len(), 4);
}

#[test]
fn std_io_errors_for_errors() {
    assert_eq!(io_error_source(Error::NotReady), IoErrorSource::Kind(ErrorKind::ResourceBusy));
    assert_eq!(io_error_source(Error::InvalidName), IoErrorSource::Kind(ErrorKind::InvalidFilename));
    assert_eq!(io_error_source(Error::Internal), IoErrorSource::Other("Internal"));
    assert_eq!(io_error_source(Error::AlreadyOpen), IoErrorSource::Other("Already Open"));
    assert_eq!(io_error_source(Error::WriteZero), IoErrorSource::Kind(ErrorKind::WriteZero));
    let uncategorized = Error::from_sys(sys::FS_Error(77)).unwrap();
    assert_eq!(io_error_source(uncategorized), IoErrorSource::Other("Unknown error"));
}

#[test]
fn errors_for_std_io_error_kinds() {
    assert_eq!(error_from_io_error_kind(ErrorKind::NotFound), Error::NotExists);
    assert_eq!(error_from_io_error_kind(ErrorKind::PermissionDenied), Error::Denied);
    assert_eq!(error_from_io_error_kind(ErrorKind::Unsupported), Error::NotImplemented);
    let other = error_from_io_error_kind(ErrorKind::TimedOut);
    assert_eq!(other.to_sys(), Some(sys::FS_Error(u8::MAX)));
}

#[test]
fn error_kinds_round_trip() {
    for error in [Error::NotReady, Error::Exists, Error::NotExists, Error::InvalidParameter, Error::Denied] {
        match io_error_source(error) {
            IoErrorSource::Kind(kind) => assert_eq!(error_from_io_error_kind(kind), error),
            IoErrorSource::Other(_) => panic!("these errors have kinds"),
        }
    }
}

#[test]
fn navigation_goes_on_unless_told_to_stop() {
    assert!(navigation_continues(StopDispatcher::No));
    assert!(!navigation_continues(StopDispatcher::Yes));
}

#[test]
fn switchable_handles() {
    let mut dispatcher = ViewDispatcherInner::new((), ViewDispatcherType::Desktop);
    let one = dispatcher.add_view(1, ()).ok().unwrap();
    let two = dispatcher.add_view(2, ()).ok().unwrap();
    let handle = one.clone_switchable();
    assert_eq!(handle.id, 1);
    Switchable::switch_to_view(&two, &mut dispatcher);
    assert_eq!(dispatcher.get_current_view(), Some(2));
    handle.switch_to_view(&mut dispatcher);
    assert_eq!(dispatcher.get_current_view(), Some(1));
}

struct Counter {
    draws: u32,
}

impl ViewCallbacks for Counter {
    fn on_draw(&mut self, _canvas: &mut sys::Canvas) {
        self.draws += 1;
    }
}

#[test]
fn views_keep_their_callbacks() {
    let mut view = View::new(Counter { draws: 0 });
    let mut canvas = sys::Canvas {};
    view.callbacks_mut().on_draw(&mut canvas);
    assert_eq!(view.callbacks_mut().draws, 1);
    let _raw = view.as_raw();
    let plain = View::new_from_raw(flipperzero::firmware::view::view_alloc());
    let _ = plain.as_raw();
}

#[test]
fn dispatching_to_the_callbacks() {
    let dispatcher = ViewDispatcherInner::new((), ViewDispatcherType::Desktop);
    assert!(!dispatcher.dispatch_custom(5));
    assert!(dispatcher.dispatch_navigation());
    dispatcher.dispatch_tick();
}
