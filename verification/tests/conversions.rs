use flipperzero::canvas::{Align, Font, FromSysAlignError, FromSysFontError};
use flipperzero::gui_layer::{FromSysGuiLayerError, GuiLayer};
use flipperzero::input::{FromSysInputKeyError, FromSysInputTypeError, InputKey, InputType};
use flipperzero::sys;
use flipperzero::view_dispatcher_type::{FromSysViewDispatcherTypeError, ViewDispatcherType};
use flipperzero::view_port::{FromSysViewPortOrientationError, ViewPortOrientation};

#[test]
fn input_key_name_of_up() {
    assert_eq!(InputKey::Up.name(), "Up");
}

#[test]
fn input_key_names() {
    assert_eq!(InputKey::Down.name(), "Down");
    assert_eq!(InputKey::Right.name(), "Right");
    assert_eq!(InputKey::Left.name(), "Left");
    assert_eq!(InputKey::OK.name(), "Ok");
    assert_eq!(InputKey::Back.name(), "Back");
}

#[test]
fn input_key_roundtrip() {
    for key in [InputKey::Up, InputKey::Down, InputKey::Right, InputKey::Left, InputKey::OK, InputKey::Back] {
        let raw = sys::InputKey::from(key);
        assert_eq!(InputKey::try_from(raw), Ok(key));
    }
    assert_eq!(sys::InputKey::from(InputKey::OK).0, sys::InputKeyOk);
}

#[test]
fn input_key_errors() {
    assert_eq!(InputKey::try_from(sys::InputKey(sys::InputKeyMAX)), Err(FromSysInputKeyError::Max));
    assert_eq!(
        InputKey::try_from(sys::InputKey(200)),
        Err(FromSysInputKeyError::Invalid(sys::InputKey(200)))
    );
}

#[test]
fn input_type_roundtrip_and_errors() {
    for kind in [InputType::Press, InputType::Release, InputType::Short, InputType::Long, InputType::Repeat] {
        assert_eq!(InputType::try_from(sys::InputType::from(kind)), Ok(kind));
    }
    assert_eq!(InputType::try_from(sys::InputType(sys::InputTypeShort)), Ok(InputType::Short));
    assert_eq!(InputType::try_from(sys::InputType(5)), Err(FromSysInputTypeError::Max));
    assert_eq!(InputType::try_from(sys::InputType(9)), Err(FromSysInputTypeError::Invalid(sys::InputType(9))));
}

#[test]
fn font_total_number() {
    assert_eq!(Font::total_number(), 4);
}

#[test]
fn font_roundtrip_and_errors() {
    for font in [Font::Primary, Font::Secondary, Font::Keyboard, Font::BigNumbers] {
        assert_eq!(Font::try_from(sys::Font::from(font)), Ok(font));
    }
    assert_eq!(Font::try_from(sys::Font(4)), Err(FromSysFontError::TotalNumber));
    assert_eq!(Font::try_from(sys::Font(7)), Err(FromSysFontError::Invalid(sys::Font(7))));
}

#[test]
fn align_roundtrip_and_errors() {
    for align in [Align::Left, Align::Right, Align::Top, Align::Bottom, Align::Center] {
        assert_eq!(Align::try_from(sys::Align::from(align)), Ok(align));
    }
    assert_eq!(sys::Align::from(Align::Center).0, sys::AlignCenter);
    assert_eq!(Align::try_from(sys::Align(5)), Err(FromSysAlignError::Invalid(sys::Align(5))));
}

#[test]
fn gui_layer_roundtrip_and_errors() {
    for layer in [
        GuiLayer::Desktop,
        GuiLayer::Window,
        GuiLayer::StatusBarLeft,
        GuiLayer::StatusBarRight,
        GuiLayer::Fullscreen,
    ] {
        assert_eq!(GuiLayer::try_from(sys::GuiLayer::from(layer)), Ok(layer));
    }
    assert_eq!(GuiLayer::try_from(sys::GuiLayer(sys::GuiLayerMAX)), Err(FromSysGuiLayerError::Max));
    assert_eq!(
        GuiLayer::try_from(sys::GuiLayer(42)),
        Err(FromSysGuiLayerError::Invalid(sys::GuiLayer(42)))
    );
}

#[test]
fn view_dispatcher_type_roundtrip() {
    for kind in [ViewDispatcherType::Desktop, ViewDispatcherType::Window, ViewDispatcherType::Fullscreen] {
        assert_eq!(ViewDispatcherType::try_from(sys::ViewDispatcherType::from(kind)), Ok(kind));
    }
    assert!(ViewDispatcherType::try_from(sys::ViewDispatcherType(3)).is_err());
}

#[test]
fn view_port_orientation_axes() {
    assert!(ViewPortOrientation::Horizontal.is_horizontal());
    assert!(ViewPortOrientation::HorizontalFlip.is_horizontal());
    assert!(ViewPortOrientation::Vertical.is_vertical());
    assert!(ViewPortOrientation::VerticalFlip.is_vertical());
    assert!(!ViewPortOrientation::Horizontal.is_flipped());
    assert!(ViewPortOrientation::HorizontalFlip.is_flipped());
    assert!(!ViewPortOrientation::Vertical.is_flipped());
    assert!(ViewPortOrientation::VerticalFlip.is_flipped());
    for o in [
        ViewPortOrientation::Horizontal,
        ViewPortOrientation::HorizontalFlip,
        ViewPortOrientation::Vertical,
        ViewPortOrientation::VerticalFlip,
    ] {
        assert_ne!(o.is_horizontal(), o.is_vertical());
        assert_eq!(ViewPortOrientation::try_from(sys::ViewPortOrientation::from(o)), Ok(o));
    }
    assert_eq!(
        ViewPortOrientation::try_from(sys::ViewPortOrientation(4)),
        Err(FromSysViewPortOrientationError::Max)
    );
}

#[test]
fn error_messages_of_invalid_ids() {
    assert_eq!(FromSysAlignError::Invalid(sys::Align(7)).to_string(), "align ID 7 is invalid");
    assert_eq!(FromSysFontError::Invalid(sys::Font(42)).to_string(), "font ID 42 is invalid");
    assert_eq!(FromSysGuiLayerError::Invalid(sys::GuiLayer(255)).to_string(), "gui layer ID 255 is invalid");
    assert_eq!(
        FromSysViewDispatcherTypeError::Invalid(sys::ViewDispatcherType(100)).to_string(),
        "view dispatcher type ID 100 is invalid"
    );
    assert_eq!(
        FromSysViewPortOrientationError::Invalid(sys::ViewPortOrientation(10)).to_string(),
        "view port orientation ID 10 is invalid"
    );
    assert_eq!(FromSysInputKeyError::Invalid(sys::InputKey(0x1f)).to_string(), "input key ID 31 is invalid");
}

#[test]
fn error_messages_of_meta_values() {
    assert_eq!(FromSysFontError::TotalNumber.to_string(), "font ID 4 (TotalNumber) is a meta-value");
    assert_eq!(FromSysGuiLayerError::Max.to_string(), "gui layer ID 5 (MAX) is a meta-value");
    assert_eq!(
        FromSysViewPortOrientationError::Max.to_string(),
        "view port orientation ID 4 (MAX) is a meta-value"
    );
    assert_eq!(FromSysInputKeyError::Max.to_string(), "input key ID 6 (MAX) is a meta-value");
}

#[test]
fn conversion_errors_carry_their_message() {
    match Font::try_from(sys::Font(sys::FontTotalNumber)) {
        Err(error) => assert_eq!(error.to_string(), "font ID 4 (TotalNumber) is a meta-value"),
        Ok(_) => panic!("the meta-value names no font"),
    }
}
