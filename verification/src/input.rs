//! Input keys.
use crate::sys;
use crate::text::{invalid_id_message, invalid_id_text, meta_value_message, meta_value_text};
use vstd::prelude::*;

verus! {

/// Input key of a Flipper, i.e. its button.
///
/// Corresponds to raw [`sys::InputKey`].
#[derive(Copy, Clone, Debug, Eq, PartialEq, Hash, Ord, PartialOrd, Structural)]
pub enum InputKey {
    /// **Up** key (top triangle).
    Up,
    /// **Down** key (bottom triangle).
    Down,
    /// **Right** key (right triangle).
    Right,
    /// **Left** key (left triangle).
    Left,
    /// **Ok** key (central round).
    OK,
    /// **Back** key (right bottom backward arrow).
    Back,
}

impl InputKey {
    /// The raw code of this value.
    pub open spec fn code(self) -> u8 {
        match self {
            InputKey::Up => sys::InputKeyUp,
            InputKey::Down => sys::InputKeyDown,
            InputKey::Right => sys::InputKeyRight,
            InputKey::Left => sys::InputKeyLeft,
            InputKey::OK => sys::InputKeyOk,
            InputKey::Back => sys::InputKeyBack,
        }
    }
}

/// An error which may occur while trying to convert raw [`sys::InputKey`]
/// to [`InputKey`].
#[derive(Copy, Clone, Debug, Eq, PartialEq, Hash, Structural)]
pub enum FromSysInputKeyError {
    /// The raw value is [`Max`][sys::InputKeyMAX], a meta-value used to
    /// track enum size.
    Max,
    /// The raw value is an invalid value other than
    /// [`Max`][sys::InputKeyMAX].
    Invalid(sys::InputKey),
}

/// The result of converting a raw value to a [`InputKey`].
pub open spec fn input_key_from_sys(value: sys::InputKey) -> Result<InputKey, FromSysInputKeyError> {
    if value.0 == sys::InputKeyUp {
        Ok(InputKey::Up)
    } else if value.0 == sys::InputKeyDown {
        Ok(InputKey::Down)
    } else if value.0 == sys::InputKeyRight {
        Ok(InputKey::Right)
    } else if value.0 == sys::InputKeyLeft {
        Ok(InputKey::Left)
    } else if value.0 == sys::InputKeyOk {
        Ok(InputKey::OK)
    } else if value.0 == sys::InputKeyBack {
        Ok(InputKey::Back)
    } else if value.0 == sys::InputKeyMAX {
        Err(FromSysInputKeyError::Max)
    } else {
        Err(FromSysInputKeyError::Invalid(value))
    }
}

impl TryFrom<sys::InputKey> for InputKey {
    type Error = FromSysInputKeyError;

    fn try_from(value: sys::InputKey) -> (result: Result<Self, Self::Error>)
        ensures
            result == input_key_from_sys(value),
    {
        if value.0 == sys::InputKeyUp {
            Ok(Self::Up)
        } else if value.0 == sys::InputKeyDown {
            Ok(Self::Down)
        } else if value.0 == sys::InputKeyRight {
            Ok(Self::Right)
        } else if value.0 == sys::InputKeyLeft {
            Ok(Self::Left)
        } else if value.0 == sys::InputKeyOk {
            Ok(Self::OK)
        } else if value.0 == sys::InputKeyBack {
            Ok(Self::Back)
        } else if value.0 == sys::InputKeyMAX {
            Err(FromSysInputKeyError::Max)
        } else {
            Err(FromSysInputKeyError::Invalid(value))
        }
    }
}

impl vstd::std_specs::convert::TryFromSpecImpl<sys::InputKey> for InputKey {
    open spec fn obeys_try_from_spec() -> bool {
        true
    }

    open spec fn try_from_spec(value: sys::InputKey) -> Result<Self, Self::Error> {
        input_key_from_sys(value)
    }
}

impl From<InputKey> for sys::InputKey {
    fn from(value: InputKey) -> (raw: Self)
        ensures
            raw.0 == value.code(),
    {
        match value {
            InputKey::Up => sys::InputKey(sys::InputKeyUp),
            InputKey::Down => sys::InputKey(sys::InputKeyDown),
            InputKey::Right => sys::InputKey(sys::InputKeyRight),
            InputKey::Left => sys::InputKey(sys::InputKeyLeft),
            InputKey::OK => sys::InputKey(sys::InputKeyOk),
            InputKey::Back => sys::InputKey(sys::InputKeyBack),
        }
    }
}

impl vstd::std_specs::convert::FromSpecImpl<InputKey> for sys::InputKey {
    open spec fn obeys_from_spec() -> bool {
        true
    }

    open spec fn from_spec(value: InputKey) -> Self {
        sys::InputKey(value.code())
    }
}

/// Converting a value to its raw code and back gives the value.
pub proof fn law_input_key_roundtrip(value: InputKey)
    ensures
        input_key_from_sys(sys::InputKey(value.code())) == Ok::<InputKey, FromSysInputKeyError>(value),
{
}

/// A raw value converts exactly when it is the code of a value, and then it
/// converts to the value with that code.
pub proof fn law_input_key_raw_roundtrip(value: sys::InputKey)
    ensures
        input_key_from_sys(value) matches Ok(v) ==> v.code() == value.0,
        input_key_from_sys(value) is Ok <==> value.0 < 6,
        input_key_from_sys(value) == Err::<InputKey, FromSysInputKeyError>(FromSysInputKeyError::Max) <==> value.0 == sys::InputKeyMAX,
{
}

impl InputKey {
    /// Gets the name of this input key, as the firmware names it.
    pub fn name(self) -> (name: &'static str)
        ensures
            name@ == sys::input_key_name(self.code()),
    {
        let this = sys::InputKey::from(self);
        sys::input_get_key_name(this)
    }
}

/// Type of an input event of a Flipper.
///
/// Corresponds to raw [`sys::InputType`].
#[derive(Copy, Clone, Debug, Eq, PartialEq, Hash, Ord, PartialOrd, Structural)]
pub enum InputType {
    /// Press event, emitted after debounce.
    Press,
    /// Release event, emitted after debounce.
    Release,
    /// Short event, emitted after a release done within the long press interval.
    Short,
    /// Long event, emitted after the long press interval, asynchronous to the release.
    Long,
    /// Repeat event, emitted periodically after the long event.
    Repeat,
}

impl InputType {
    /// The raw code of this value.
    pub open spec fn code(self) -> u8 {
        match self {
            InputType::Press => sys::InputTypePress,
            InputType::Release => sys::InputTypeRelease,
            InputType::Short => sys::InputTypeShort,
            InputType::Long => sys::InputTypeLong,
            InputType::Repeat => sys::InputTypeRepeat,
        }
    }
}

/// An error which may occur while trying to convert raw [`sys::InputType`]
/// to [`InputType`].
#[derive(Copy, Clone, Debug, Eq, PartialEq, Hash, Structural)]
pub enum FromSysInputTypeError {
    /// The raw value is [`Max`][sys::InputTypeMAX], a meta-value used to
    /// track enum size.
    Max,
    /// The raw value is an invalid value other than
    /// [`Max`][sys::InputTypeMAX].
    Invalid(sys::InputType),
}

/// The result of converting a raw value to a [`InputType`].
pub open spec fn input_type_from_sys(value: sys::InputType) -> Result<InputType, FromSysInputTypeError> {
    if value.0 == sys::InputTypePress {
        Ok(InputType::Press)
    } else if value.0 == sys::InputTypeRelease {
        Ok(InputType::Release)
    } else if value.0 == sys::InputTypeShort {
        Ok(InputType::Short)
    } else if value.0 == sys::InputTypeLong {
        Ok(InputType::Long)
    } else if value.0 == sys::InputTypeRepeat {
        Ok(InputType::Repeat)
    } else if value.0 == sys::InputTypeMAX {
        Err(FromSysInputTypeError::Max)
    } else {
        Err(FromSysInputTypeError::Invalid(value))
    }
}

impl TryFrom<sys::InputType> for InputType {
    type Error = FromSysInputTypeError;

    fn try_from(value: sys::InputType) -> (result: Result<Self, Self::Error>)
        ensures
            result == input_type_from_sys(value),
    {
        if value.0 == sys::InputTypePress {
            Ok(Self::Press)
        } else if value.0 == sys::InputTypeRelease {
            Ok(Self::Release)
        } else if value.0 == sys::InputTypeShort {
            Ok(Self::Short)
        } else if value.0 == sys::InputTypeLong {
            Ok(Self::Long)
        } else if value.0 == sys::InputTypeRepeat {
            Ok(Self::Repeat)
        } else if value.0 == sys::InputTypeMAX {
            Err(FromSysInputTypeError::Max)
        } else {
            Err(FromSysInputTypeError::Invalid(value))
        }
    }
}

impl vstd::std_specs::convert::TryFromSpecImpl<sys::InputType> for InputType {
    open spec fn obeys_try_from_spec() -> bool {
        true
    }

    open spec fn try_from_spec(value: sys::InputType) -> Result<Self, Self::Error> {
        input_type_from_sys(value)
    }
}

impl From<InputType> for sys::InputType {
    fn from(value: InputType) -> (raw: Self)
        ensures
            raw.0 == value.code(),
    {
        match value {
            InputType::Press => sys::InputType(sys::InputTypePress),
            InputType::Release => sys::InputType(sys::InputTypeRelease),
            InputType::Short => sys::InputType(sys::InputTypeShort),
            InputType::Long => sys::InputType(sys::InputTypeLong),
            InputType::Repeat => sys::InputType(sys::InputTypeRepeat),
        }
    }
}

impl vstd::std_specs::convert::FromSpecImpl<InputType> for sys::InputType {
    open spec fn obeys_from_spec() -> bool {
        true
    }

    open spec fn from_spec(value: InputType) -> Self {
        sys::InputType(value.code())
    }
}

/// Converting a value to its raw code and back gives the value.
pub proof fn law_input_type_roundtrip(value: InputType)
    ensures
        input_type_from_sys(sys::InputType(value.code())) == Ok::<InputType, FromSysInputTypeError>(value),
{
}

/// A raw value converts exactly when it is the code of a value, and then it
/// converts to the value with that code.
pub proof fn law_input_type_raw_roundtrip(value: sys::InputType)
    ensures
        input_type_from_sys(value) matches Ok(v) ==> v.code() == value.0,
        input_type_from_sys(value) is Ok <==> value.0 < 5,
        input_type_from_sys(value) == Err::<InputType, FromSysInputTypeError>(FromSysInputTypeError::Max) <==> value.0 == sys::InputTypeMAX,
{
}

impl FromSysInputKeyError {
    /// The error's description: "input key ID <id> (MAX) is a meta-value"
    /// or "input key ID <id> is invalid".
    pub fn to_string(&self) -> (text: String)
        ensures
            text@ == match self {
                FromSysInputKeyError::Max => meta_value_text("input key"@, sys::InputKeyMAX as nat, "MAX"@),
                FromSysInputKeyError::Invalid(id) => invalid_id_text("input key"@, id.0 as nat),
            },
    {
        match self {
            FromSysInputKeyError::Max => meta_value_message("input key", sys::InputKeyMAX, "MAX"),
            FromSysInputKeyError::Invalid(id) => invalid_id_message("input key", id.0),
        }
    }
}

/// An input event: the key, what happened to it, and the sequence the event
/// belongs to (its source and its counter).
#[derive(Copy, Clone, Debug, Eq, PartialEq, Hash, Structural)]
pub struct InputEvent {
    pub sequence_source: u8,
    pub sequence_counter: u32,
    pub key: InputKey,
    pub type_: InputType,
}

/// An error which may occur while converting a raw [`sys::InputEvent`] to an
/// [`InputEvent`].
#[derive(Copy, Clone, Debug, Eq, PartialEq, Hash, Structural)]
pub enum FromSysInputEventError {
    /// The raw key names no key.
    Key(FromSysInputKeyError),
    /// The raw type names no type.
    Type(FromSysInputTypeError),
}

/// `event` is `raw` converted: its key and type name those of `raw`, and its
/// sequence source and counter are the fields of `raw`'s sequence.
pub open spec fn converts_input_event(raw: sys::InputEvent, event: InputEvent) -> bool {
    &&& input_key_from_sys(raw.key) == Ok::<InputKey, FromSysInputKeyError>(event.key)
    &&& input_type_from_sys(raw.type_) == Ok::<InputType, FromSysInputTypeError>(event.type_)
    &&& crate::bitfield::field_read(raw.__bindgen_anon_1._bitfield_1@, 0, 2, event.sequence_source as u64)
    &&& crate::bitfield::field_read(raw.__bindgen_anon_1._bitfield_1@, 2, 30, event.sequence_counter as u64)
}

/// Whether a raw event converts: its key and its type name a key and a type.
pub open spec fn input_event_converts(raw: sys::InputEvent) -> bool {
    input_key_from_sys(raw.key) is Ok && input_type_from_sys(raw.type_) is Ok
}

impl InputEvent {
    /// Converts a raw input event; a bad key is reported before a bad type.
    pub fn from_sys(raw: sys::InputEvent) -> (result: Result<InputEvent, FromSysInputEventError>)
        ensures
            match result {
                Ok(event) => input_event_converts(raw) && converts_input_event(raw, event),
                Err(FromSysInputEventError::Key(error)) => input_key_from_sys(raw.key) == Err::<InputKey, FromSysInputKeyError>(error),
                Err(FromSysInputEventError::Type(error)) => input_key_from_sys(raw.key) is Ok
                    && input_type_from_sys(raw.type_) == Err::<InputType, FromSysInputTypeError>(error),
            },
    {
        let key = match InputKey::try_from(raw.key) {
            Ok(key) => key,
            Err(error) => {
                return Err(FromSysInputEventError::Key(error));
            },
        };
        let type_ = match InputType::try_from(raw.type_) {
            Ok(type_) => type_,
            Err(error) => {
                return Err(FromSysInputEventError::Type(error));
            },
        };
        let sequence_source = raw.__bindgen_anon_1.sequence_source();
        let sequence_counter = raw.__bindgen_anon_1.sequence_counter();
        Ok(InputEvent { sequence_source, sequence_counter, key, type_ })
    }
}

/// Each key stands for the firmware constant of its own name: its code
/// is that constant and no other key's, and a raw value converts to it
/// exactly when the raw value is that constant.
pub proof fn law_input_key_codes(value: InputKey, raw: sys::InputKey)
    ensures
        value.code() == sys::InputKeyUp <==> value == InputKey::Up,
        value.code() == sys::InputKeyDown <==> value == InputKey::Down,
        value.code() == sys::InputKeyRight <==> value == InputKey::Right,
        value.code() == sys::InputKeyLeft <==> value == InputKey::Left,
        value.code() == sys::InputKeyOk <==> value == InputKey::OK,
        value.code() == sys::InputKeyBack <==> value == InputKey::Back,
        input_key_from_sys(raw) == Ok::<InputKey, FromSysInputKeyError>(InputKey::Up) <==> raw.0 == sys::InputKeyUp,
        input_key_from_sys(raw) == Ok::<InputKey, FromSysInputKeyError>(InputKey::Down) <==> raw.0 == sys::InputKeyDown,
        input_key_from_sys(raw) == Ok::<InputKey, FromSysInputKeyError>(InputKey::Right) <==> raw.0 == sys::InputKeyRight,
        input_key_from_sys(raw) == Ok::<InputKey, FromSysInputKeyError>(InputKey::Left) <==> raw.0 == sys::InputKeyLeft,
        input_key_from_sys(raw) == Ok::<InputKey, FromSysInputKeyError>(InputKey::OK) <==> raw.0 == sys::InputKeyOk,
        input_key_from_sys(raw) == Ok::<InputKey, FromSysInputKeyError>(InputKey::Back) <==> raw.0 == sys::InputKeyBack,
{
}

/// Each input type stands for the firmware constant of its own name: its code
/// is that constant and no other input type's, and a raw value converts to it
/// exactly when the raw value is that constant.
pub proof fn law_input_type_codes(value: InputType, raw: sys::InputType)
    ensures
        value.code() == sys::InputTypePress <==> value == InputType::Press,
        value.code() == sys::InputTypeRelease <==> value == InputType::Release,
        value.code() == sys::InputTypeShort <==> value == InputType::Short,
        value.code() == sys::InputTypeLong <==> value == InputType::Long,
        value.code() == sys::InputTypeRepeat <==> value == InputType::Repeat,
        input_type_from_sys(raw) == Ok::<InputType, FromSysInputTypeError>(InputType::Press) <==> raw.0 == sys::InputTypePress,
        input_type_from_sys(raw) == Ok::<InputType, FromSysInputTypeError>(InputType::Release) <==> raw.0 == sys::InputTypeRelease,
        input_type_from_sys(raw) == Ok::<InputType, FromSysInputTypeError>(InputType::Short) <==> raw.0 == sys::InputTypeShort,
        input_type_from_sys(raw) == Ok::<InputType, FromSysInputTypeError>(InputType::Long) <==> raw.0 == sys::InputTypeLong,
        input_type_from_sys(raw) == Ok::<InputType, FromSysInputTypeError>(InputType::Repeat) <==> raw.0 == sys::InputTypeRepeat,
{
}

} // verus!
