//! Placement of a view dispatcher's view port.
use crate::sys;
use crate::text::{invalid_id_message, invalid_id_text};
use vstd::prelude::*;

verus! {

/// View dispatcher view port placement.
///
/// Corresponds to raw [`sys::ViewDispatcherType`].
#[derive(Copy, Clone, Debug, Eq, PartialEq, Hash, Ord, PartialOrd, Structural)]
pub enum ViewDispatcherType {
    /// Desktop layer: fullscreen with status bar on top of it. For internal usage.
    Desktop,
    /// Window layer: with status bar.
    Window,
    /// Fullscreen layer: without status bar.
    Fullscreen,
}

impl ViewDispatcherType {
    /// The raw code of this value.
    pub open spec fn code(self) -> u8 {
        match self {
            ViewDispatcherType::Desktop => sys::ViewDispatcherTypeDesktop,
            ViewDispatcherType::Window => sys::ViewDispatcherTypeWindow,
            ViewDispatcherType::Fullscreen => sys::ViewDispatcherTypeFullscreen,
        }
    }
}

/// An error which may occur while trying to convert raw [`sys::ViewDispatcherType`]
/// to [`ViewDispatcherType`].
#[derive(Copy, Clone, Debug, Eq, PartialEq, Hash, Structural)]
pub enum FromSysViewDispatcherTypeError {
    /// The raw value is an invalid value.
    Invalid(sys::ViewDispatcherType),
}

/// The result of converting a raw value to a [`ViewDispatcherType`].
pub open spec fn view_dispatcher_type_from_sys(value: sys::ViewDispatcherType) -> Result<ViewDispatcherType, FromSysViewDispatcherTypeError> {
    if value.0 == sys::ViewDispatcherTypeDesktop {
        Ok(ViewDispatcherType::Desktop)
    } else if value.0 == sys::ViewDispatcherTypeWindow {
        Ok(ViewDispatcherType::Window)
    } else if value.0 == sys::ViewDispatcherTypeFullscreen {
        Ok(ViewDispatcherType::Fullscreen)
    } else {
        Err(FromSysViewDispatcherTypeError::Invalid(value))
    }
}

impl TryFrom<sys::ViewDispatcherType> for ViewDispatcherType {
    type Error = FromSysViewDispatcherTypeError;

    fn try_from(value: sys::ViewDispatcherType) -> (result: Result<Self, Self::Error>)
        ensures
            result == view_dispatcher_type_from_sys(value),
    {
        if value.0 == sys::ViewDispatcherTypeDesktop {
            Ok(Self::Desktop)
        } else if value.0 == sys::ViewDispatcherTypeWindow {
            Ok(Self::Window)
        } else if value.0 == sys::ViewDispatcherTypeFullscreen {
            Ok(Self::Fullscreen)
        } else {
            Err(FromSysViewDispatcherTypeError::Invalid(value))
        }
    }
}

impl vstd::std_specs::convert::TryFromSpecImpl<sys::ViewDispatcherType> for ViewDispatcherType {
    open spec fn obeys_try_from_spec() -> bool {
        true
    }

    open spec fn try_from_spec(value: sys::ViewDispatcherType) -> Result<Self, Self::Error> {
        view_dispatcher_type_from_sys(value)
    }
}

impl From<ViewDispatcherType> for sys::ViewDispatcherType {
    fn from(value: ViewDispatcherType) -> (raw: Self)
        ensures
            raw.0 == value.code(),
    {
        match value {
            ViewDispatcherType::Desktop => sys::ViewDispatcherType(sys::ViewDispatcherTypeDesktop),
            ViewDispatcherType::Window => sys::ViewDispatcherType(sys::ViewDispatcherTypeWindow),
            ViewDispatcherType::Fullscreen => sys::ViewDispatcherType(sys::ViewDispatcherTypeFullscreen),
        }
    }
}

impl vstd::std_specs::convert::FromSpecImpl<ViewDispatcherType> for sys::ViewDispatcherType {
    open spec fn obeys_from_spec() -> bool {
        true
    }

    open spec fn from_spec(value: ViewDispatcherType) -> Self {
        sys::ViewDispatcherType(value.code())
    }
}

/// Converting a value to its raw code and back gives the value.
pub proof fn law_view_dispatcher_type_roundtrip(value: ViewDispatcherType)
    ensures
        view_dispatcher_type_from_sys(sys::ViewDispatcherType(value.code())) == Ok::<ViewDispatcherType, FromSysViewDispatcherTypeError>(value),
{
}

/// A raw value converts exactly when it is the code of a value, and then it
/// converts to the value with that code.
pub proof fn law_view_dispatcher_type_raw_roundtrip(value: sys::ViewDispatcherType)
    ensures
        view_dispatcher_type_from_sys(value) matches Ok(v) ==> v.code() == value.0,
        view_dispatcher_type_from_sys(value) is Ok <==> value.0 < 3,
{
}

impl FromSysViewDispatcherTypeError {
    /// The error's description: "view dispatcher type ID <id> is invalid".
    pub fn to_string(&self) -> (text: String)
        ensures
            text@ == match self {
                FromSysViewDispatcherTypeError::Invalid(id) => invalid_id_text("view dispatcher type"@, id.0 as nat),
            },
    {
        match self {
            FromSysViewDispatcherTypeError::Invalid(id) => invalid_id_message("view dispatcher type", id.0),
        }
    }
}

/// Each view dispatcher type stands for the firmware constant of its own name: its code
/// is that constant and no other view dispatcher type's, and a raw value converts to it
/// exactly when the raw value is that constant.
pub proof fn law_view_dispatcher_type_codes(value: ViewDispatcherType, raw: sys::ViewDispatcherType)
    ensures
        value.code() == sys::ViewDispatcherTypeDesktop <==> value == ViewDispatcherType::Desktop,
        value.code() == sys::ViewDispatcherTypeWindow <==> value == ViewDispatcherType::Window,
        value.code() == sys::ViewDispatcherTypeFullscreen <==> value == ViewDispatcherType::Fullscreen,
        view_dispatcher_type_from_sys(raw) == Ok::<ViewDispatcherType, FromSysViewDispatcherTypeError>(ViewDispatcherType::Desktop) <==> raw.0 == sys::ViewDispatcherTypeDesktop,
        view_dispatcher_type_from_sys(raw) == Ok::<ViewDispatcherType, FromSysViewDispatcherTypeError>(ViewDispatcherType::Window) <==> raw.0 == sys::ViewDispatcherTypeWindow,
        view_dispatcher_type_from_sys(raw) == Ok::<ViewDispatcherType, FromSysViewDispatcherTypeError>(ViewDispatcherType::Fullscreen) <==> raw.0 == sys::ViewDispatcherTypeFullscreen,
{
}

} // verus!
