//! Layers of the GUI.
use crate::sys;
use crate::text::{invalid_id_message, invalid_id_text, meta_value_message, meta_value_text};
use vstd::prelude::*;

verus! {

/// A layer of the GUI.
///
/// Corresponds to raw [`sys::GuiLayer`].
#[derive(Copy, Clone, Debug, Eq, PartialEq, Hash, Ord, PartialOrd, Structural)]
pub enum GuiLayer {
    /// Desktop layer for internal use. Like fullscreen but with status bar.
    Desktop,
    /// Window layer, status bar is shown.
    Window,
    /// Status bar left-side layer, auto-layout.
    StatusBarLeft,
    /// Status bar right-side layer, auto-layout
    StatusBarRight,
    /// Fullscreen layer, no status bar.
    Fullscreen,
}

impl GuiLayer {
    /// The raw code of this value.
    pub open spec fn code(self) -> u8 {
        match self {
            GuiLayer::Desktop => sys::GuiLayerDesktop,
            GuiLayer::Window => sys::GuiLayerWindow,
            GuiLayer::StatusBarLeft => sys::GuiLayerStatusBarLeft,
            GuiLayer::StatusBarRight => sys::GuiLayerStatusBarRight,
            GuiLayer::Fullscreen => sys::GuiLayerFullscreen,
        }
    }
}

/// An error which may occur while trying to convert raw [`sys::GuiLayer`]
/// to [`GuiLayer`].
#[derive(Copy, Clone, Debug, Eq, PartialEq, Hash, Structural)]
pub enum FromSysGuiLayerError {
    /// The raw value is [`Max`][sys::GuiLayerMAX], a meta-value used to
    /// track enum size.
    Max,
    /// The raw value is an invalid value other than
    /// [`Max`][sys::GuiLayerMAX].
    Invalid(sys::GuiLayer),
}

/// The result of converting a raw value to a [`GuiLayer`].
pub open spec fn gui_layer_from_sys(value: sys::GuiLayer) -> Result<GuiLayer, FromSysGuiLayerError> {
    if value.0 == sys::GuiLayerDesktop {
        Ok(GuiLayer::Desktop)
    } else if value.0 == sys::GuiLayerWindow {
        Ok(GuiLayer::Window)
    } else if value.0 == sys::GuiLayerStatusBarLeft {
        Ok(GuiLayer::StatusBarLeft)
    } else if value.0 == sys::GuiLayerStatusBarRight {
        Ok(GuiLayer::StatusBarRight)
    } else if value.0 == sys::GuiLayerFullscreen {
        Ok(GuiLayer::Fullscreen)
    } else if value.0 == sys::GuiLayerMAX {
        Err(FromSysGuiLayerError::Max)
    } else {
        Err(FromSysGuiLayerError::Invalid(value))
    }
}

impl TryFrom<sys::GuiLayer> for GuiLayer {
    type Error = FromSysGuiLayerError;

    fn try_from(value: sys::GuiLayer) -> (result: Result<Self, Self::Error>)
        ensures
            result == gui_layer_from_sys(value),
    {
        if value.0 == sys::GuiLayerDesktop {
            Ok(Self::Desktop)
        } else if value.0 == sys::GuiLayerWindow {
            Ok(Self::Window)
        } else if value.0 == sys::GuiLayerStatusBarLeft {
            Ok(Self::StatusBarLeft)
        } else if value.0 == sys::GuiLayerStatusBarRight {
            Ok(Self::StatusBarRight)
        } else if value.0 == sys::GuiLayerFullscreen {
            Ok(Self::Fullscreen)
        } else if value.0 == sys::GuiLayerMAX {
            Err(FromSysGuiLayerError::Max)
        } else {
            Err(FromSysGuiLayerError::Invalid(value))
        }
    }
}

impl vstd::std_specs::convert::TryFromSpecImpl<sys::GuiLayer> for GuiLayer {
    open spec fn obeys_try_from_spec() -> bool {
        true
    }

    open spec fn try_from_spec(value: sys::GuiLayer) -> Result<Self, Self::Error> {
        gui_layer_from_sys(value)
    }
}

impl From<GuiLayer> for sys::GuiLayer {
    fn from(value: GuiLayer) -> (raw: Self)
        ensures
            raw.0 == value.code(),
    {
        match value {
            GuiLayer::Desktop => sys::GuiLayer(sys::GuiLayerDesktop),
            GuiLayer::Window => sys::GuiLayer(sys::GuiLayerWindow),
            GuiLayer::StatusBarLeft => sys::GuiLayer(sys::GuiLayerStatusBarLeft),
            GuiLayer::StatusBarRight => sys::GuiLayer(sys::GuiLayerStatusBarRight),
            GuiLayer::Fullscreen => sys::GuiLayer(sys::GuiLayerFullscreen),
        }
    }
}

impl vstd::std_specs::convert::FromSpecImpl<GuiLayer> for sys::GuiLayer {
    open spec fn obeys_from_spec() -> bool {
        true
    }

    open spec fn from_spec(value: GuiLayer) -> Self {
        sys::GuiLayer(value.code())
    }
}

/// Converting a value to its raw code and back gives the value.
pub proof fn law_gui_layer_roundtrip(value: GuiLayer)
    ensures
        gui_layer_from_sys(sys::GuiLayer(value.code())) == Ok::<GuiLayer, FromSysGuiLayerError>(value),
{
}

/// A raw value converts exactly when it is the code of a value, and then it
/// converts to the value with that code.
pub proof fn law_gui_layer_raw_roundtrip(value: sys::GuiLayer)
    ensures
        gui_layer_from_sys(value) matches Ok(v) ==> v.code() == value.0,
        gui_layer_from_sys(value) is Ok <==> value.0 < 5,
        gui_layer_from_sys(value) == Err::<GuiLayer, FromSysGuiLayerError>(FromSysGuiLayerError::Max) <==> value.0 == sys::GuiLayerMAX,
{
}

impl FromSysGuiLayerError {
    /// The error's description: "gui layer ID <id> (MAX) is a meta-value"
    /// or "gui layer ID <id> is invalid".
    pub fn to_string(&self) -> (text: String)
        ensures
            text@ == match self {
                FromSysGuiLayerError::Max => meta_value_text("gui layer"@, sys::GuiLayerMAX as nat, "MAX"@),
                FromSysGuiLayerError::Invalid(id) => invalid_id_text("gui layer"@, id.0 as nat),
            },
    {
        match self {
            FromSysGuiLayerError::Max => meta_value_message("gui layer", sys::GuiLayerMAX, "MAX"),
            FromSysGuiLayerError::Invalid(id) => invalid_id_message("gui layer", id.0),
        }
    }
}

/// Each layer stands for the firmware constant of its own name: its code
/// is that constant and no other layer's, and a raw value converts to it
/// exactly when the raw value is that constant.
pub proof fn law_gui_layer_codes(value: GuiLayer, raw: sys::GuiLayer)
    ensures
        value.code() == sys::GuiLayerDesktop <==> value == GuiLayer::Desktop,
        value.code() == sys::GuiLayerWindow <==> value == GuiLayer::Window,
        value.code() == sys::GuiLayerStatusBarLeft <==> value == GuiLayer::StatusBarLeft,
        value.code() == sys::GuiLayerStatusBarRight <==> value == GuiLayer::StatusBarRight,
        value.code() == sys::GuiLayerFullscreen <==> value == GuiLayer::Fullscreen,
        gui_layer_from_sys(raw) == Ok::<GuiLayer, FromSysGuiLayerError>(GuiLayer::Desktop) <==> raw.0 == sys::GuiLayerDesktop,
        gui_layer_from_sys(raw) == Ok::<GuiLayer, FromSysGuiLayerError>(GuiLayer::Window) <==> raw.0 == sys::GuiLayerWindow,
        gui_layer_from_sys(raw) == Ok::<GuiLayer, FromSysGuiLayerError>(GuiLayer::StatusBarLeft) <==> raw.0 == sys::GuiLayerStatusBarLeft,
        gui_layer_from_sys(raw) == Ok::<GuiLayer, FromSysGuiLayerError>(GuiLayer::StatusBarRight) <==> raw.0 == sys::GuiLayerStatusBarRight,
        gui_layer_from_sys(raw) == Ok::<GuiLayer, FromSysGuiLayerError>(GuiLayer::Fullscreen) <==> raw.0 == sys::GuiLayerFullscreen,
{
}

} // verus!
