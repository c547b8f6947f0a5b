//! View port orientation.
use crate::sys;
use crate::text::{invalid_id_message, invalid_id_text, meta_value_message, meta_value_text};
use vstd::prelude::*;

verus! {

/// Orientation of a view port.
///
/// Corresponds to raw [`sys::ViewPortOrientation`].
#[derive(Copy, Clone, Debug, Eq, PartialEq, Hash, Ord, PartialOrd, Structural)]
pub enum ViewPortOrientation {
    /// Horizontal orientation.
    Horizontal,
    /// Flipped horizontal orientation.
    HorizontalFlip,
    /// Vertical orientation.
    Vertical,
    /// Flipped vertical orientation.
    VerticalFlip,
}

impl ViewPortOrientation {
    /// The raw code of this orientation.
    pub open spec fn code(self) -> u8 {
        match self {
            ViewPortOrientation::Horizontal => sys::ViewPortOrientationHorizontal,
            ViewPortOrientation::HorizontalFlip => sys::ViewPortOrientationHorizontalFlip,
            ViewPortOrientation::Vertical => sys::ViewPortOrientationVertical,
            ViewPortOrientation::VerticalFlip => sys::ViewPortOrientationVerticalFlip,
        }
    }

    /// Checks that this orientation is horizontal.
    pub fn is_horizontal(self) -> (horizontal: bool)
        ensures
            horizontal == (self is Horizontal || self is HorizontalFlip),
    {
        matches!(self, Self::Horizontal | Self::HorizontalFlip)
    }

    /// Checks that this orientation is vertical.
    pub fn is_vertical(self) -> (vertical: bool)
        ensures
            vertical == (self is Vertical || self is VerticalFlip),
    {
        matches!(self, Self::Vertical | Self::VerticalFlip)
    }

    /// Checks that this orientation is flipped.
    pub fn is_flipped(self) -> (flipped: bool)
        ensures
            flipped == (self is HorizontalFlip || self is VerticalFlip),
    {
        matches!(self, Self::HorizontalFlip | Self::VerticalFlip)
    }
}

/// An error which may occur while trying to convert raw
/// [`sys::ViewPortOrientation`] to [`ViewPortOrientation`].
#[derive(Copy, Clone, Debug, Eq, PartialEq, Hash, Structural)]
pub enum FromSysViewPortOrientationError {
    /// The raw value is [`MAX`][sys::ViewPortOrientationMAX], a meta-value
    /// used to track enum size.
    Max,
    /// The raw value is an invalid value other than
    /// [`MAX`][sys::ViewPortOrientationMAX].
    Invalid(sys::ViewPortOrientation),
}

/// The result of converting a raw orientation.
pub open spec fn view_port_orientation_from_sys(value: sys::ViewPortOrientation) -> Result<
    ViewPortOrientation,
    FromSysViewPortOrientationError,
> {
    if value.0 == sys::ViewPortOrientationHorizontal {
        Ok(ViewPortOrientation::Horizontal)
    } else if value.0 == sys::ViewPortOrientationHorizontalFlip {
        Ok(ViewPortOrientation::HorizontalFlip)
    } else if value.0 == sys::ViewPortOrientationVertical {
        Ok(ViewPortOrientation::Vertical)
    } else if value.0 == sys::ViewPortOrientationVerticalFlip {
        Ok(ViewPortOrientation::VerticalFlip)
    } else if value.0 == sys::ViewPortOrientationMAX {
        Err(FromSysViewPortOrientationError::Max)
    } else {
        Err(FromSysViewPortOrientationError::Invalid(value))
    }
}

impl TryFrom<sys::ViewPortOrientation> for ViewPortOrientation {
    type Error = FromSysViewPortOrientationError;

    fn try_from(value: sys::ViewPortOrientation) -> (result: Result<Self, Self::Error>)
        ensures
            result == view_port_orientation_from_sys(value),
    {
        if value.0 == sys::ViewPortOrientationHorizontal {
            Ok(Self::Horizontal)
        } else if value.0 == sys::ViewPortOrientationHorizontalFlip {
            Ok(Self::HorizontalFlip)
        } else if value.0 == sys::ViewPortOrientationVertical {
            Ok(Self::Vertical)
        } else if value.0 == sys::ViewPortOrientationVerticalFlip {
            Ok(Self::VerticalFlip)
        } else if value.0 == sys::ViewPortOrientationMAX {
            Err(FromSysViewPortOrientationError::Max)
        } else {
            Err(FromSysViewPortOrientationError::Invalid(value))
        }
    }
}

impl vstd::std_specs::convert::TryFromSpecImpl<sys::ViewPortOrientation> for ViewPortOrientation {
    open spec fn obeys_try_from_spec() -> bool {
        true
    }

    open spec fn try_from_spec(value: sys::ViewPortOrientation) -> Result<Self, Self::Error> {
        view_port_orientation_from_sys(value)
    }
}

impl From<ViewPortOrientation> for sys::ViewPortOrientation {
    fn from(value: ViewPortOrientation) -> (raw: Self)
        ensures
            raw.0 == value.code(),
    {
        match value {
            ViewPortOrientation::Horizontal => sys::ViewPortOrientation(
                sys::ViewPortOrientationHorizontal,
            ),
            ViewPortOrientation::HorizontalFlip => sys::ViewPortOrientation(
                sys::ViewPortOrientationHorizontalFlip,
            ),
            ViewPortOrientation::Vertical => sys::ViewPortOrientation(
                sys::ViewPortOrientationVertical,
            ),
            ViewPortOrientation::VerticalFlip => sys::ViewPortOrientation(
                sys::ViewPortOrientationVerticalFlip,
            ),
        }
    }
}

impl vstd::std_specs::convert::FromSpecImpl<ViewPortOrientation> for sys::ViewPortOrientation {
    open spec fn obeys_from_spec() -> bool {
        true
    }

    open spec fn from_spec(value: ViewPortOrientation) -> Self {
        sys::ViewPortOrientation(value.code())
    }
}

/// Every orientation is either horizontal or vertical, never both.
pub proof fn law_orientation_axis(o: ViewPortOrientation)
    ensures
        (o is Horizontal || o is HorizontalFlip) != (o is Vertical || o is VerticalFlip),
{
}

/// Converting an orientation to its raw value and back gives the orientation.
pub proof fn law_orientation_roundtrip(o: ViewPortOrientation)
    ensures
        view_port_orientation_from_sys(sys::ViewPortOrientation(o.code())) == Ok::<
            ViewPortOrientation,
            FromSysViewPortOrientationError,
        >(o),
{
}

/// A raw value that converts converts back to itself.
pub proof fn law_orientation_raw_roundtrip(value: sys::ViewPortOrientation)
    ensures
        view_port_orientation_from_sys(value) matches Ok(o) ==> o.code() == value.0,
        view_port_orientation_from_sys(value) is Ok <==> value.0 < sys::ViewPortOrientationMAX,
{
}

impl FromSysViewPortOrientationError {
    /// The error's description: "view port orientation ID <id> (MAX) is a meta-value"
    /// or "view port orientation ID <id> is invalid".
    pub fn to_string(&self) -> (text: String)
        ensures
            text@ == match self {
                FromSysViewPortOrientationError::Max => meta_value_text("view port orientation"@, sys::ViewPortOrientationMAX as nat, "MAX"@),
                FromSysViewPortOrientationError::Invalid(id) => invalid_id_text("view port orientation"@, id.0 as nat),
            },
    {
        match self {
            FromSysViewPortOrientationError::Max => meta_value_message("view port orientation", sys::ViewPortOrientationMAX, "MAX"),
            FromSysViewPortOrientationError::Invalid(id) => invalid_id_message("view port orientation", id.0),
        }
    }
}

/// Each orientation stands for the firmware constant of its own name: its code
/// is that constant and no other orientation's, and a raw value converts to it
/// exactly when the raw value is that constant.
pub proof fn law_orientation_codes(value: ViewPortOrientation, raw: sys::ViewPortOrientation)
    ensures
        value.code() == sys::ViewPortOrientationHorizontal <==> value == ViewPortOrientation::Horizontal,
        value.code() == sys::ViewPortOrientationHorizontalFlip <==> value == ViewPortOrientation::HorizontalFlip,
        value.code() == sys::ViewPortOrientationVertical <==> value == ViewPortOrientation::Vertical,
        value.code() == sys::ViewPortOrientationVerticalFlip <==> value == ViewPortOrientation::VerticalFlip,
        view_port_orientation_from_sys(raw) == Ok::<ViewPortOrientation, FromSysViewPortOrientationError>(ViewPortOrientation::Horizontal) <==> raw.0 == sys::ViewPortOrientationHorizontal,
        view_port_orientation_from_sys(raw) == Ok::<ViewPortOrientation, FromSysViewPortOrientationError>(ViewPortOrientation::HorizontalFlip) <==> raw.0 == sys::ViewPortOrientationHorizontalFlip,
        view_port_orientation_from_sys(raw) == Ok::<ViewPortOrientation, FromSysViewPortOrientationError>(ViewPortOrientation::Vertical) <==> raw.0 == sys::ViewPortOrientationVertical,
        view_port_orientation_from_sys(raw) == Ok::<ViewPortOrientation, FromSysViewPortOrientationError>(ViewPortOrientation::VerticalFlip) <==> raw.0 == sys::ViewPortOrientationVerticalFlip,
{
}

} // verus!
