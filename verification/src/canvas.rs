//! Drawing parameters of the canvas: alignment and fonts.
use crate::sys;
use crate::text::{invalid_id_message, invalid_id_text, meta_value_message, meta_value_text};
use vstd::prelude::*;

verus! {

/// Alignment of an object on the canvas.
///
/// Corresponds to raw [`sys::Align`].
#[derive(Copy, Clone, Debug, Eq, PartialEq, Hash, Ord, PartialOrd, Structural)]
pub enum Align {
    /// The values are aligned relative to the right.
    Left,
    /// The values are aligned relative to the left.
    Right,
    /// The values are aligned relative to the top.
    Top,
    /// The values are aligned relative to the bottom.
    Bottom,
    /// The values are aligned relative to the center.
    Center,
}

impl Align {
    /// The raw code of this value.
    pub open spec fn code(self) -> u8 {
        match self {
            Align::Left => sys::AlignLeft,
            Align::Right => sys::AlignRight,
            Align::Top => sys::AlignTop,
            Align::Bottom => sys::AlignBottom,
            Align::Center => sys::AlignCenter,
        }
    }
}

/// An error which may occur while trying to convert raw [`sys::Align`]
/// to [`Align`].
#[derive(Copy, Clone, Debug, Eq, PartialEq, Hash, Structural)]
pub enum FromSysAlignError {
    /// The raw value is an invalid value.
    Invalid(sys::Align),
}

/// The result of converting a raw value to a [`Align`].
pub open spec fn align_from_sys(value: sys::Align) -> Result<Align, FromSysAlignError> {
    if value.0 == sys::AlignLeft {
        Ok(Align::Left)
    } else if value.0 == sys::AlignRight {
        Ok(Align::Right)
    } else if value.0 == sys::AlignTop {
        Ok(Align::Top)
    } else if value.0 == sys::AlignBottom {
        Ok(Align::Bottom)
    } else if value.0 == sys::AlignCenter {
        Ok(Align::Center)
    } else {
        Err(FromSysAlignError::Invalid(value))
    }
}

impl TryFrom<sys::Align> for Align {
    type Error = FromSysAlignError;

    fn try_from(value: sys::Align) -> (result: Result<Self, Self::Error>)
        ensures
            result == align_from_sys(value),
    {
        if value.0 == sys::AlignLeft {
            Ok(Self::Left)
        } else if value.0 == sys::AlignRight {
            Ok(Self::Right)
        } else if value.0 == sys::AlignTop {
            Ok(Self::Top)
        } else if value.0 == sys::AlignBottom {
            Ok(Self::Bottom)
        } else if value.0 == sys::AlignCenter {
            Ok(Self::Center)
        } else {
            Err(FromSysAlignError::Invalid(value))
        }
    }
}

impl vstd::std_specs::convert::TryFromSpecImpl<sys::Align> for Align {
    open spec fn obeys_try_from_spec() -> bool {
        true
    }

    open spec fn try_from_spec(value: sys::Align) -> Result<Self, Self::Error> {
        align_from_sys(value)
    }
}

impl From<Align> for sys::Align {
    fn from(value: Align) -> (raw: Self)
        ensures
            raw.0 == value.code(),
    {
        match value {
            Align::Left => sys::Align(sys::AlignLeft),
            Align::Right => sys::Align(sys::AlignRight),
            Align::Top => sys::Align(sys::AlignTop),
            Align::Bottom => sys::Align(sys::AlignBottom),
            Align::Center => sys::Align(sys::AlignCenter),
        }
    }
}

impl vstd::std_specs::convert::FromSpecImpl<Align> for sys::Align {
    open spec fn obeys_from_spec() -> bool {
        true
    }

    open spec fn from_spec(value: Align) -> Self {
        sys::Align(value.code())
    }
}

/// Converting a value to its raw code and back gives the value.
pub proof fn law_align_roundtrip(value: Align)
    ensures
        align_from_sys(sys::Align(value.code())) == Ok::<Align, FromSysAlignError>(value),
{
}

/// A raw value converts exactly when it is the code of a value, and then it
/// converts to the value with that code.
pub proof fn law_align_raw_roundtrip(value: sys::Align)
    ensures
        align_from_sys(value) matches Ok(v) ==> v.code() == value.0,
        align_from_sys(value) is Ok <==> value.0 < 5,
{
}

/// The font used to draw text.
///
/// Corresponds to raw [`sys::Font`].
#[derive(Copy, Clone, Debug, Eq, PartialEq, Hash, Ord, PartialOrd, Structural)]
pub enum Font {
    /// The primary font.
    Primary,
    /// The secondary font.
    Secondary,
    /// The keyboard font.
    Keyboard,
    /// The font with big numbers.
    BigNumbers,
}

impl Font {
    /// The raw code of this value.
    pub open spec fn code(self) -> u8 {
        match self {
            Font::Primary => sys::FontPrimary,
            Font::Secondary => sys::FontSecondary,
            Font::Keyboard => sys::FontKeyboard,
            Font::BigNumbers => sys::FontBigNumbers,
        }
    }
}

/// An error which may occur while trying to convert raw [`sys::Font`]
/// to [`Font`].
#[derive(Copy, Clone, Debug, Eq, PartialEq, Hash, Structural)]
pub enum FromSysFontError {
    /// The raw value is [`TotalNumber`][sys::FontTotalNumber], a meta-value used to
    /// track enum size.
    TotalNumber,
    /// The raw value is an invalid value other than
    /// [`TotalNumber`][sys::FontTotalNumber].
    Invalid(sys::Font),
}

/// The result of converting a raw value to a [`Font`].
pub open spec fn font_from_sys(value: sys::Font) -> Result<Font, FromSysFontError> {
    if value.0 == sys::FontPrimary {
        Ok(Font::Primary)
    } else if value.0 == sys::FontSecondary {
        Ok(Font::Secondary)
    } else if value.0 == sys::FontKeyboard {
        Ok(Font::Keyboard)
    } else if value.0 == sys::FontBigNumbers {
        Ok(Font::BigNumbers)
    } else if value.0 == sys::FontTotalNumber {
        Err(FromSysFontError::TotalNumber)
    } else {
        Err(FromSysFontError::Invalid(value))
    }
}

impl TryFrom<sys::Font> for Font {
    type Error = FromSysFontError;

    fn try_from(value: sys::Font) -> (result: Result<Self, Self::Error>)
        ensures
            result == font_from_sys(value),
    {
        if value.0 == sys::FontPrimary {
            Ok(Self::Primary)
        } else if value.0 == sys::FontSecondary {
            Ok(Self::Secondary)
        } else if value.0 == sys::FontKeyboard {
            Ok(Self::Keyboard)
        } else if value.0 == sys::FontBigNumbers {
            Ok(Self::BigNumbers)
        } else if value.0 == sys::FontTotalNumber {
            Err(FromSysFontError::TotalNumber)
        } else {
            Err(FromSysFontError::Invalid(value))
        }
    }
}

impl vstd::std_specs::convert::TryFromSpecImpl<sys::Font> for Font {
    open spec fn obeys_try_from_spec() -> bool {
        true
    }

    open spec fn try_from_spec(value: sys::Font) -> Result<Self, Self::Error> {
        font_from_sys(value)
    }
}

impl From<Font> for sys::Font {
    fn from(value: Font) -> (raw: Self)
        ensures
            raw.0 == value.code(),
    {
        match value {
            Font::Primary => sys::Font(sys::FontPrimary),
            Font::Secondary => sys::Font(sys::FontSecondary),
            Font::Keyboard => sys::Font(sys::FontKeyboard),
            Font::BigNumbers => sys::Font(sys::FontBigNumbers),
        }
    }
}

impl vstd::std_specs::convert::FromSpecImpl<Font> for sys::Font {
    open spec fn obeys_from_spec() -> bool {
        true
    }

    open spec fn from_spec(value: Font) -> Self {
        sys::Font(value.code())
    }
}

/// Converting a value to its raw code and back gives the value.
pub proof fn law_font_roundtrip(value: Font)
    ensures
        font_from_sys(sys::Font(value.code())) == Ok::<Font, FromSysFontError>(value),
{
}

/// A raw value converts exactly when it is the code of a value, and then it
/// converts to the value with that code.
pub proof fn law_font_raw_roundtrip(value: sys::Font)
    ensures
        font_from_sys(value) matches Ok(v) ==> v.code() == value.0,
        font_from_sys(value) is Ok <==> value.0 < 4,
        font_from_sys(value) == Err::<Font, FromSysFontError>(FromSysFontError::TotalNumber) <==> value.0 == sys::FontTotalNumber,
{
}

impl Font {
    /// Gets the total number of available fonts.
    pub fn total_number() -> (total: usize)
        ensures
            total == sys::FontTotalNumber,
    {
        sys::FontTotalNumber as usize
    }
}

impl FromSysAlignError {
    /// The error's description: "align ID <id> is invalid".
    pub fn to_string(&self) -> (text: String)
        ensures
            text@ == match self {
                FromSysAlignError::Invalid(id) => invalid_id_text("align"@, id.0 as nat),
            },
    {
        match self {
            FromSysAlignError::Invalid(id) => invalid_id_message("align", id.0),
        }
    }
}

impl FromSysFontError {
    /// The error's description: "font ID <id> (TotalNumber) is a meta-value"
    /// or "font ID <id> is invalid".
    pub fn to_string(&self) -> (text: String)
        ensures
            text@ == match self {
                FromSysFontError::TotalNumber => meta_value_text("font"@, sys::FontTotalNumber as nat, "TotalNumber"@),
                FromSysFontError::Invalid(id) => invalid_id_text("font"@, id.0 as nat),
            },
    {
        match self {
            FromSysFontError::TotalNumber => meta_value_message("font", sys::FontTotalNumber, "TotalNumber"),
            FromSysFontError::Invalid(id) => invalid_id_message("font", id.0),
        }
    }
}

/// Each alignment stands for the firmware constant of its own name: its code
/// is that constant and no other alignment's, and a raw value converts to it
/// exactly when the raw value is that constant.
pub proof fn law_align_codes(value: Align, raw: sys::Align)
    ensures
        value.code() == sys::AlignLeft <==> value == Align::Left,
        value.code() == sys::AlignRight <==> value == Align::Right,
        value.code() == sys::AlignTop <==> value == Align::Top,
        value.code() == sys::AlignBottom <==> value == Align::Bottom,
        value.code() == sys::AlignCenter <==> value == Align::Center,
        align_from_sys(raw) == Ok::<Align, FromSysAlignError>(Align::Left) <==> raw.0 == sys::AlignLeft,
        align_from_sys(raw) == Ok::<Align, FromSysAlignError>(Align::Right) <==> raw.0 == sys::AlignRight,
        align_from_sys(raw) == Ok::<Align, FromSysAlignError>(Align::Top) <==> raw.0 == sys::AlignTop,
        align_from_sys(raw) == Ok::<Align, FromSysAlignError>(Align::Bottom) <==> raw.0 == sys::AlignBottom,
        align_from_sys(raw) == Ok::<Align, FromSysAlignError>(Align::Center) <==> raw.0 == sys::AlignCenter,
{
}

/// Each font stands for the firmware constant of its own name: its code
/// is that constant and no other font's, and a raw value converts to it
/// exactly when the raw value is that constant.
pub proof fn law_font_codes(value: Font, raw: sys::Font)
    ensures
        value.code() == sys::FontPrimary <==> value == Font::Primary,
        value.code() == sys::FontSecondary <==> value == Font::Secondary,
        value.code() == sys::FontKeyboard <==> value == Font::Keyboard,
        value.code() == sys::FontBigNumbers <==> value == Font::BigNumbers,
        font_from_sys(raw) == Ok::<Font, FromSysFontError>(Font::Primary) <==> raw.0 == sys::FontPrimary,
        font_from_sys(raw) == Ok::<Font, FromSysFontError>(Font::Secondary) <==> raw.0 == sys::FontSecondary,
        font_from_sys(raw) == Ok::<Font, FromSysFontError>(Font::Keyboard) <==> raw.0 == sys::FontKeyboard,
        font_from_sys(raw) == Ok::<Font, FromSysFontError>(Font::BigNumbers) <==> raw.0 == sys::FontBigNumbers,
{
}

} // verus!
