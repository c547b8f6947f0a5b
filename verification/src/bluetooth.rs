//! Bluetooth APIs for the Flipper Zero: which radio stack the coprocessor
//! runs, HCI commands and events, and BLE profiles.
use crate::sys;
use vstd::prelude::*;

pub mod handler;
pub mod hci;
pub mod profile;

verus! {

/// The type of the radio stack that has been flashed to the ARM-Cortex M0
/// coprocessor.
///
/// Corresponds to raw [`sys::FuriHalBtStack`].
#[derive(Copy, Clone, Debug, Eq, PartialEq, Hash, Ord, PartialOrd, Structural)]
pub enum SupportedRadioStack {
    /// Light firmware, which only has support for peripheral device
    /// connections.
    ///
    /// This is the default that the flipper is built with.
    Light,
    /// Full firmware, supporting connections in both peripheral and central
    /// role.
    Full,
}

/// A radio stack the coprocessor reports, by the stack type byte of its
/// version information.
#[derive(Copy, Clone, Debug, Eq, PartialEq, Hash, Ord, PartialOrd, Structural)]
pub enum RadioStack {
    Full,
    Hci,
    Light,
    Beacon,
    Basic,
    FullExtendedAdvanced,
    HciExtendedAdvanced,
    Unknown(u8),
}

/// The radio stack a stack type byte stands for.
pub open spec fn radio_stack_of(stack_type: u8) -> RadioStack {
    if stack_type == 0x01 || stack_type == 0x06 || stack_type == 0x07 {
        RadioStack::Full
    } else if stack_type == 0x02 {
        RadioStack::Hci
    } else if stack_type == 0x03 {
        RadioStack::Light
    } else if stack_type == 0x04 {
        RadioStack::Beacon
    } else if stack_type == 0x05 {
        RadioStack::Basic
    } else {
        RadioStack::Unknown(stack_type)
    }
}

/// The supported radio stack the firmware reports, if it reports one.
pub fn supported_radio_stack(stack: sys::FuriHalBtStack) -> (supported: Option<SupportedRadioStack>)
    ensures
        supported == if stack.0 == sys::FuriHalBtStackLight {
            Some(SupportedRadioStack::Light)
        } else if stack.0 == sys::FuriHalBtStackFull {
            Some(SupportedRadioStack::Full)
        } else {
            None
        },
{
    if stack.0 == sys::FuriHalBtStackLight {
        Some(SupportedRadioStack::Light)
    } else if stack.0 == sys::FuriHalBtStackFull {
        Some(SupportedRadioStack::Full)
    } else {
        None
    }
}

/// The radio stack the coprocessor's version information reports.
pub fn radio_stack_from_c2_info(info: &sys::BleGlueC2Info) -> (stack: RadioStack)
    ensures
        stack == radio_stack_of(info.StackType),
{
    match info.StackType {
        0x01 => RadioStack::Full,
        0x02 => RadioStack::Hci,
        0x03 => RadioStack::Light,
        0x04 => RadioStack::Beacon,
        0x05 => RadioStack::Basic,
        0x06 => RadioStack::Full,
        0x07 => RadioStack::Full,
        _ => RadioStack::Unknown(info.StackType),
    }
}

/// The radio stack: the supported one the firmware reports, or else the
/// one the coprocessor's version information reports, as the error.
pub fn get_radio_stack(stack: sys::FuriHalBtStack, info: &sys::BleGlueC2Info) -> (result: Result<
    SupportedRadioStack,
    RadioStack,
>)
    ensures
        match result {
            Ok(supported) => stack.0 == sys::FuriHalBtStackLight && supported == SupportedRadioStack::Light
                || stack.0 == sys::FuriHalBtStackFull && supported == SupportedRadioStack::Full,
            Err(other) => stack.0 != sys::FuriHalBtStackLight && stack.0 != sys::FuriHalBtStackFull && other
                == radio_stack_of(info.StackType),
        },
{
    match supported_radio_stack(stack) {
        Some(supported) => Ok(supported),
        None => Err(radio_stack_from_c2_info(info)),
    }
}

/// Each stack type byte the coprocessor reports stands for one radio stack:
/// the full stack (in its plain and extended-advertising builds), the HCI,
/// light, beacon and basic stacks; any other byte is reported as unknown.
pub proof fn law_radio_stack_types(stack_type: u8)
    ensures
        radio_stack_of(stack_type) == RadioStack::Full <==> (stack_type == 0x01 || stack_type == 0x06 || stack_type
            == 0x07),
        radio_stack_of(stack_type) == RadioStack::Hci <==> stack_type == 0x02,
        radio_stack_of(stack_type) == RadioStack::Light <==> stack_type == 0x03,
        radio_stack_of(stack_type) == RadioStack::Beacon <==> stack_type == 0x04,
        radio_stack_of(stack_type) == RadioStack::Basic <==> stack_type == 0x05,
        radio_stack_of(stack_type) is Unknown <==> !(1 <= stack_type <= 7),
        radio_stack_of(stack_type) matches RadioStack::Unknown(t) ==> t == stack_type,
{
}

} // verus!
