//! Raw values of the Flipper Zero firmware interface.
//!
//! Each raw enumeration is a transparent wrapper around its numeric code; the
//! constants next to it are the codes the firmware defines.
use crate::bitfield::{
    __BindgenBitfieldUnit, field_read, field_written, lemma_field_read_value, law_set_then_get,
    low_mask, storage_bit, word_bit,
};
use vstd::prelude::*;

verus! {

/// Version of the firmware API these values describe.
pub const API_VERSION: u32 = 5701633;

/// Flags for event-flag and thread-flag waits.
#[derive(Debug, Copy, Clone, Hash, PartialEq, Eq, Structural)]
pub struct FuriFlag(pub u32);
/// Wait for any flag (default).
pub const FuriFlagWaitAny: u32 = 0;
/// Wait for all flags.
pub const FuriFlagWaitAll: u32 = 1;
/// Do not clear flags which have been specified to wait for.
pub const FuriFlagNoClear: u32 = 2;
/// Error indicator.
pub const FuriFlagError: u32 = 2147483648;
/// FuriStatusError (-1).
pub const FuriFlagErrorUnknown: u32 = 4294967295;
/// FuriStatusErrorTimeout (-2).
pub const FuriFlagErrorTimeout: u32 = 4294967294;
/// FuriStatusErrorResource (-3).
pub const FuriFlagErrorResource: u32 = 4294967293;
/// FuriStatusErrorParameter (-4).
pub const FuriFlagErrorParameter: u32 = 4294967292;
/// FuriStatusErrorISR (-6).
pub const FuriFlagErrorISR: u32 = 4294967290;

/// Status of a Furi operation.
#[derive(Debug, Copy, Clone, Hash, PartialEq, Eq, Structural)]
pub struct FuriStatus(pub i32);
/// Operation completed successfully.
pub const FuriStatusOk: i32 = 0;
/// Unspecified error.
pub const FuriStatusError: i32 = -1;
/// Operation not completed within the timeout period.
pub const FuriStatusErrorTimeout: i32 = -2;
/// Resource not available.
pub const FuriStatusErrorResource: i32 = -3;
/// Parameter error.
pub const FuriStatusErrorParameter: i32 = -4;
/// Out of memory.
pub const FuriStatusErrorNoMemory: i32 = -5;
/// Not allowed in interrupt context.
pub const FuriStatusErrorISR: i32 = -6;
/// Prevents enum down-size compiler optimization.
pub const FuriStatusReserved: i32 = 2147483647;

/// Flags of a CLI command.
#[derive(Debug, Copy, Clone, Hash, PartialEq, Eq, Structural)]
pub struct CliCommandFlag(pub u8);

/// Access mode flags.
#[derive(Debug, Copy, Clone, Hash, PartialEq, Eq, Structural)]
pub struct FS_AccessMode(pub u8);
/// Read access
pub const FSAM_READ: u8 = 1;
/// Write access
pub const FSAM_WRITE: u8 = 2;
/// Read and write access
pub const FSAM_READ_WRITE: u8 = 3;

/// FileInfo flags.
#[derive(Debug, Copy, Clone, Hash, PartialEq, Eq, Structural)]
pub struct FS_Flags(pub u8);

/// Open mode flags.
#[derive(Debug, Copy, Clone, Hash, PartialEq, Eq, Structural)]
pub struct FS_OpenMode(pub u8);
/// Open file, fail if file doesn't exist
pub const FSOM_OPEN_EXISTING: u8 = 1;
/// Open file. Create new file if not exist
pub const FSOM_OPEN_ALWAYS: u8 = 2;
/// Open file. Create new file if not exist. Set R/W pointer to EOF
pub const FSOM_OPEN_APPEND: u8 = 4;
/// Creates a new file. Fails if the file is exist
pub const FSOM_CREATE_NEW: u8 = 8;
/// Creates a new file. If file exist, truncate to zero size
pub const FSOM_CREATE_ALWAYS: u8 = 16;

/// Storage operation error codes.
#[derive(Debug, Copy, Clone, Hash, PartialEq, Eq, Structural)]
pub struct FS_Error(pub u8);
/// No error
pub const FSE_OK: u8 = 0;
/// FS not ready
pub const FSE_NOT_READY: u8 = 1;
/// File or dir already exist
pub const FSE_EXIST: u8 = 2;
/// File or dir does not exist
pub const FSE_NOT_EXIST: u8 = 3;
/// Invalid API parameter
pub const FSE_INVALID_PARAMETER: u8 = 4;
/// Access denied
pub const FSE_DENIED: u8 = 5;
/// Invalid name or path
pub const FSE_INVALID_NAME: u8 = 6;
/// Internal error
pub const FSE_INTERNAL: u8 = 7;
/// Function not implemented
pub const FSE_NOT_IMPLEMENTED: u8 = 8;
/// File or dir already opened
pub const FSE_ALREADY_OPEN: u8 = 9;

/// Enumeration of possible NFC HAL events.
#[derive(Debug, Copy, Clone, Hash, PartialEq, Eq, Structural)]
pub struct FuriHalNfcEvent(pub u16);

/// Flags of the real time clock.
#[derive(Debug, Copy, Clone, Hash, PartialEq, Eq, Structural)]
pub struct FuriHalRtcFlag(pub u8);

/// Features of an iButton protocol.
#[derive(Debug, Copy, Clone, Hash, PartialEq, Eq, Structural)]
pub struct iButtonProtocolFeature(pub u8);

/// Lights of the device.
#[derive(Debug, Copy, Clone, Hash, PartialEq, Eq, Structural)]
pub struct Light(pub u8);

/// Features supported by a MIFARE Ultralight card.
#[derive(Debug, Copy, Clone, Hash, PartialEq, Eq, Structural)]
pub struct MfUltralightFeatureSupport(pub u16);

/// Flags of a Sub-GHz protocol.
#[derive(Debug, Copy, Clone, Hash, PartialEq, Eq, Structural)]
pub struct SubGhzProtocolFlag(pub u16);

/// Log levels.
#[derive(Debug, Copy, Clone, Hash, PartialEq, Eq, Structural)]
pub struct FuriLogLevel(pub u8);
pub const FuriLogLevelDefault: u8 = 0;
pub const FuriLogLevelNone: u8 = 1;
pub const FuriLogLevelError: u8 = 2;
pub const FuriLogLevelWarn: u8 = 3;
pub const FuriLogLevelInfo: u8 = 4;
pub const FuriLogLevelDebug: u8 = 5;
pub const FuriLogLevelTrace: u8 = 6;

/// Gui layers.
#[derive(Debug, Copy, Clone, Hash, PartialEq, Eq, Structural)]
pub struct GuiLayer(pub u8);
/// Desktop layer for internal use. Like fullscreen but with status bar
pub const GuiLayerDesktop: u8 = 0;
/// Window layer, status bar is shown
pub const GuiLayerWindow: u8 = 1;
/// Status bar left-side layer, auto-layout
pub const GuiLayerStatusBarLeft: u8 = 2;
/// Status bar right-side layer, auto-layout
pub const GuiLayerStatusBarRight: u8 = 3;
/// Fullscreen layer, no status bar
pub const GuiLayerFullscreen: u8 = 4;
/// Don't use or move, special value
pub const GuiLayerMAX: u8 = 5;

/// Buttons of a widget.
#[derive(Debug, Copy, Clone, Hash, PartialEq, Eq, Structural)]
pub struct GuiButtonType(pub u8);
pub const GuiButtonTypeLeft: u8 = 0;
pub const GuiButtonTypeCenter: u8 = 1;
pub const GuiButtonTypeRight: u8 = 2;

/// Color enumeration.
#[derive(Debug, Copy, Clone, Hash, PartialEq, Eq, Structural)]
pub struct Color(pub u8);
pub const ColorWhite: u8 = 0;
pub const ColorBlack: u8 = 1;
pub const ColorXOR: u8 = 2;

/// Fonts enumeration.
#[derive(Debug, Copy, Clone, Hash, PartialEq, Eq, Structural)]
pub struct Font(pub u8);
pub const FontPrimary: u8 = 0;
pub const FontSecondary: u8 = 1;
pub const FontKeyboard: u8 = 2;
pub const FontBigNumbers: u8 = 3;
pub const FontTotalNumber: u8 = 4;

/// Alignment enumeration.
#[derive(Debug, Copy, Clone, Hash, PartialEq, Eq, Structural)]
pub struct Align(pub u8);
pub const AlignLeft: u8 = 0;
pub const AlignRight: u8 = 1;
pub const AlignTop: u8 = 2;
pub const AlignBottom: u8 = 3;
pub const AlignCenter: u8 = 4;

/// Canvas orientation.
#[derive(Debug, Copy, Clone, Hash, PartialEq, Eq, Structural)]
pub struct CanvasOrientation(pub u8);
pub const CanvasOrientationHorizontal: u8 = 0;
pub const CanvasOrientationHorizontalFlip: u8 = 1;
pub const CanvasOrientationVertical: u8 = 2;
pub const CanvasOrientationVerticalFlip: u8 = 3;

/// Font direction.
#[derive(Debug, Copy, Clone, Hash, PartialEq, Eq, Structural)]
pub struct CanvasDirection(pub u8);
pub const CanvasDirectionLeftToRight: u8 = 0;
pub const CanvasDirectionTopToBottom: u8 = 1;
pub const CanvasDirectionRightToLeft: u8 = 2;
pub const CanvasDirectionBottomToTop: u8 = 3;

/// Icon rotation.
#[derive(Debug, Copy, Clone, Hash, PartialEq, Eq, Structural)]
pub struct IconRotation(pub u8);
pub const IconRotation0: u8 = 0;
pub const IconRotation90: u8 = 1;
pub const IconRotation180: u8 = 2;
pub const IconRotation270: u8 = 3;

/// Orientation of a view.
#[derive(Debug, Copy, Clone, Hash, PartialEq, Eq, Structural)]
pub struct ViewOrientation(pub u8);
pub const ViewOrientationHorizontal: u8 = 0;
pub const ViewOrientationHorizontalFlip: u8 = 1;
pub const ViewOrientationVertical: u8 = 2;
pub const ViewOrientationVerticalFlip: u8 = 3;

/// View model types.
#[derive(Debug, Copy, Clone, Hash, PartialEq, Eq, Structural)]
pub struct ViewModelType(pub u8);
/// Model is not allocated
pub const ViewModelTypeNone: u8 = 0;
/// Model consist of atomic types and/or partial update is not critical for rendering. Lock free.
pub const ViewModelTypeLockFree: u8 = 1;
/// Model access is guarded with mutex. Locking gui thread.
pub const ViewModelTypeLocking: u8 = 2;

/// ViewDispatcher view port placement.
#[derive(Debug, Copy, Clone, Hash, PartialEq, Eq, Structural)]
pub struct ViewDispatcherType(pub u8);
/// Desktop layer: fullscreen with status bar on top of it. For internal usage.
pub const ViewDispatcherTypeDesktop: u8 = 0;
/// Window layer: with status bar
pub const ViewDispatcherTypeWindow: u8 = 1;
/// Fullscreen layer: without status bar
pub const ViewDispatcherTypeFullscreen: u8 = 2;

/// Orientation of a view port.
#[derive(Debug, Copy, Clone, Hash, PartialEq, Eq, Structural)]
pub struct ViewPortOrientation(pub u8);
pub const ViewPortOrientationHorizontal: u8 = 0;
pub const ViewPortOrientationHorizontalFlip: u8 = 1;
pub const ViewPortOrientationVertical: u8 = 2;
pub const ViewPortOrientationVerticalFlip: u8 = 3;
/// Special value, don't use it
pub const ViewPortOrientationMAX: u8 = 4;

/// Input types. Some of them are physical events and some logical.
#[derive(Debug, Copy, Clone, Hash, PartialEq, Eq, Structural)]
pub struct InputType(pub u8);
/// Press event, emitted after debounce
pub const InputTypePress: u8 = 0;
/// Release event, emitted after debounce
pub const InputTypeRelease: u8 = 1;
/// Short event, emitted after InputTypeRelease done within INPUT_LONG_PRESS interval
pub const InputTypeShort: u8 = 2;
/// Long event, emitted after INPUT_LONG_PRESS_COUNTS interval, asynchronous to InputTypeRelease
pub const InputTypeLong: u8 = 3;
/// Repeat event, emitted with INPUT_LONG_PRESS_COUNTS period after InputTypeLong event
pub const InputTypeRepeat: u8 = 4;
/// Special value for exceptional
pub const InputTypeMAX: u8 = 5;

/// Input keys.
#[derive(Debug, Copy, Clone, Hash, PartialEq, Eq, Structural)]
pub struct InputKey(pub u8);
pub const InputKeyUp: u8 = 0;
pub const InputKeyDown: u8 = 1;
pub const InputKeyRight: u8 = 2;
pub const InputKeyLeft: u8 = 3;
pub const InputKeyOk: u8 = 4;
pub const InputKeyBack: u8 = 5;
/// Special value
pub const InputKeyMAX: u8 = 6;

/// Kinds of mutex.
#[derive(Debug, Copy, Clone, Hash, PartialEq, Eq, Structural)]
pub struct FuriMutexType(pub u8);
pub const FuriMutexTypeNormal: u8 = 0;
pub const FuriMutexTypeRecursive: u8 = 1;

/// State of the UTF8 decoding machine.
#[derive(Debug, Copy, Clone, Hash, PartialEq, Eq, Structural)]
pub struct FuriStringUTF8State(pub u8);
pub const FuriStringUTF8StateStarting: u8 = 0;
pub const FuriStringUTF8StateDecoding1: u8 = 1;
pub const FuriStringUTF8StateDecoding2: u8 = 2;
pub const FuriStringUTF8StateDecoding3: u8 = 3;
pub const FuriStringUTF8StateError: u8 = 4;

/// Wait durations.
#[derive(Debug, Copy, Clone, Hash, PartialEq, Eq, Structural)]
pub struct FuriWait(pub u32);

/// Enumeration of possible FuriThread states.
#[derive(Debug, Copy, Clone, Hash, PartialEq, Eq, Structural)]
pub struct FuriThreadState(pub u8);
/// Thread is stopped and is safe to release.
pub const FuriThreadStateStopped: u8 = 0;

/// Enumeration of possible FuriThread priorities.
#[derive(Debug, Copy, Clone, Hash, PartialEq, Eq, Structural)]
pub struct FuriThreadPriority(pub u8);

/// OTP versions.
#[derive(Debug, Copy, Clone, Hash, PartialEq, Eq, Structural)]
pub struct FuriHalVersionOtpVersion(pub u32);
pub const FuriHalVersionOtpVersion0: u32 = 0;
pub const FuriHalVersionOtpVersion1: u32 = 1;
pub const FuriHalVersionOtpVersion2: u32 = 2;
pub const FuriHalVersionOtpVersionEmpty: u32 = 4294967294;
pub const FuriHalVersionOtpVersionUnknown: u32 = 4294967295;

/// Device colors.
#[derive(Debug, Copy, Clone, Hash, PartialEq, Eq, Structural)]
pub struct FuriHalVersionColor(pub u8);
pub const FuriHalVersionColorUnknown: u8 = 0;
pub const FuriHalVersionColorBlack: u8 = 1;
pub const FuriHalVersionColorWhite: u8 = 2;
pub const FuriHalVersionColorTransparent: u8 = 3;

/// Device regions.
#[derive(Debug, Copy, Clone, Hash, PartialEq, Eq, Structural)]
pub struct FuriHalVersionRegion(pub u8);
pub const FuriHalVersionRegionUnknown: u8 = 0;
pub const FuriHalVersionRegionEuRu: u8 = 1;
pub const FuriHalVersionRegionUsCaAu: u8 = 2;
pub const FuriHalVersionRegionJp: u8 = 3;
pub const FuriHalVersionRegionWorld: u8 = 4;

/// Device displays.
#[derive(Debug, Copy, Clone, Hash, PartialEq, Eq, Structural)]
pub struct FuriHalVersionDisplay(pub u8);
pub const FuriHalVersionDisplayUnknown: u8 = 0;
pub const FuriHalVersionDisplayErc: u8 = 1;
pub const FuriHalVersionDisplayMgg: u8 = 2;

/// Status of the Bluetooth service.
#[derive(Debug, Copy, Clone, Hash, PartialEq, Eq, Structural)]
pub struct BtStatus(pub u8);
pub const BtStatusUnavailable: u8 = 0;
pub const BtStatusOff: u8 = 1;
pub const BtStatusAdvertising: u8 = 2;
pub const BtStatusConnected: u8 = 3;

/// Pairing methods.
#[derive(Debug, Copy, Clone, Hash, PartialEq, Eq, Structural)]
pub struct GapPairing(pub u8);

/// Radio stack kinds.
#[derive(Debug, Copy, Clone, Hash, PartialEq, Eq, Structural)]
pub struct FuriHalBtStack(pub u8);
pub const FuriHalBtStackUnknown: u8 = 0;
pub const FuriHalBtStackLight: u8 = 1;
pub const FuriHalBtStackFull: u8 = 2;

/// Acknowledgement of a BLE event by a handler.
#[derive(Debug, Copy, Clone, Hash, PartialEq, Eq, Structural)]
pub struct BleEventAckStatus(pub u8);
pub const BleEventNotAck: u8 = 0;
pub const BleEventAckFlowEnable: u8 = 1;
pub const BleEventAckFlowDisable: u8 = 2;

/// Date and time of the real time clock.
#[derive(Debug, Copy, Clone)]
pub struct DateTime {
    /// Hour in 24H format: 0-23
    pub hour: u8,
    /// Minute: 0-59
    pub minute: u8,
    /// Second: 0-59
    pub second: u8,
    /// Current day: 1-31
    pub day: u8,
    /// Current month: 1-12
    pub month: u8,
    /// Current year: 2000-2099
    pub year: u16,
    /// Current weekday: 1-7
    pub weekday: u8,
}

/// A GPIO pin: the address of its port's registers, and its pin mask.
#[derive(Debug, Copy, Clone, PartialEq, Eq, Structural)]
pub struct GpioPin {
    pub port: usize,
    pub pin: u16,
}

/// General Purpose I/O registers.
#[derive(Debug, Copy, Clone)]
pub struct GPIO_TypeDef {
    /// GPIO port mode register, Address offset: 0x00
    pub MODER: u32,
    /// GPIO port output type register, Address offset: 0x04
    pub OTYPER: u32,
    /// GPIO port output speed register, Address offset: 0x08
    pub OSPEEDR: u32,
    /// GPIO port pull-up/pull-down register, Address offset: 0x0C
    pub PUPDR: u32,
    /// GPIO port input data register, Address offset: 0x10
    pub IDR: u32,
    /// GPIO port output data register, Address offset: 0x14
    pub ODR: u32,
    /// GPIO port bit set/reset register, Address offset: 0x18
    pub BSRR: u32,
    /// GPIO port configuration lock register, Address offset: 0x1C
    pub LCKR: u32,
    /// GPIO alternate function registers, Address offset: 0x20-0x24
    pub AFR: [u32; 2],
    /// GPIO Bit Reset register, Address offset: 0x28
    pub BRR: u32,
}

/// Font parameters.
#[derive(Debug, Copy, Clone)]
pub struct CanvasFontParameters {
    pub leading_default: u8,
    pub leading_min: u8,
    pub height: u8,
    pub descender: u8,
}

/// A canvas that can be drawn on.
#[derive(Debug, Copy, Clone)]
pub struct Canvas {}

/// An icon: its size, its animation and the bitmap of each frame.
#[derive(Debug, Clone)]
pub struct Icon {
    pub width: u16,
    pub height: u16,
    pub frame_count: u8,
    pub frame_rate: u8,
    pub frames: Vec<Vec<u8>>,
}

/// An animated icon.
#[derive(Debug, Copy, Clone)]
pub struct IconAnimation {}

/// A view port of the GUI.
#[derive(Debug, Copy, Clone)]
pub struct ViewPort {}

/// A firmware string.
#[derive(Debug, Copy, Clone)]
pub struct FuriString {}

/// A firmware thread.
#[derive(Debug, Copy, Clone)]
pub struct FuriThread {}

/// A list of firmware threads.
#[derive(Debug, Copy, Clone)]
pub struct FuriThreadList {}

/// Version information of a firmware.
#[derive(Debug, Copy, Clone)]
pub struct Version {}

/// A mutex: the flag is set while the mutex is held.
pub struct FuriMutex(pub std::sync::atomic::AtomicBool);

/// A set of event flags.
pub struct FuriEventFlag {
    pub inner: std::sync::atomic::AtomicU32,
}

/// The bitfield half of an input event's sequence: a 2-bit source followed by
/// a 30-bit counter.
#[derive(Debug, Copy, Clone)]
pub struct InputEvent__bindgen_ty_1__bindgen_ty_1 {
    pub _bitfield_align_1: [u32; 0],
    pub _bitfield_1: __BindgenBitfieldUnit<[u8; 4]>,
}

proof fn lemma_small_masks()
    ensures
        low_mask(2) == 3,
        low_mask(30) == 0x3fff_ffffu64,
        (1u64 << 2u64) == 4,
        (1u64 << 30u64) == 0x4000_0000u64,
{
    assert((1u64 << 2u64) == 4) by (bit_vector);
    assert((1u64 << 30u64) == 0x4000_0000u64) by (bit_vector);
}

impl InputEvent__bindgen_ty_1__bindgen_ty_1 {
    /// The source of the sequence: bits 0 and 1.
    pub fn sequence_source(&self) -> (source: u8)
        ensures
            source < 4,
            field_read(self._bitfield_1@, 0, 2, source as u64),
    {
        let v = self._bitfield_1.get(0, 2);
        proof {
            lemma_field_read_value(self._bitfield_1@, 0, 2, v);
            lemma_small_masks();
        }
        v as u8
    }

    /// Sets the source of the sequence to the low 2 bits of `val`.
    pub fn set_sequence_source(&mut self, val: u8)
        ensures
            field_written(old(self)._bitfield_1@, final(self)._bitfield_1@, 0, 2, val as u64),
    {
        self._bitfield_1.set(0, 2, val as u64);
    }

    /// The counter of the sequence: bits 2 to 31.
    pub fn sequence_counter(&self) -> (counter: u32)
        ensures
            counter < 0x4000_0000,
            field_read(self._bitfield_1@, 2, 30, counter as u64),
    {
        let v = self._bitfield_1.get(2, 30);
        proof {
            lemma_field_read_value(self._bitfield_1@, 2, 30, v);
            lemma_small_masks();
        }
        v as u32
    }

    /// Sets the counter of the sequence to the low 30 bits of `val`.
    pub fn set_sequence_counter(&mut self, val: u32)
        ensures
            field_written(old(self)._bitfield_1@, final(self)._bitfield_1@, 2, 30, val as u64),
    {
        self._bitfield_1.set(2, 30, val as u64);
    }

    /// A bitfield unit holding the low 2 bits of `sequence_source` in bits 0
    /// and 1 and the low 30 bits of `sequence_counter` in bits 2 to 31.
    pub fn new_bitfield_1(sequence_source: u8, sequence_counter: u32) -> (unit:
        __BindgenBitfieldUnit<[u8; 4]>)
        ensures
            forall|k: int|
                0 <= k < 32 ==> #[trigger] storage_bit(unit@, k) == if k < 2 {
                    word_bit(sequence_source as u64, k as u64)
                } else {
                    word_bit(sequence_counter as u64, (k - 2) as u64)
                },
    {
        let mut unit: __BindgenBitfieldUnit<[u8; 4]> = __BindgenBitfieldUnit::new(
            [0u8, 0u8, 0u8, 0u8],
        );
        unit.set(0, 2, sequence_source as u64);
        let ghost mid = unit@;
        unit.set(2, 30, sequence_counter as u64);
        proof {
            assert forall|k: int| 0 <= k < 32 implies #[trigger] storage_bit(unit@, k) == if k
                < 2 {
                word_bit(sequence_source as u64, k as u64)
            } else {
                word_bit(sequence_counter as u64, (k - 2) as u64)
            } by {
                if k < 2 {
                    assert(storage_bit(mid, k) == word_bit(sequence_source as u64, k as u64));
                }
            }
        }
        unit
    }
}

/// Reading the sequence source after setting it gives the set value's low 2 bits.
pub proof fn law_sequence_source_roundtrip(before: Seq<u8>, after: Seq<u8>, val: u8, read: u8)
    requires
        before.len() == 4,
        field_written(before, after, 0, 2, val as u64),
        field_read(after, 0, 2, read as u64),
    ensures
        read == val & 3,
{
    law_set_then_get(before, after, 0, 2, val as u64, read as u64);
    lemma_small_masks();
    assert((val as u64) & 3u64 == (val & 3u8) as u64) by (bit_vector);
}

/// Reading the sequence counter after setting it gives the set value's low 30 bits.
pub proof fn law_sequence_counter_roundtrip(before: Seq<u8>, after: Seq<u8>, val: u32, read: u32)
    requires
        before.len() == 4,
        field_written(before, after, 2, 30, val as u64),
        field_read(after, 2, 30, read as u64),
    ensures
        read == val & 0x3fff_ffff,
{
    law_set_then_get(before, after, 2, 30, val as u64, read as u64);
    lemma_small_masks();
    assert((val as u64) & 0x3fff_ffffu64 == (val & 0x3fff_ffffu32) as u64) by (bit_vector);
}

/// Input event: the key, the kind of event and the event's sequence.
#[derive(Copy, Clone)]
pub struct InputEvent {
    pub __bindgen_anon_1: InputEvent__bindgen_ty_1__bindgen_ty_1,
    pub key: InputKey,
    pub type_: InputType,
}

/// The human readable name of a raw input key.
pub open spec fn input_key_name(raw: u8) -> Seq<char> {
    if raw == InputKeyUp {
        "Up"@
    } else if raw == InputKeyDown {
        "Down"@
    } else if raw == InputKeyRight {
        "Right"@
    } else if raw == InputKeyLeft {
        "Left"@
    } else if raw == InputKeyOk {
        "Ok"@
    } else if raw == InputKeyBack {
        "Back"@
    } else {
        "Err"@
    }
}

/// The human readable name of a raw input type.
pub open spec fn input_type_name(raw: u8) -> Seq<char> {
    if raw == InputTypePress {
        "Press"@
    } else if raw == InputTypeRelease {
        "Release"@
    } else if raw == InputTypeShort {
        "Short"@
    } else if raw == InputTypeLong {
        "Long"@
    } else if raw == InputTypeRepeat {
        "Repeat"@
    } else {
        "Err"@
    }
}

/// Each key is named after itself, and no other raw value gets its name.
pub proof fn law_input_key_names(raw: u8)
    ensures
        input_key_name(raw) == "Up"@ <==> raw == InputKeyUp,
        input_key_name(raw) == "Down"@ <==> raw == InputKeyDown,
        input_key_name(raw) == "Right"@ <==> raw == InputKeyRight,
        input_key_name(raw) == "Left"@ <==> raw == InputKeyLeft,
        input_key_name(raw) == "Ok"@ <==> raw == InputKeyOk,
        input_key_name(raw) == "Back"@ <==> raw == InputKeyBack,
{
    reveal_strlit("Up");
    assert("Up"@.len() == 2 && "Up"@[0] == 'U');
    reveal_strlit("Down");
    assert("Down"@.len() == 4 && "Down"@[0] == 'D');
    reveal_strlit("Right");
    assert("Right"@.len() == 5 && "Right"@[0] == 'R');
    reveal_strlit("Left");
    assert("Left"@.len() == 4 && "Left"@[0] == 'L');
    reveal_strlit("Ok");
    assert("Ok"@.len() == 2 && "Ok"@[0] == 'O');
    reveal_strlit("Back");
    assert("Back"@.len() == 4 && "Back"@[0] == 'B');
    reveal_strlit("Err");
    assert("Err"@.len() == 3 && "Err"@[0] == 'E');
}

/// Each input type is named after itself, and no other raw value gets its name.
pub proof fn law_input_type_names(raw: u8)
    ensures
        input_type_name(raw) == "Press"@ <==> raw == InputTypePress,
        input_type_name(raw) == "Release"@ <==> raw == InputTypeRelease,
        input_type_name(raw) == "Short"@ <==> raw == InputTypeShort,
        input_type_name(raw) == "Long"@ <==> raw == InputTypeLong,
        input_type_name(raw) == "Repeat"@ <==> raw == InputTypeRepeat,
{
    reveal_strlit("Press");
    assert("Press"@.len() == 5 && "Press"@[0] == 'P');
    reveal_strlit("Release");
    assert("Release"@.len() == 7 && "Release"@[0] == 'R');
    reveal_strlit("Short");
    assert("Short"@.len() == 5 && "Short"@[0] == 'S');
    reveal_strlit("Long");
    assert("Long"@.len() == 4 && "Long"@[0] == 'L');
    reveal_strlit("Repeat");
    assert("Repeat"@.len() == 6 && "Repeat"@[0] == 'R');
    reveal_strlit("Err");
    assert("Err"@.len() == 3 && "Err"@[0] == 'E');
}

/// Gets the human readable name of an input key ("Err" for a value that is no key).
pub fn input_get_key_name(key: InputKey) -> (name: &'static str)
    ensures
        name@ == input_key_name(key.0),
{
    if key.0 == InputKeyUp {
        "Up"
    } else if key.0 == InputKeyDown {
        "Down"
    } else if key.0 == InputKeyRight {
        "Right"
    } else if key.0 == InputKeyLeft {
        "Left"
    } else if key.0 == InputKeyOk {
        "Ok"
    } else if key.0 == InputKeyBack {
        "Back"
    } else {
        "Err"
    }
}

/// Gets the human readable name of an input type ("Err" for a value that is no type).
pub fn input_get_type_name(type_: InputType) -> (name: &'static str)
    ensures
        name@ == input_type_name(type_.0),
{
    if type_.0 == InputTypePress {
        "Press"
    } else if type_.0 == InputTypeRelease {
        "Release"
    } else if type_.0 == InputTypeShort {
        "Short"
    } else if type_.0 == InputTypeLong {
        "Long"
    } else if type_.0 == InputTypeRepeat {
        "Repeat"
    } else {
        "Err"
    }
}

/// An HCI event packet: its kind, the length of its data, and the data.
#[derive(Debug)]
pub struct HciEventPacket {
    pub kind: u8,
    pub len: u8,
    pub inner: [u8; 1],
}

/// Connection parameters requested by the peripheral.
#[derive(Debug, Default, Copy, Clone)]
pub struct GapConnectionParamsRequest {
    pub conn_int_min: u16,
    pub conn_int_max: u16,
    pub slave_latency: u16,
    pub supervisor_timeout: u16,
}

/// The advertised service of a GAP configuration.
#[derive(Debug, Default, Copy, Clone)]
pub struct GapConfig__bindgen_ty_1 {
    pub UUID_Type: u8,
    pub Service_UUID_16: u16,
    pub Service_UUID_128: [u8; 16],
}

/// Configuration of the GAP service.
#[derive(Debug, Copy, Clone)]
pub struct GapConfig {
    pub adv_service: GapConfig__bindgen_ty_1,
    pub mfg_data: [u8; 23],
    pub mfg_data_len: u8,
    pub appearance_char: u16,
    pub bonding_mode: bool,
    pub pairing_method: GapPairing,
    pub mac_address: [u8; 6],
    pub adv_name: [u8; 18],
    pub conn_param: GapConnectionParamsRequest,
}

/// Every field of `config` is zero, or false.
pub open spec fn is_zeroed_gap_config(config: GapConfig) -> bool {
    &&& config.adv_service.UUID_Type == 0
    &&& config.adv_service.Service_UUID_16 == 0
    &&& forall|i: int| 0 <= i < 16 ==> #[trigger] config.adv_service.Service_UUID_128@[i] == 0
    &&& forall|i: int| 0 <= i < 23 ==> #[trigger] config.mfg_data@[i] == 0
    &&& config.mfg_data_len == 0
    &&& config.appearance_char == 0
    &&& !config.bonding_mode
    &&& config.pairing_method.0 == 0
    &&& forall|i: int| 0 <= i < 6 ==> #[trigger] config.mac_address@[i] == 0
    &&& forall|i: int| 0 <= i < 18 ==> #[trigger] config.adv_name@[i] == 0
    &&& config.conn_param.conn_int_min == 0
    &&& config.conn_param.conn_int_max == 0
    &&& config.conn_param.slave_latency == 0
    &&& config.conn_param.supervisor_timeout == 0
}

impl Default for GapConfig {
    fn default() -> (config: Self)
        ensures
            is_zeroed_gap_config(config),
    {
        GapConfig {
            adv_service: GapConfig__bindgen_ty_1 {
                UUID_Type: 0,
                Service_UUID_16: 0,
                Service_UUID_128: vstd::array::array_fill_for_copy_types(0u8),
            },
            mfg_data: vstd::array::array_fill_for_copy_types(0u8),
            mfg_data_len: 0,
            appearance_char: 0,
            bonding_mode: false,
            pairing_method: GapPairing(0),
            mac_address: vstd::array::array_fill_for_copy_types(0u8),
            adv_name: vstd::array::array_fill_for_copy_types(0u8),
            conn_param: GapConnectionParamsRequest {
                conn_int_min: 0,
                conn_int_max: 0,
                slave_latency: 0,
                supervisor_timeout: 0,
            },
        }
    }
}

/// Information on the radio stack running on the second core (the fields this
/// library reads).
#[derive(Debug, Copy, Clone)]
pub struct BleGlueC2Info {
    pub StackType: u8,
    pub StackTypeString: [u8; 20],
}

/// A request to the HCI: the opcode group and command, the command
/// parameters, and the length of the buffer for the return parameters.
#[derive(Debug, Clone)]
pub struct hci_request {
    pub ogf: u16,
    pub ocf: u16,
    pub event: i32,
    pub cparam: Vec<u8>,
    pub clen: i32,
    pub rlen: i32,
}

} // verus!
