//! BLE profiles: the callbacks an application gives, and the GAP
//! configuration built from them.
use crate::sys;
use vstd::prelude::*;

verus! {

pub const FURI_HAL_VERSION_NAME_LENGTH: usize = 8;

pub const FURI_HAL_VERSION_ARRAY_NAME_LENGTH: usize = FURI_HAL_VERSION_NAME_LENGTH + 1;

pub const FURI_HAL_VERSION_DEVICE_NAME_LENGTH: usize = 1 + 8 + FURI_HAL_VERSION_ARRAY_NAME_LENGTH;

/// The context a profile keeps while it runs.
pub trait BleProfileContext {
    type ProfileContext;
}

/// Creates the context of a profile when it starts.
pub trait BleInitialiseProfileCallbacks: BleProfileContext {
    fn initialise_ble_profile(&mut self) -> Self::ProfileContext;
}

impl<T: BleProfileContext<ProfileContext = ()>> BleInitialiseProfileCallbacks for T {
    fn initialise_ble_profile(&mut self) -> Self::ProfileContext {
        ()
    }
}

/// `name` holds `default_device_name` followed by zeros.
pub open spec fn is_padded_name(name: Seq<u8>, default_device_name: Seq<u8>) -> bool {
    &&& name.len() == 17
    &&& name.subrange(0, default_device_name.len() as int) == default_device_name
    &&& forall|i: int| default_device_name.len() <= i < 17 ==> #[trigger] name[i] == 0
}

/// The callbacks of a BLE profile.
pub trait BleProfileCallbacks: BleInitialiseProfileCallbacks {
    /// Configure the name of this Bluetooth service, which will be provided
    /// in the service's Device Name characteristic, and when Advertising.
    ///
    /// The default device name will be "Flipper ", followed by the unique
    /// name of the device.
    fn configure_name(&self, default_device_name: &[u8]) -> (name: [u8; 17])
        requires
            default_device_name@.len() <= 17,
        default_ensures
            is_padded_name(name@, default_device_name@),
    {
        let mut target: [u8; 17] = vstd::array::array_fill_for_copy_types(0u8);
        let mut i: usize = 0;
        while i < default_device_name.len()
            invariant
                default_device_name@.len() <= 17,
                i <= default_device_name@.len(),
                forall|j: int| 0 <= j < i ==> #[trigger] target@[j] == default_device_name@[j],
                forall|j: int| i <= j < 17 ==> #[trigger] target@[j] == 0,
            decreases default_device_name@.len() - i,
        {
            target[i] = default_device_name[i];
            i = i + 1;
        }
        proof {
            assert(target@.subrange(0, default_device_name@.len() as int) =~= default_device_name@);
        }
        target
    }

    /// Configure the appearance of this Bluetooth service, which will be
    /// provided in the service's Device Name characteristic, and when
    /// Advertising.
    fn configure_appearance(&self) -> u16;

    /// Adjust the GAP configuration further.
    fn configure_gap_profile(&mut self, config: &mut sys::GapConfig) {
    }
}

/// `btuuid::ad_types::COMPLETE_LOCAL_NAME` (re-exported by bt-hci as
/// `bt_hci::uuid`): the advertising data type of a complete local name,
/// which btuuid defines as 0x09.
#[verifier::external_body]
fn complete_local_name() -> (ad_type: u8)
    ensures
        ad_type == 0x09,
{
    bt_hci::uuid::ad_types::COMPLETE_LOCAL_NAME
}

/// `after` is `before` with `name` advertised as a complete local name and
/// `appearance` as the appearance; every other field is kept.
pub open spec fn named_gap_config(before: sys::GapConfig, after: sys::GapConfig, name: Seq<u8>, appearance: u16) -> bool {
    &&& after.adv_name@ == seq![0x09u8] + name
    &&& after.appearance_char == appearance
    &&& after.adv_service == before.adv_service
    &&& after.mfg_data == before.mfg_data
    &&& after.mfg_data_len == before.mfg_data_len
    &&& after.bonding_mode == before.bonding_mode
    &&& after.pairing_method == before.pairing_method
    &&& after.mac_address == before.mac_address
    &&& after.conn_param == before.conn_param
}

/// Writes the advertised name and the appearance into a GAP configuration:
/// the name is advertised as a complete local name.
pub fn set_gap_name_and_appearance(config: &mut sys::GapConfig, name: [u8; 17], appearance: u16)
    ensures
        named_gap_config(*old(config), *final(config), name@, appearance),
{
    config.adv_name[0] = complete_local_name();
    let mut i: usize = 0;
    while i < 17
        invariant
            i <= 17,
            config.adv_name@[0] == 0x09,
            forall|j: int| 0 <= j < i ==> #[trigger] config.adv_name@[j + 1] == name@[j],
            config.appearance_char == old(config).appearance_char,
            config.adv_service == old(config).adv_service,
            config.mfg_data == old(config).mfg_data,
            config.mfg_data_len == old(config).mfg_data_len,
            config.bonding_mode == old(config).bonding_mode,
            config.pairing_method == old(config).pairing_method,
            config.mac_address == old(config).mac_address,
            config.conn_param == old(config).conn_param,
        decreases 17 - i,
    {
        config.adv_name[i + 1] = name[i];
        i = i + 1;
    }
    config.appearance_char = appearance;
    proof {
        let expected = seq![0x09u8] + name@;
        assert forall|k: int| 0 <= k < 18 implies #[trigger] config.adv_name@[k] == expected[k] by {
            if k > 0 {
                assert(config.adv_name@[(k - 1) + 1] == name@[k - 1]);
            }
        }
        assert(config.adv_name@ =~= expected);
    }
}

/// Fills a GAP configuration from the profile's callbacks: the name they
/// configure from `device_name` (at most 17 bytes) is advertised, with the
/// appearance they configure; then they adjust the configuration further,
/// and the configuration and callbacks end as that adjustment left them.
pub fn dispatch_configure_gap_profile<C: BleProfileCallbacks>(
    callbacks: &mut C,
    config: &mut sys::GapConfig,
    device_name: &[u8],
)
    requires
        device_name@.len() <= 17,
    ensures
        exists|name: [u8; 17], appearance: u16, r: &mut C, named: &mut sys::GapConfig|
            #![trigger call_ensures(C::configure_name, (&*old(callbacks), device_name), name), call_ensures(C::configure_appearance, (&*old(callbacks),), appearance), call_ensures(C::configure_gap_profile, (r, named), ())]
            {
                &&& call_ensures(C::configure_name, (&*old(callbacks), device_name), name)
                &&& call_ensures(C::configure_appearance, (&*old(callbacks),), appearance)
                &&& named_gap_config(*old(config), *named, name@, appearance)
                &&& call_ensures(C::configure_gap_profile, (r, named), ())
                &&& *r == *old(callbacks)
                &&& *final(r) == *final(callbacks)
                &&& *final(named) == *final(config)
            },
{
    let configure_name = C::configure_name;
    let name = configure_name(&*callbacks, device_name);
    let configure_appearance = C::configure_appearance;
    let appearance = configure_appearance(&*callbacks);
    set_gap_name_and_appearance(config, name, appearance);
    let ghost named_value = *config;
    let configure_gap_profile = C::configure_gap_profile;
    configure_gap_profile(callbacks, config);
    assert(exists|r: &mut C, named: &mut sys::GapConfig|
        call_ensures(C::configure_gap_profile, (r, named), ()) && *r == *old(callbacks) && *final(r) == *callbacks
            && *named == named_value && *final(named) == *config);
}

} // verus!
