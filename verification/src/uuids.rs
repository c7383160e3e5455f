//! The standardized Bluetooth identifiers the client relies on, as plain
//! 128-bit values.
//!
//! A 16-bit Bluetooth UUID denotes the 128-bit UUID obtained by placing it
//! in the third and fourth bytes of the Bluetooth base UUID
//! `00000000-0000-1000-8000-00805F9B34FB`.

use vstd::prelude::*;

verus! {

/// The Bluetooth base UUID, `00000000-0000-1000-8000-00805F9B34FB`.
pub const BLUETOOTH_BASE_UUID: u128 = 0x00000000_00001000_80000080_5F9B34FB;

/// Two to the 96th power: the factor that moves a 16-bit UUID into the
/// third and fourth bytes of a 128-bit one.
pub const SHORT_UUID_SHIFT: u128 = 0x1_00000000_00000000_00000000;

/// The Heart Rate service, 16-bit UUID `0x180D`, in full 128-bit form.
pub const HEART_RATE_SERVICE_UUID: u128 = 0x0000180D_00001000_80000080_5F9B34FB;

/// The Heart Rate Measurement characteristic, 16-bit UUID `0x2A37`, in
/// full 128-bit form.
pub const HEART_RATE_MEASUREMENT_UUID: u128 = 0x00002A37_00001000_80000080_5F9B34FB;

/// The 128-bit form of a 16-bit Bluetooth UUID.
pub open spec fn spec_expand_uuid16(short: u16) -> u128 {
    (short * SHORT_UUID_SHIFT + BLUETOOTH_BASE_UUID) as u128
}

/// Expand a 16-bit Bluetooth UUID to its full 128-bit base form.
pub fn expand_uuid16(short: u16) -> (r: u128)
    ensures
        r == spec_expand_uuid16(short),
{
    (short as u128) * SHORT_UUID_SHIFT + BLUETOOTH_BASE_UUID
}

/// The two fixed identifiers are exactly the expansions of their 16-bit
/// forms.
pub proof fn lemma_fixed_uuids_are_expansions()
    ensures
        HEART_RATE_SERVICE_UUID == spec_expand_uuid16(0x180D),
        HEART_RATE_MEASUREMENT_UUID == spec_expand_uuid16(0x2A37),
{
}

} // verus!
