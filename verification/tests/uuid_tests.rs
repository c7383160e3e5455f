use heart_rate_client::uuids::BLUETOOTH_BASE_UUID;
use heart_rate_client::uuids::HEART_RATE_MEASUREMENT_UUID;
use heart_rate_client::uuids::HEART_RATE_SERVICE_UUID;
use heart_rate_client::uuids::expand_uuid16;

#[test]
fn expansion_of_zero_is_the_base_uuid() {
    assert_eq!(expand_uuid16(0), BLUETOOTH_BASE_UUID);
}

#[test]
fn heart_rate_service_uuid_is_its_expansion() {
    assert_eq!(expand_uuid16(0x180D), HEART_RATE_SERVICE_UUID);
    assert_eq!(HEART_RATE_SERVICE_UUID, 0x0000180D_00001000_80000080_5F9B34FB);
}

#[test]
fn heart_rate_measurement_uuid_is_its_expansion() {
    assert_eq!(expand_uuid16(0x2A37), HEART_RATE_MEASUREMENT_UUID);
    assert_eq!(HEART_RATE_MEASUREMENT_UUID, 0x00002A37_00001000_80000080_5F9B34FB);
}
