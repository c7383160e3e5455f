use heart_rate_client::connection::CharacteristicDescriptor;
use heart_rate_client::connection::ConnState;
use heart_rate_client::connection::Connection;
use heart_rate_client::connection::FailureKind;
use heart_rate_client::connection::PROP_NOTIFY;
use heart_rate_client::uuids::HEART_RATE_MEASUREMENT_UUID;
use heart_rate_client::uuids::expand_uuid16;

fn notify_char(uuid: u128) -> CharacteristicDescriptor {
    CharacteristicDescriptor { uuid, properties: PROP_NOTIFY }
}

fn read_only_char(uuid: u128) -> CharacteristicDescriptor {
    CharacteristicDescriptor { uuid, properties: 0x02 }
}

#[test]
fn happy_path_reaches_subscribed() {
    let mut c = Connection::new(5);
    assert_eq!(c.state, ConnState::Disconnected);

    let dial = c.start_connect();
    assert!(dial);
    assert_eq!(c.state, ConnState::Connecting);

    c.connect_outcome(true);
    assert_eq!(c.state, ConnState::Connected);

    let table = vec![
        read_only_char(expand_uuid16(0x2A38)),
        notify_char(HEART_RATE_MEASUREMENT_UUID),
    ];
    c.discovery_outcome(Some(table));
    assert_eq!(c.state, ConnState::ServicesDiscovered);

    let idx = c.subscribe_request(HEART_RATE_MEASUREMENT_UUID);
    assert_eq!(idx, Some(1));
    assert_eq!(c.state, ConnState::ServicesDiscovered);

    c.subscribe_outcome(true);
    assert_eq!(c.state, ConnState::Subscribed);

    c.disconnect();
    assert_eq!(c.state, ConnState::Disconnected);
}

#[test]
fn connect_is_idempotent_once_connected() {
    let mut c = Connection::new(1);
    assert!(c.start_connect());
    c.connect_outcome(true);
    // A second connect never re-dials and leaves the state alone.
    assert!(!c.start_connect());
    assert_eq!(c.state, ConnState::Connected);
}

#[test]
fn transport_rejection_fails_the_connect() {
    let mut c = Connection::new(1);
    assert!(c.start_connect());
    c.connect_outcome(false);
    assert_eq!(c.state, ConnState::Failed(FailureKind::ConnectionError));
}

#[test]
fn discovery_failure_is_a_discovery_error() {
    let mut c = Connection::new(1);
    c.start_connect();
    c.connect_outcome(true);
    c.discovery_outcome(None);
    assert_eq!(c.state, ConnState::Failed(FailureKind::ServiceDiscoveryError));
}

#[test]
fn subscribe_without_notify_capability_never_subscribes() {
    let mut c = Connection::new(1);
    c.start_connect();
    c.connect_outcome(true);
    // The measurement characteristic is present but cannot notify.
    let table = vec![read_only_char(HEART_RATE_MEASUREMENT_UUID)];
    c.discovery_outcome(Some(table));

    let idx = c.subscribe_request(HEART_RATE_MEASUREMENT_UUID);
    assert_eq!(idx, None);
    assert_eq!(c.state, ConnState::Failed(FailureKind::CharacteristicUnsupported));
    assert_ne!(c.state, ConnState::Subscribed);
}

#[test]
fn subscribe_with_characteristic_absent_is_unsupported() {
    let mut c = Connection::new(1);
    c.start_connect();
    c.connect_outcome(true);
    let table = vec![notify_char(expand_uuid16(0x2A38))];
    c.discovery_outcome(Some(table));

    let idx = c.subscribe_request(HEART_RATE_MEASUREMENT_UUID);
    assert_eq!(idx, None);
    assert_eq!(c.state, ConnState::Failed(FailureKind::CharacteristicUnsupported));
}

#[test]
fn subscribe_picks_the_first_notifying_match() {
    let mut c = Connection::new(1);
    c.start_connect();
    c.connect_outcome(true);
    // A non-notifying twin comes first; the notifying one is chosen.
    let table = vec![
        read_only_char(HEART_RATE_MEASUREMENT_UUID),
        notify_char(HEART_RATE_MEASUREMENT_UUID),
        notify_char(HEART_RATE_MEASUREMENT_UUID),
    ];
    c.discovery_outcome(Some(table));
    assert_eq!(c.subscribe_request(HEART_RATE_MEASUREMENT_UUID), Some(1));
}

#[test]
fn subscription_refusal_is_a_subscription_error() {
    let mut c = Connection::new(1);
    c.start_connect();
    c.connect_outcome(true);
    c.discovery_outcome(Some(vec![notify_char(HEART_RATE_MEASUREMENT_UUID)]));
    assert_eq!(c.subscribe_request(HEART_RATE_MEASUREMENT_UUID), Some(0));
    c.subscribe_outcome(false);
    assert_eq!(c.state, ConnState::Failed(FailureKind::SubscriptionError));
}

#[test]
fn disconnect_is_safe_from_any_state() {
    let mut fresh = Connection::new(1);
    fresh.disconnect();
    assert_eq!(fresh.state, ConnState::Disconnected);

    let mut failed = Connection::new(2);
    failed.start_connect();
    failed.connect_outcome(false);
    failed.disconnect();
    assert_eq!(failed.state, ConnState::Disconnected);
}
