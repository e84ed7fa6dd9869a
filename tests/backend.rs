use celestia_types::nmt::Namespace;
use deimos_da::connection::{check_connection_string, namespace_from_hex, protocol_supported, ConnectionSettings};
use deimos_da::error::{DataAvailabilityError, Error};
use deimos_da::sync::{subscription_step, HeaderEvent, SubscriptionStep, SyncTargetCache};

#[test]
fn http_scheme_is_not_supported() {
    let r = ConnectionSettings::new("http://node:1234", "00000000000000de1008");
    assert!(matches!(r, Err(DataAvailabilityError::ProtocolNotSupported(s)) if s == "http://node:1234"));
    assert!(matches!(check_connection_string("http://node:1234"), Err(Error::ProtocolNotSupported(_))));
}

#[test]
fn ws_and_wss_schemes_are_supported() {
    assert!(protocol_supported("ws://localhost:26658"));
    assert!(protocol_supported("wss://node"));
    assert!(protocol_supported("ws:"));
    assert!(!protocol_supported("wsx://node"));
    assert!(!protocol_supported("WS://node"));
    assert!(!protocol_supported("localhost"));
    assert!(!protocol_supported(""));
    assert!(!protocol_supported("node:ws://x"));
    assert!(check_connection_string("wss://node:1").is_ok());
}

#[test]
fn namespace_hex_decodes() {
    let ns = namespace_from_hex("00000000000000de1008").unwrap();
    let expected = Namespace::new_v0(&[0, 0, 0, 0, 0, 0, 0, 0xde, 0x10, 0x08]).unwrap();
    assert_eq!(ns, expected);
    assert_ne!(ns, Namespace::new_v0(&[0x08, 0x10, 0xde]).unwrap());
    let s = ConnectionSettings::new("ws://localhost:26658", "00000000000000de1008").unwrap();
    assert_eq!(s.namespace_id, expected);
    assert_eq!(s.connection_string, "ws://localhost:26658");
}

#[test]
fn bad_namespace_hex_fails_construction() {
    let r = ConnectionSettings::new("ws://localhost:26658", "zz");
    assert!(matches!(r, Err(DataAvailabilityError::InitializationError(_))));
    for text in ["zz", "abc", "0g", "0000000000000000000000"] {
        assert!(matches!(namespace_from_hex(text), Err(DataAvailabilityError::InitializationError(_))), "{}", text);
    }
    assert!(namespace_from_hex("").is_ok());
    assert!(namespace_from_hex("ABcd").is_ok());
    let long_zero = "00".repeat(18) + &"ab".repeat(10);
    assert!(namespace_from_hex(&long_zero).is_ok());
    let long_bad = "01".repeat(18) + &"ab".repeat(10);
    assert!(namespace_from_hex(&long_bad).is_err());
}

#[test]
fn scheme_is_checked_before_namespace() {
    let r = ConnectionSettings::new("http://node", "zz");
    assert!(matches!(r, Err(DataAvailabilityError::ProtocolNotSupported(_))));
}

#[test]
fn sync_target_starts_at_zero_and_takes_writes() {
    let cache = SyncTargetCache::new();
    assert_eq!(cache.read().unwrap(), 0);
    cache.write(1234).unwrap();
    assert_eq!(cache.read().unwrap(), 1234);
}

#[test]
fn subscription_events_drive_the_cache() {
    let cache = SyncTargetCache::new();
    assert!(cache.apply_event(HeaderEvent::Header(7)));
    assert_eq!(cache.read().unwrap(), 7);
    assert!(cache.apply_event(HeaderEvent::Failed));
    assert_eq!(cache.read().unwrap(), 7);
    assert!(cache.apply_event(HeaderEvent::Header(3)));
    assert_eq!(cache.read().unwrap(), 3);
    assert!(!cache.apply_event(HeaderEvent::Closed));
    assert_eq!(cache.read().unwrap(), 3);
}

#[test]
fn subscription_step_per_event() {
    assert_eq!(subscription_step(HeaderEvent::Header(11)), SubscriptionStep::Store(11));
    assert_eq!(subscription_step(HeaderEvent::Failed), SubscriptionStep::Skip);
    assert_eq!(subscription_step(HeaderEvent::Closed), SubscriptionStep::Stop);
}
