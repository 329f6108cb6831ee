use home_protocol::device_types::switch::{SwitchPower, SwitchState};
use home_protocol::protocol::http::ClientBoundHttpMessage;
use home_protocol::protocol::krypton::generate_sni;
use home_protocol::protocol::simple::{DeviceBoundSimpleMessage, ServerBoundSimpleMessage};
use home_protocol::protocol::udp::ClientBoundUdpMessage;
use home_protocol::{DeviceId, DeviceState, DeviceType};

#[test]
fn state_kind_matches_variant() {
    let s = DeviceState::Switch(SwitchState { power: SwitchPower::On });
    assert_eq!(s.kind(), DeviceType::Switch);
    assert!(s.is_kind(DeviceType::Switch));
    assert!(!s.is_kind(DeviceType::CeilingFan));
}

#[test]
fn unknown_state_matches_every_kind() {
    let s = DeviceState::Unknown;
    assert_eq!(s.kind(), DeviceType::Unknown);
    assert!(s.is_kind(DeviceType::Switch));
    assert!(s.is_kind(DeviceType::DimmableLight));
}

#[test]
fn device_id_holds_at_most_32_bytes() {
    let ok = DeviceId::from_str("dev-1").unwrap();
    assert_eq!(ok.as_str(), "dev-1");
    assert_eq!(ok.len(), 5);
    assert!(DeviceId::from_str(&"x".repeat(32)).is_some());
    assert!(DeviceId::from_str(&"x".repeat(33)).is_none());
    // Sixteen two-byte characters fill the 32 bytes; one more does not fit.
    assert!(DeviceId::from_str(&"é".repeat(16)).is_some());
    assert!(DeviceId::from_str(&"é".repeat(17)).is_none());
}

#[test]
fn sni_names_the_device() {
    let id = DeviceId::from_str("dev-1").unwrap();
    assert_eq!(generate_sni(&id).as_str(), "krypton-deviceid=dev-1");
    let long = DeviceId::from_str(&"a".repeat(32)).unwrap();
    assert_eq!(generate_sni(&long).len(), 49);
}

#[test]
fn error_becomes_failure_message() {
    let m = ClientBoundHttpMessage::from(anyhow::Error::msg("boom"));
    match m {
        ClientBoundHttpMessage::Failure(Some(text)) => assert_eq!(text.as_str(), "boom"),
        _ => panic!("expected a failure with text"),
    }
    let d = DeviceBoundSimpleMessage::from(anyhow::Error::msg("bad"));
    assert!(matches!(d, DeviceBoundSimpleMessage::Failure(Some(_))));
    let s = ServerBoundSimpleMessage::from(anyhow::Error::msg("bad"));
    assert!(matches!(s, ServerBoundSimpleMessage::Failure(Some(_))));
}

#[test]
fn overlong_error_text_is_dropped() {
    let m = ClientBoundUdpMessage::from(anyhow::Error::msg("z".repeat(101)));
    assert!(matches!(m, ClientBoundUdpMessage::Failure(None)));
    let fits = ClientBoundUdpMessage::from(anyhow::Error::msg("z".repeat(100)));
    assert!(matches!(fits, ClientBoundUdpMessage::Failure(Some(_))));
}
