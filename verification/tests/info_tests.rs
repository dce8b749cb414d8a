//! Decoding of engine snapshots: states, addresses, diagnostics.

use gns::{
    GnsConnectionInfo, GnsConnectionRealTimeLaneStatus, GnsConnectionState, GnsIpAddr,
    GnsSocket, decode_engine_bytes,
};

#[test]
fn state_codes_round_trip() {
    let cases = [
        (0, GnsConnectionState::NotConnected),
        (1, GnsConnectionState::Connecting),
        (2, GnsConnectionState::FindingRoute),
        (3, GnsConnectionState::Connected),
        (4, GnsConnectionState::ClosedByPeer),
        (5, GnsConnectionState::ProblemDetectedLocally),
        (-1, GnsConnectionState::FinWait),
        (-2, GnsConnectionState::Linger),
        (-3, GnsConnectionState::Dead),
    ];
    for (code, state) in cases {
        assert_eq!(GnsConnectionState::from_code(code), Some(state));
        assert_eq!(state.to_code(), code);
    }
    assert_eq!(GnsConnectionState::from_code(6), None);
    assert_eq!(GnsConnectionState::from_code(-4), None);
}

#[test]
fn addresses_decode_and_encode() {
    // The engine carries IPv4 as an IPv4-mapped IPv6 address.
    let v4 = GnsIpAddr::V4([192, 168, 1, 10]);
    let bytes = v4.to_engine_bytes();
    assert_eq!(
        bytes,
        [0, 0, 0, 0, 0, 0, 0, 0, 0, 0, 0xff, 0xff, 192, 168, 1, 10]
    );
    assert_eq!(decode_engine_bytes(&bytes), v4);

    // A genuine IPv6 address passes through untouched.
    let raw6 = [0x20, 0x01, 0x0d, 0xb8, 0, 0, 0, 0, 0, 0, 0, 0, 0, 0, 0, 1];
    let v6 = GnsIpAddr::V6(raw6);
    assert_eq!(v6.to_engine_bytes(), raw6);
    assert_eq!(decode_engine_bytes(&raw6), v6);
}

#[test]
fn connection_info_reads_back_its_snapshot() {
    let info = GnsConnectionInfo {
        state: GnsConnectionState::ProblemDetectedLocally,
        end_reason: 2001,
        end_debug: String::from("timed out"),
        addr_bytes: [0, 0, 0, 0, 0, 0, 0, 0, 0, 0, 0xff, 0xff, 10, 0, 0, 2],
        remote_port: 55003,
        user_data: 6,
    };
    assert_eq!(info.state(), GnsConnectionState::ProblemDetectedLocally);
    assert_eq!(info.end_reason(), 2001);
    assert_eq!(info.end_debug(), "timed out");
    assert_eq!(info.remote_address(), GnsIpAddr::V4([10, 0, 0, 2]));
    assert_eq!(info.remote_port(), 55003);
    assert_eq!(info.connection_user_data(), 6);
}

#[test]
fn lane_status_reads_back_its_snapshot() {
    let lane = GnsConnectionRealTimeLaneStatus {
        pending_bytes_unreliable: 10,
        pending_bytes_reliable: 20,
        bytes_sent_unacked_reliable: 30,
        approximated_queue_time_usec: 500,
    };
    assert_eq!(lane.pending_bytes_unreliable(), 10);
    assert_eq!(lane.pending_bytes_reliable(), 20);
    assert_eq!(lane.bytes_sent_unacked_reliable(), 30);
    assert_eq!(lane.approximated_queue_time(), 500);
    let blank = GnsConnectionRealTimeLaneStatus::default();
    assert_eq!(blank.pending_bytes_reliable(), 0);
}

#[test]
fn setup_common_carries_ipv6_and_the_queue_id() {
    let raw6 = [0xfe, 0x80, 0, 0, 0, 0, 0, 0, 0, 0, 0, 0, 0, 0, 0, 7];
    let (addr, config) = GnsSocket::setup_common(GnsIpAddr::V6(raw6), 55010, 3);
    assert_eq!(addr.bytes, raw6);
    assert_eq!(addr.port, 55010);
    assert_eq!(config.connection_user_data, 3);
}
