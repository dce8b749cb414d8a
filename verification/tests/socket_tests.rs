//! Ready-state operations: message drains, send decoding, queries.

use either::Either;
use gns::{
    EResult, GnsConnection, GnsConnectionInfo, GnsConnectionRealTimeStatus, GnsConnectionState,
    GnsGlobal, GnsGlobalSlot, GnsIpAddr, GnsNetworkMessage, GnsSocket, IsClient, IsServer,
    SEND_RELIABLE, ToReceive, prepare_lane_statuses,
};

fn make_global() -> (GnsGlobalSlot, GnsGlobal) {
    let mut slot = GnsGlobalSlot::new();
    let global = GnsGlobal::get(&mut slot, true, String::new()).unwrap();
    (slot, global)
}

fn make_server(global: &mut GnsGlobal) -> GnsSocket<IsServer> {
    let qid = global.create_queue();
    GnsSocket::new().listen(global, qid, 4, 7).map_err(|_| ()).unwrap()
}

fn make_client(global: &mut GnsGlobal) -> GnsSocket<IsClient> {
    let qid = global.create_queue();
    GnsSocket::new().connect(global, qid, 21).map_err(|_| ()).unwrap()
}

fn delivered(payload: &[u8], number: u64, lane: u16, conn: u32) -> GnsNetworkMessage<ToReceive> {
    GnsNetworkMessage::from_engine(
        payload.to_vec(),
        number,
        lane,
        SEND_RELIABLE,
        0,
        GnsConnection(conn),
        0,
    )
}

#[test]
fn poll_messages_drains_in_order_and_caps_at_max_k() {
    let (_slot, mut global) = make_global();
    let mut server = make_server(&mut global);

    server.feed_messages(vec![
        delivered(b"one", 1, 0, 31),
        delivered(b"two", 2, 0, 32),
        delivered(b"three", 3, 0, 31),
    ]);

    // max_k = 0 drains nothing and loses nothing.
    assert_eq!(server.poll_messages(0).len(), 0);

    let first = server.poll_messages(2);
    assert_eq!(first.len(), 2);
    assert_eq!(first[0].payload(), b"one");
    assert_eq!(first[1].payload(), b"two");

    let rest = server.poll_messages(100);
    assert_eq!(rest.len(), 1);
    assert_eq!(rest[0].payload(), b"three");
    assert_eq!(rest[0].connection(), GnsConnection(31));

    // Nothing left: zero processed, which is not an error.
    assert_eq!(server.poll_messages(100).len(), 0);
}

#[test]
fn send_messages_pairs_one_result_per_message_in_order() {
    let (_slot, mut global) = make_global();
    let client = make_client(&mut global);

    let m1 = global.utils().allocate_message(client.connection(), SEND_RELIABLE, b"a");
    let m2 = global.utils().allocate_message(client.connection(), SEND_RELIABLE, b"b");
    let m3 = global.utils().allocate_message(client.connection(), SEND_RELIABLE, b"c");

    // The engine assigned numbers to the first two and rejected the
    // third with code 3 (written negated into the result array).
    let results = client.send_messages(vec![m1, m2, m3], vec![101, 102, -3]);
    assert_eq!(results.len(), 3);
    assert_eq!(results[0], Either::Left(101));
    assert_eq!(results[1], Either::Left(102));
    assert_eq!(results[2], Either::Right(EResult(3)));
}

#[test]
fn echo_exchange_between_client_and_server() {
    // The engine's wire work is its own; everything the layer does for
    // a loopback echo on port 55001 happens here.
    let (_slot, mut global) = make_global();
    let mut server = make_server(&mut global);
    let mut client = make_client(&mut global);
    let client_conn_on_server: u32 = 33;

    // Client sends "Hello, server!".
    let hello = global
        .utils()
        .allocate_message(client.connection(), SEND_RELIABLE, b"Hello, server!");
    let sent = client.send_messages(vec![hello], vec![1]);
    assert_eq!(sent, vec![Either::Left(1)]);

    // The engine delivers it into the server's poll group.
    server.feed_messages(vec![delivered(b"Hello, server!", 1, 0, client_conn_on_server)]);
    let inbound = server.poll_messages(100);
    assert_eq!(inbound.len(), 1, "Server did not receive any messages");
    assert_eq!(
        inbound[0].payload(),
        b"Hello, server!",
        "Server received unexpected message"
    );

    // The server echoes to the connection the message arrived on.
    let reply_to = inbound[0].connection();
    assert_eq!(reply_to, GnsConnection(client_conn_on_server));
    let echo = global
        .utils()
        .allocate_message(reply_to, SEND_RELIABLE, b"ECHO: Hello, server!");
    let sent = server.send_messages(vec![echo], vec![2]);
    assert_eq!(sent, vec![Either::Left(2)]);

    // The engine delivers the echo back to the client.
    client.feed_messages(vec![delivered(b"ECHO: Hello, server!", 1, 0, 21)]);
    let echoed = client.poll_messages(100);
    assert_eq!(echoed.len(), 1, "Client did not receive echo response");
    assert_eq!(
        echoed[0].payload(),
        b"ECHO: Hello, server!",
        "Client received unexpected echo message"
    );
}

#[test]
fn real_time_status_returns_exactly_lane_count_snapshots() {
    let (_slot, mut global) = make_global();
    let client = make_client(&mut global);

    let lanes = prepare_lane_statuses(3);
    assert_eq!(lanes.len(), 3);
    let status = GnsConnectionRealTimeStatus {
        state: GnsConnectionState::Connected,
        ping: 12,
        ..GnsConnectionRealTimeStatus::default()
    };

    let ok = client.get_connection_real_time_status(
        client.connection(),
        3,
        EResult::ok(),
        status,
        lanes,
    );
    let (got_status, got_lanes) = ok.expect("status query must succeed on a live handle");
    assert_eq!(got_status.state(), GnsConnectionState::Connected);
    assert_eq!(got_status.ping(), 12);
    assert_eq!(got_lanes.len(), 3, "exactly lane_count per-lane snapshots");

    // A stale handle keeps the engine's error code.
    let stale = client.get_connection_real_time_status(
        GnsConnection(999),
        2,
        EResult(25),
        GnsConnectionRealTimeStatus::default(),
        prepare_lane_statuses(2),
    );
    assert_eq!(stale.err(), Some(EResult(25)));
}

#[test]
fn queries_and_close_pass_engine_outcomes_through() {
    let (_slot, mut global) = make_global();
    let server = make_server(&mut global);

    let info = GnsConnectionInfo {
        state: GnsConnectionState::Connected,
        remote_port: 55001,
        addr_bytes: [0, 0, 0, 0, 0, 0, 0, 0, 0, 0, 0xff, 0xff, 127, 0, 0, 1],
        ..GnsConnectionInfo::default()
    };
    let found = server.get_connection_info(GnsConnection(33), true, info);
    let info = found.expect("a known connection has info");
    assert_eq!(info.remote_port(), 55001);
    assert_eq!(info.remote_address(), GnsIpAddr::V4([127, 0, 0, 1]));
    assert_eq!(info.end_reason(), 0);
    assert_eq!(info.end_debug(), "");

    assert!(server
        .flush_messages_on_connection(GnsConnection(33), EResult::ok())
        .is_ok());
    assert_eq!(
        server.flush_messages_on_connection(GnsConnection(33), EResult(8)),
        Err(EResult(8))
    );

    assert!(server.close_connection(GnsConnection(33), 0, "", false, true));
    assert!(!server.close_connection(GnsConnection(999), 0, "gone", false, false));
}
