//! Message construction, the round trip, and receive-count decoding.

use gns::{
    GnsConnection, GnsNetworkMessage, MayDrop, SEND_NO_NAGLE, SEND_RELIABLE, ToReceive, ToSend,
    receive_result,
};

#[test]
fn construction_pipeline_sets_every_field() {
    let msg = GnsNetworkMessage::from_engine(
        b"ignored".to_vec(),
        0,
        0,
        0,
        0,
        GnsConnection(0),
        0,
    );
    // from_engine is the receive-side constructor; the send side goes
    // through the utils allocator, exercised in the config tests. Here:
    // every accessor reads back what construction wrote.
    assert_eq!(msg.payload(), b"ignored");

    let msg: GnsNetworkMessage<ToReceive> = GnsNetworkMessage::from_engine(
        b"payload".to_vec(),
        42,
        3,
        SEND_RELIABLE | SEND_NO_NAGLE,
        77,
        GnsConnection(9),
        5,
    );
    assert_eq!(msg.payload(), b"payload");
    assert_eq!(msg.message_number(), 42);
    assert_eq!(msg.lane(), 3);
    assert_eq!(msg.flags(), SEND_RELIABLE | SEND_NO_NAGLE);
    assert_eq!(msg.user_data(), 77);
    assert_eq!(msg.connection(), GnsConnection(9));
    assert_eq!(msg.connection_user_data(), 5);
}

#[test]
fn send_builder_updates_one_field_at_a_time() {
    let mut slot = gns::GnsGlobalSlot::new();
    let global = gns::GnsGlobal::get(&mut slot, true, String::new()).unwrap();
    let msg = global
        .utils()
        .allocate_message(GnsConnection(3), SEND_RELIABLE, b"abc")
        .set_lane(2)
        .set_user_data(99);
    assert_eq!(msg.payload(), b"abc");
    assert_eq!(msg.flags(), SEND_RELIABLE);
    assert_eq!(msg.lane(), 2);
    assert_eq!(msg.user_data(), 99);
    assert_eq!(msg.connection(), GnsConnection(3));
    // The buffer was sized at allocation; a same-length payload can
    // replace it.
    let msg = msg.set_payload(b"xyz");
    assert_eq!(msg.payload(), b"xyz");
    // A message number is only ever assigned by the engine.
    assert_eq!(msg.message_number(), 0);
}

#[test]
fn round_trip_preserves_payload_and_flags() {
    // A message constructed with payload P and flags F, sent and
    // delivered back (loopback), reads back P and exactly the flags that
    // were requested.
    let mut slot = gns::GnsGlobalSlot::new();
    let global = gns::GnsGlobal::get(&mut slot, true, String::new()).unwrap();
    let payload = b"round trip payload";
    let sent = global
        .utils()
        .allocate_message(GnsConnection(8), SEND_RELIABLE, payload);

    // What the engine carries is the message's own record; delivery
    // attaches a message number and the receiving connection.
    let delivered: GnsNetworkMessage<ToReceive> = GnsNetworkMessage::from_engine(
        sent.payload().to_vec(),
        7,
        sent.lane(),
        sent.flags(),
        0,
        GnsConnection(101),
        0,
    );
    assert_eq!(delivered.payload(), payload);
    assert_eq!(delivered.flags() & SEND_RELIABLE, SEND_RELIABLE);
    assert_eq!(delivered.flags(), sent.flags());
}

#[test]
fn release_duty_follows_the_direction() {
    // Sent messages are released by the engine's send call; received
    // ones are this layer's to release, exactly once.
    assert!(!<ToSend as MayDrop>::must_drop());
    assert!(<ToReceive as MayDrop>::must_drop());
}

#[test]
fn receive_result_distinguishes_failure_from_empty() {
    // -1 from the engine (the unsigned maximum) means the receive call
    // itself failed; zero means it legitimately found nothing.
    assert_eq!(receive_result(usize::MAX), None);
    assert_eq!(receive_result(0), Some(0));
    assert_eq!(receive_result(17), Some(17));
}
