//! Singleton lifecycle and socket state transitions.

use gns::{
    EngineAction, GnsConnection, GnsConnectionEvent, GnsConnectionInfo, GnsConnectionState,
    GnsGlobal, GnsGlobalError, GnsGlobalSlot, GnsIpAddr, GnsListenSocket, GnsPollGroup,
    GnsSetupError, GnsSocket, EResult,
};

#[test]
fn singleton_is_exclusive() {
    let mut slot = GnsGlobalSlot::new();

    // First acquisition succeeds and makes the slot live.
    let first = GnsGlobal::get(&mut slot, true, String::new());
    let global = first.expect("first acquisition must succeed");

    // Re-acquisition while live fails, whatever the engine would say.
    let second = GnsGlobal::get(&mut slot, true, String::new());
    assert!(matches!(second, Err(GnsGlobalError::AlreadyInitialized)));

    // Releasing the handle tears the engine down and frees the slot.
    GnsGlobal::release(&mut slot, global);
    let third = GnsGlobal::get(&mut slot, true, String::new());
    assert!(third.is_ok(), "acquisition after release must succeed again");
}

#[test]
fn singleton_propagates_engine_init_failure() {
    let mut slot = GnsGlobalSlot::new();
    let failed = GnsGlobal::get(&mut slot, false, String::from("no network stack"));
    match &failed {
        Err(e @ GnsGlobalError::InitFailed(msg)) => {
            assert_eq!(msg, "no network stack");
            assert_eq!(e.message(), "no network stack");
        }
        _ => panic!("engine init failure must surface its diagnostic"),
    }
    // The failure left the slot free.
    assert!(GnsGlobal::get(&mut slot, true, String::new()).is_ok());
}

#[test]
fn listen_success_owns_both_handles() {
    let mut slot = GnsGlobalSlot::new();
    let mut global = GnsGlobal::get(&mut slot, true, String::new()).unwrap();
    let queue_id = global.create_queue();

    let (addr, config) = GnsSocket::setup_common(GnsIpAddr::V4([127, 0, 0, 1]), 55001, queue_id);
    assert_eq!(addr.port, 55001);
    assert_eq!(config.connection_user_data, queue_id);
    // IPv4 rides in the engine's IPv4-mapped form.
    assert_eq!(&addr.bytes[..12], &[0, 0, 0, 0, 0, 0, 0, 0, 0, 0, 0xff, 0xff]);
    assert_eq!(&addr.bytes[12..], &[127, 0, 0, 1]);

    let server = GnsSocket::new()
        .listen(&mut global, queue_id, 4, 7)
        .map_err(|_| ())
        .expect("Failed to create server socket");
    assert_eq!(server.state.queue_id, queue_id);
    assert_eq!(server.state.listen_socket, GnsListenSocket(4));
    assert_eq!(server.state.poll_group, GnsPollGroup(7));
}

#[test]
fn listen_invalid_listen_socket_is_bind_failed() {
    let mut slot = GnsGlobalSlot::new();
    let mut global = GnsGlobal::get(&mut slot, true, String::new()).unwrap();
    let queue_id = global.create_queue();

    let failure = match GnsSocket::new().listen(&mut global, queue_id, 0, 0) {
        Err(f) => f,
        Ok(_) => panic!("an invalid listen socket cannot make a server"),
    };
    assert_eq!(failure.error, GnsSetupError::BindFailed);
    // Nothing was created, so nothing is owed.
    assert!(failure.cleanup.is_empty());
}

#[test]
fn listen_poll_group_failure_cleans_up_listen_socket() {
    let mut slot = GnsGlobalSlot::new();
    let mut global = GnsGlobal::get(&mut slot, true, String::new()).unwrap();
    let queue_id = global.create_queue();

    // The listen socket came back valid, the poll group did not: the
    // error must name the listen socket for release — no partial leak.
    let failure = match GnsSocket::new().listen(&mut global, queue_id, 9, 0) {
        Err(f) => f,
        Ok(_) => panic!("an invalid poll group cannot make a server"),
    };
    assert_eq!(failure.error, GnsSetupError::BindFailed);
    assert_eq!(
        failure.cleanup,
        vec![EngineAction::CloseListenSocket(GnsListenSocket(9))]
    );
}

#[test]
fn connect_success_and_failure() {
    let mut slot = GnsGlobalSlot::new();
    let mut global = GnsGlobal::get(&mut slot, true, String::new()).unwrap();

    let queue_id = global.create_queue();
    let client = GnsSocket::new()
        .connect(&mut global, queue_id, 21)
        .map_err(|_| ())
        .expect("Failed to create client socket");
    assert_eq!(client.connection(), GnsConnection(21));

    let queue_id = global.create_queue();
    let failure = match GnsSocket::new().connect(&mut global, queue_id, 0) {
        Err(f) => f,
        Ok(_) => panic!("an invalid connection cannot make a client"),
    };
    assert_eq!(failure.error, GnsSetupError::ConnectFailed);
    assert!(failure.cleanup.is_empty());
}

#[test]
fn accept_passes_engine_verdict_through() {
    let mut slot = GnsGlobalSlot::new();
    let mut global = GnsGlobal::get(&mut slot, true, String::new()).unwrap();
    let queue_id = global.create_queue();
    let server = GnsSocket::new()
        .listen(&mut global, queue_id, 4, 7)
        .map_err(|_| ())
        .unwrap();

    // Successful accept (and successful poll-group bind).
    assert!(server.accept(GnsConnection(33), EResult::ok(), true).is_ok());

    // The engine refused the accept: its code comes back verbatim.
    let refused = server.accept(GnsConnection(33), EResult(2), false);
    assert_eq!(refused, Err(EResult(2)));
}

#[test]
fn destroy_releases_resources_in_fixed_order() {
    let mut slot = GnsGlobalSlot::new();
    let mut global = GnsGlobal::get(&mut slot, true, String::new()).unwrap();

    let queue_id = global.create_queue();
    let server = GnsSocket::new()
        .listen(&mut global, queue_id, 4, 7)
        .map_err(|_| ())
        .unwrap();
    let actions = server.destroy(&mut global);
    assert_eq!(
        actions,
        vec![
            EngineAction::CloseListenSocket(GnsListenSocket(4)),
            EngineAction::DestroyPollGroup(GnsPollGroup(7)),
        ],
        "poll group must be destroyed after the listen socket"
    );

    let queue_id = global.create_queue();
    let client = GnsSocket::new()
        .connect(&mut global, queue_id, 21)
        .map_err(|_| ())
        .unwrap();
    let actions = client.destroy(&mut global);
    assert_eq!(actions, vec![EngineAction::CloseConnection(GnsConnection(21))]);
}

fn transition_event(
    queue_id: u64,
    conn: u32,
    old_state: GnsConnectionState,
    new_state: GnsConnectionState,
) -> GnsConnectionEvent {
    GnsConnectionEvent {
        old_state,
        connection: GnsConnection(conn),
        info: GnsConnectionInfo {
            state: new_state,
            user_data: queue_id,
            ..GnsConnectionInfo::default()
        },
    }
}

#[test]
fn dropped_client_surfaces_as_closed_by_peer_event() {
    let mut slot = GnsGlobalSlot::new();
    let mut global = GnsGlobal::get(&mut slot, true, String::new()).unwrap();
    let queue_id = global.create_queue();
    let server = GnsSocket::new()
        .listen(&mut global, queue_id, 4, 7)
        .map_err(|_| ())
        .unwrap();

    // The peer's socket went away mid-connection; the engine raises the
    // transition through its callback dispatch.
    global.poll_callbacks(vec![transition_event(
        queue_id,
        33,
        GnsConnectionState::Connected,
        GnsConnectionState::ClosedByPeer,
    )]);

    let events = server.poll_event(&mut global, 100);
    assert_eq!(events.len(), 1);
    assert_eq!(events[0].old_state(), GnsConnectionState::Connected);
    assert_eq!(events[0].info().state(), GnsConnectionState::ClosedByPeer);
    assert_eq!(events[0].connection(), GnsConnection(33));
}
