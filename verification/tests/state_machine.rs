//! Tests of the connection-state machine, driven with plain stand-ins for
//! the transport handle and the backend descriptor.

use reconnecting_connection::state::{
    available_handle, dispatch_after_send, get_db, install_connected, trigger_reconnect,
    ConnectionState,
};
use reconnecting_connection::DB_SENTINEL;

fn connected(handle: u64, db: i64, backend: u32) -> ConnectionState<u64, u32> {
    ConnectionState::Connected {
        handle,
        db,
        backend,
    }
}

fn reconnecting(backend: u32) -> ConnectionState<u64, u32> {
    ConnectionState::Reconnecting { backend }
}

#[test]
fn trigger_from_connected_starts_rebuild() {
    let (state, spawn) = trigger_reconnect(connected(7, 3, 9));
    assert!(spawn);
    assert!(matches!(
        state,
        ConnectionState::Reconnecting { backend: 9 }
    ));
}

#[test]
fn trigger_from_reconnecting_is_noop() {
    let (state, spawn) = trigger_reconnect(reconnecting(9));
    assert!(!spawn);
    assert!(matches!(
        state,
        ConnectionState::Reconnecting { backend: 9 }
    ));
}

#[test]
fn single_flight_per_drop_episode() {
    // Many callers observe the same drop and all ask for a rebuild; only the
    // first finds the cell Connected, so exactly one rebuild is started.
    let mut state = connected(7, 3, 9);
    let mut rebuilds_started = 0;
    for _ in 0..10 {
        let (next, spawn) = trigger_reconnect(state);
        if spawn {
            rebuilds_started += 1;
        }
        state = next;
    }
    assert_eq!(rebuilds_started, 1);
}

#[test]
fn recovery_installs_the_new_handle() {
    let (dropped, _) = trigger_reconnect(connected(7, 3, 9));
    let recovered = install_connected(dropped, 8, 4);
    assert_eq!(available_handle(&recovered), Some(&8));
    assert_eq!(get_db(&recovered), 4);
    // The backend descriptor survived the whole episode.
    assert!(matches!(
        recovered,
        ConnectionState::Connected { backend: 9, .. }
    ));
}

#[test]
fn get_db_reports_index_or_sentinel() {
    assert_eq!(get_db(&connected(7, 3, 9)), 3);
    assert_eq!(get_db(&reconnecting(9)), DB_SENTINEL);
    assert_eq!(get_db(&reconnecting(9)), -1);
}

#[test]
fn dispatch_triggers_only_on_dropped_connection() {
    let (state, spawn) = dispatch_after_send(connected(7, 3, 9), true);
    assert!(spawn);
    assert!(matches!(state, ConnectionState::Reconnecting { .. }));

    let (state, spawn) = dispatch_after_send(connected(7, 3, 9), false);
    assert!(!spawn);
    assert_eq!(available_handle(&state), Some(&7));

    let (state, spawn) = dispatch_after_send(reconnecting(9), true);
    assert!(!spawn);
    assert!(matches!(state, ConnectionState::Reconnecting { .. }));

    let (state, spawn) = dispatch_after_send(reconnecting(9), false);
    assert!(!spawn);
    assert!(matches!(state, ConnectionState::Reconnecting { .. }));
}

#[test]
fn waiters_see_no_handle_while_rebuilding() {
    assert_eq!(available_handle(&reconnecting(9)), None);
}
