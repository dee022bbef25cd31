//! The connection-state machine.
//!
//! One logical client holds a single cell with a `ConnectionState` value,
//! guarded by a lock, and a signal that waiters block on while a
//! rebuild is underway. Every transition of the cell is decided by a
//! function of this module, applied while the embedding holds the lock: the
//! embedding supplies the transport handle (`H`) and the shared backend
//! descriptor (`B`) as opaque values and performs the waiting, spawning and
//! sending around these decisions.

use vstd::prelude::*;
use crate::DB_SENTINEL;

verus! {

/// The state of one logical connection: either a usable transport exists,
/// or a rebuild is in progress or about to start. `handle` is the transport,
/// `db` its configured database index, and `backend` the shared descriptor
/// (locator plus signal) that survives every rebuild.
pub enum ConnectionState<H, B> {
    Connected { handle: H, db: i64, backend: B },
    Reconnecting { backend: B },
}

/// Whether a usable transport is currently installed.
pub open spec fn is_connected<H, B>(s: ConnectionState<H, B>) -> bool {
    s is Connected
}

/// The shared backend descriptor, present in every variant.
pub open spec fn backend_of<H, B>(s: ConnectionState<H, B>) -> B {
    match s {
        ConnectionState::Connected { backend, .. } => backend,
        ConnectionState::Reconnecting { backend } => backend,
    }
}

/// The installed transport handle, if one exists.
pub open spec fn connected_handle<H, B>(s: ConnectionState<H, B>) -> Option<H> {
    match s {
        ConnectionState::Connected { handle, .. } => Some(handle),
        ConnectionState::Reconnecting { .. } => None,
    }
}

/// The database index a reader of the cell observes: the configured index of
/// the installed transport, or the sentinel while a rebuild is underway.
pub open spec fn db_of<H, B>(s: ConnectionState<H, B>) -> i64 {
    match s {
        ConnectionState::Connected { db, .. } => db,
        ConnectionState::Reconnecting { .. } => DB_SENTINEL,
    }
}

/// The state after a caller asks for a rebuild: always `Reconnecting`, with
/// the backend carried over.
pub open spec fn after_trigger<H, B>(s: ConnectionState<H, B>) -> ConnectionState<H, B> {
    ConnectionState::Reconnecting { backend: backend_of(s) }
}

/// Whether asking for a rebuild in state `s` starts one: only the caller
/// that finds the cell still `Connected` does; everyone else finds the
/// rebuild already underway and must not start another.
pub open spec fn trigger_spawns<H, B>(s: ConnectionState<H, B>) -> bool {
    is_connected(s)
}

/// The state after a rebuild delivers a fresh transport: `Connected` with
/// the new handle and index, the backend unchanged.
pub open spec fn install_spec<H, B>(s: ConnectionState<H, B>, handle: H, db: i64) -> ConnectionState<H, B> {
    ConnectionState::Connected { handle, db, backend: backend_of(s) }
}

/// Whether the signal must be open for state `s`: open exactly while a
/// transport is installed, closed exactly while a rebuild is underway.
pub open spec fn signal_open_for<H, B>(s: ConnectionState<H, B>) -> bool {
    is_connected(s)
}

/// Decides the `Connected -> Reconnecting` transition for a caller that
/// observed a dropped connection. Returns the new cell contents and whether
/// this caller must close the signal and spawn the (single) rebuild task; when
/// the cell is already `Reconnecting`, the call is a no-op and nothing may
/// be spawned.
pub fn trigger_reconnect<H, B>(s: ConnectionState<H, B>) -> (r: (ConnectionState<H, B>, bool))
    ensures
        r.0 == after_trigger(s),
        r.1 == trigger_spawns(s),
{
    match s {
        ConnectionState::Connected { handle: _, db: _, backend } => {
            (ConnectionState::Reconnecting { backend }, true)
        }
        ConnectionState::Reconnecting { backend } => {
            (ConnectionState::Reconnecting { backend }, false)
        }
    }
}

/// Decides the `Reconnecting -> Connected` transition once the rebuild task
/// has a fresh transport in hand: the new handle and its configured index go
/// in, the backend is carried over, and the signal must be opened.
pub fn install_connected<H, B>(s: ConnectionState<H, B>, handle: H, db: i64) -> (r: ConnectionState<H, B>)
    ensures
        r == install_spec(s, handle, db),
{
    match s {
        ConnectionState::Connected { handle: _, db: _, backend } => {
            ConnectionState::Connected { handle, db, backend }
        }
        ConnectionState::Reconnecting { backend } => {
            ConnectionState::Connected { handle, db, backend }
        }
    }
}

/// Decides what dispatch does after a send came back: a failure classified
/// as connection-dropped asks for a rebuild (the error itself is returned to
/// the caller untouched, never retried here); any other outcome leaves the
/// cell exactly as it was and spawns nothing.
pub fn dispatch_after_send<H, B>(s: ConnectionState<H, B>, connection_dropped: bool) -> (r: (
    ConnectionState<H, B>,
    bool,
))
    ensures
        connection_dropped ==> r.0 == after_trigger(s) && r.1 == trigger_spawns(s),
        !connection_dropped ==> r.0 == s && !r.1,
{
    if connection_dropped {
        trigger_reconnect(s)
    } else {
        (s, false)
    }
}

/// The non-blocking, best-effort read of the configured database index:
/// the installed transport's index, or the sentinel while rebuilding.
pub fn get_db<H, B>(s: &ConnectionState<H, B>) -> (r: i64)
    ensures
        r == db_of(*s),
{
    match s {
        ConnectionState::Connected { db, .. } => *db,
        ConnectionState::Reconnecting { .. } => DB_SENTINEL,
    }
}

/// Decides the get-connection protocol for one look at the cell: hand out
/// the installed transport, or report that the caller must release the lock
/// and wait on the signal, then look again.
pub fn available_handle<H, B>(s: &ConnectionState<H, B>) -> (r: Option<&H>)
    ensures
        r is Some <==> is_connected(*s),
        r matches Some(h) ==> connected_handle(*s) == Some(*h),
{
    match s {
        ConnectionState::Connected { handle, .. } => Some(handle),
        ConnectionState::Reconnecting { .. } => None,
    }
}

/// Law — single-flight reconnection: asking for a rebuild leaves the cell
/// `Reconnecting`; a rebuild is started exactly when the cell was still
/// `Connected`; and once the cell is `Reconnecting`, any further trigger of
/// the same episode changes nothing and starts nothing, however many callers
/// observed the same drop.
pub proof fn lemma_single_flight<H, B>(s: ConnectionState<H, B>)
    ensures
        after_trigger(s) is Reconnecting,
        trigger_spawns(s) == is_connected(s),
        !trigger_spawns(after_trigger(s)),
        after_trigger(after_trigger(s)) == after_trigger(s),
{
}

/// The state after `k` successive rebuild requests hit the cell.
pub open spec fn after_triggers<H, B>(s: ConnectionState<H, B>, k: nat) -> ConnectionState<H, B>
    decreases k,
{
    if k == 0 {
        s
    } else {
        after_trigger(after_triggers(s, (k - 1) as nat))
    }
}

/// How many of `k` successive rebuild requests start a rebuild task.
pub open spec fn spawns_among<H, B>(s: ConnectionState<H, B>, k: nat) -> nat
    decreases k,
{
    if k == 0 {
        0
    } else if trigger_spawns(after_triggers(s, (k - 1) as nat)) {
        spawns_among(s, (k - 1) as nat) + 1
    } else {
        spawns_among(s, (k - 1) as nat)
    }
}

proof fn lemma_triggers_stay_reconnecting<H, B>(s: ConnectionState<H, B>, k: nat)
    requires
        k >= 1,
    ensures
        after_triggers(s, k) is Reconnecting,
    decreases k,
{
    if k > 1 {
        lemma_triggers_stay_reconnecting(s, (k - 1) as nat);
    }
}

/// Law — one drop episode, many callers: however many rebuild requests hit
/// the cell in succession, only the first to find it `Connected` starts a
/// task. An episode that begins `Connected` starts exactly one; one that
/// begins `Reconnecting` starts none.
pub proof fn lemma_single_flight_episode<H, B>(s: ConnectionState<H, B>, k: nat)
    requires
        k >= 1,
    ensures
        spawns_among(s, k) == if is_connected(s) {
            1nat
        } else {
            0nat
        },
    decreases k,
{
    if k > 1 {
        lemma_single_flight_episode(s, (k - 1) as nat);
        lemma_triggers_stay_reconnecting(s, (k - 1) as nat);
    } else {
        assert(after_triggers(s, 0) == s);
        assert(spawns_among(s, 0) == 0);
    }
}

/// Law — recovery: after a drop is triggered and the rebuild installs a
/// fresh transport, the cell is `Connected` again, hands out exactly the new
/// handle, reports the new configured index, and still holds the same
/// backend descriptor as before the whole episode.
pub proof fn lemma_recovery<H, B>(s: ConnectionState<H, B>, handle: H, db: i64)
    ensures
        is_connected(install_spec(after_trigger(s), handle, db)),
        connected_handle(install_spec(after_trigger(s), handle, db)) == Some(handle),
        db_of(install_spec(after_trigger(s), handle, db)) == db,
        backend_of(install_spec(after_trigger(s), handle, db)) == backend_of(s),
{
}

/// Law — signal pairing: if the signal is open exactly when the cell is
/// `Connected`, and the one caller whose trigger starts the rebuild closes
/// it, the pairing holds after the trigger; and it holds again after a
/// rebuild installs a transport with the signal opened in the same locked
/// section. No interleaving of these transitions breaks the pairing.
pub proof fn lemma_signal_pairing<H, B>(s: ConnectionState<H, B>, open: bool, handle: H, db: i64)
    requires
        open == signal_open_for(s),
    ensures
        signal_open_for(after_trigger(s)) == (if trigger_spawns(s) { false } else { open }),
        signal_open_for(install_spec(s, handle, db)),
{
}

} // verus!
