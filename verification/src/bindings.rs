//! The items of other crates that the supervisor builds on.
//!
//! Nothing in this file is proved. Each type is declared so that it can be
//! carried through verified code without being looked into, and each function
//! makes one call whose contract is taken from the other crate's source.

use std::sync::Arc;
use vstd::prelude::*;

verus! {

/// The sending half of a queue of `async_channel`. Nothing is known of what it holds.
#[verifier::external_type_specification]
#[verifier::external_body]
#[verifier::reject_recursive_types(T)]
pub struct ExQueueSender<T>(async_channel::Sender<T>);

/// The receiving half of a queue of `async_channel`. Nothing is known of what it holds.
#[verifier::external_type_specification]
#[verifier::external_body]
#[verifier::reject_recursive_types(T)]
pub struct ExQueueReceiver<T>(async_channel::Receiver<T>);

/// The sending half of a broadcast channel of `tokio`. Nothing is known of what it holds.
#[verifier::external_type_specification]
#[verifier::external_body]
#[verifier::reject_recursive_types(T)]
pub struct ExBroadcastSender<T>(tokio::sync::broadcast::Sender<T>);

/// A receiving handle of a broadcast channel of `tokio`. Nothing is known of what it holds.
#[verifier::external_type_specification]
#[verifier::external_body]
#[verifier::reject_recursive_types(T)]
pub struct ExBroadcastReceiver<T>(tokio::sync::broadcast::Receiver<T>);

/// The lock of `roles_logic_sv2` that guards a value shared between tasks.
#[verifier::external_type_specification]
#[verifier::external_body]
#[verifier::reject_recursive_types(T)]
pub struct ExGuarded<T: ?Sized>(roles_logic_sv2::utils::Mutex<T>);

/// The running pool of `pool_sv2`, with its table of downstream connections.
#[verifier::external_type_specification]
#[verifier::external_body]
pub struct ExPool(pool_sv2::mining_pool::Pool);

/// The most slots a bounded channel is ever opened with here.
pub const MAX_SLOTS: usize = 1024;

/// Calls `async_channel::bounded`, which makes a queue that holds at most
/// `slots` messages. It panics when `slots` is zero and allocates all slots at
/// once, which is why their number is kept small. The two halves are opaque,
/// so the contract says nothing of them.
#[verifier::external_body]
pub(crate) fn bounded_pair<T>(slots: usize) -> (ends: (
    async_channel::Sender<T>,
    async_channel::Receiver<T>,
))
    requires
        1 <= slots <= MAX_SLOTS,
{
    async_channel::bounded(slots)
}

/// Calls `async_channel::unbounded`, which makes a queue without a limit.
#[verifier::external_body]
pub(crate) fn unbounded_pair<T>() -> (ends: (
    async_channel::Sender<T>,
    async_channel::Receiver<T>,
)) {
    async_channel::unbounded()
}

/// Calls `tokio::sync::broadcast::channel`, which makes a broadcast channel
/// that keeps at least `slots` messages for a slow receiver. It panics when
/// `slots` is zero or above half of `usize::MAX` and allocates all slots at
/// once. The two halves are opaque, so the contract says nothing of them.
#[verifier::external_body]
pub(crate) fn broadcast_pair<T: Clone>(slots: usize) -> (ends: (
    tokio::sync::broadcast::Sender<T>,
    tokio::sync::broadcast::Receiver<T>,
))
    requires
        1 <= slots <= MAX_SLOTS,
{
    tokio::sync::broadcast::channel(slots)
}

/// Calls `Mutex::new` of `roles_logic_sv2`, which puts `value` behind a fresh
/// lock. What a lock of any type guards cannot be named here, so the contract
/// says nothing; for a target cell see [`guard_target`].
#[verifier::external_body]
pub(crate) fn guard<T>(value: T) -> (cell: roles_logic_sv2::utils::Mutex<T>) {
    roles_logic_sv2::utils::Mutex::new(value)
}

/// The bytes that a target cell was made with. Tasks that share the cell may
/// have written others since; of those nothing is said.
pub uninterp spec fn initial_target(cell: roles_logic_sv2::utils::Mutex<Vec<u8>>) -> Seq<u8>;

/// Calls `Mutex::new` of `roles_logic_sv2` for a target cell. `Mutex::new`
/// wraps a fresh lock of std around the value it is given, so the cell is
/// made with exactly these bytes.
#[verifier::external_body]
pub(crate) fn guard_target(bytes: Vec<u8>) -> (cell: roles_logic_sv2::utils::Mutex<Vec<u8>>)
    ensures
        initial_target(cell) == bytes@,
{
    roles_logic_sv2::utils::Mutex::new(bytes)
}

/// Calls `Mutex::safe_lock` of `roles_logic_sv2` on the target cell, with
/// [`copy_bytes`](crate::target::copy_bytes) as the work done under the lock.
/// `safe_lock` fails only when the lock is poisoned, which gives `None` here.
/// Another task may write the cell at any time, so nothing is promised of the
/// bytes.
#[verifier::external_body]
pub(crate) fn snapshot_under_lock(
    cell: &Arc<roles_logic_sv2::utils::Mutex<Vec<u8>>>,
) -> (bytes: Option<Vec<u8>>) {
    cell.safe_lock(|t| crate::target::copy_bytes(t)).ok()
}

/// The ids of the downstream connections in the pool's table.
pub uninterp spec fn pool_connections(pool: pool_sv2::mining_pool::Pool) -> Set<u32>;

/// `Pool::remove_downstream` of `pool_sv2` removes the entry with this id
/// from the pool's table of downstream connections, which is keyed by id.
/// Afterwards the table holds the ids it held before, but for this one.
pub assume_specification[ pool_sv2::mining_pool::Pool::remove_downstream ](
    pool: &mut pool_sv2::mining_pool::Pool,
    downstream_id: u32,
)
    ensures
        pool_connections(*final(pool)) == pool_connections(*old(pool)).remove(downstream_id),
;

/// Calls `Mutex::safe_lock` of `roles_logic_sv2` on the pool, with
/// [`forget_downstream`](crate::supervision::forget_downstream) as the work
/// done under the lock. `safe_lock` fails only when the lock is poisoned; the
/// result says whether it succeeded, which no caller can know beforehand.
#[verifier::external_body]
pub(crate) fn remove_under_lock(
    pool: &Arc<roles_logic_sv2::utils::Mutex<pool_sv2::mining_pool::Pool>>,
    id: u32,
) -> (removed: bool) {
    pool.safe_lock(|p| crate::supervision::forget_downstream(p, id)).is_ok()
}

} // verus!
