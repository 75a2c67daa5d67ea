//! The mining target that the upstream hands to the proxy.
//!
//! The target is 32 bytes. Until the upstream has supplied one, the shared
//! cell holds 32 zero bytes, and nothing that needs a target may be built.

use crate::bindings::{guard, guard_target, initial_target, snapshot_under_lock};
use roles_logic_sv2::utils::Mutex;
use std::sync::Arc;
use vstd::prelude::*;

verus! {

/// The number of bytes of a mining target.
pub const TARGET_LEN: usize = 32;

/// Every byte of `bytes` is zero: the value that stands for "no target yet".
pub open spec fn is_sentinel(bytes: Seq<u8>) -> bool {
    forall|i: int| 0 <= i < bytes.len() ==> bytes[i] == 0u8
}

/// What one look at the target cell showed.
#[derive(Clone, Copy, Debug, PartialEq, Eq)]
pub enum TargetReading {
    /// The cell holds a real target.
    Ready([u8; 32]),
    /// The cell still holds the all-zero sentinel.
    Pending,
    /// The cell could not be read, or does not hold 32 bytes.
    Unreadable,
}

/// The value a fresh target cell starts with: 32 zero bytes.
pub fn sentinel_target() -> (bytes: Vec<u8>)
    ensures
        bytes@.len() == TARGET_LEN,
        is_sentinel(bytes@),
{
    let mut bytes: Vec<u8> = Vec::new();
    while bytes.len() < TARGET_LEN
        invariant
            bytes@.len() <= TARGET_LEN,
            is_sentinel(bytes@),
        decreases TARGET_LEN - bytes@.len(),
    {
        bytes.push(0u8);
    }
    bytes
}

/// A copy of `bytes`. Runs under the target cell's lock.
pub fn copy_bytes(bytes: &Vec<u8>) -> (copy: Vec<u8>)
    ensures
        copy@ == bytes@,
{
    bytes.clone()
}

/// Whether `bytes` is all zero.
pub fn all_zero(bytes: &Vec<u8>) -> (zero: bool)
    ensures
        zero == is_sentinel(bytes@),
{
    let mut i: usize = 0;
    while i < bytes.len()
        invariant
            i <= bytes@.len(),
            forall|j: int| 0 <= j < i ==> bytes@[j] == 0u8,
        decreases bytes@.len() - i,
    {
        if bytes[i] != 0u8 {
            return false;
        }
        i = i + 1;
    }
    true
}

/// Whether the 32 bytes of `target` are all zero.
pub fn is_unset(target: &[u8; 32]) -> (unset: bool)
    ensures
        unset == is_sentinel(target@),
{
    let mut i: usize = 0;
    while i < TARGET_LEN
        invariant
            i <= TARGET_LEN,
            target@.len() == TARGET_LEN,
            forall|j: int| 0 <= j < i ==> target@[j] == 0u8,
        decreases TARGET_LEN - i,
    {
        if target[i] != 0u8 {
            return false;
        }
        i = i + 1;
    }
    true
}

/// Judges a snapshot of the target cell.
///
/// A snapshot that is missing or is not 32 bytes long is `Unreadable`; 32 zero
/// bytes are `Pending`; anything else is `Ready` with exactly those bytes.
pub fn interpret_snapshot(snapshot: Option<Vec<u8>>) -> (reading: TargetReading)
    ensures
        match snapshot {
            None => reading == TargetReading::Unreadable,
            Some(v) => if v@.len() != TARGET_LEN {
                reading == TargetReading::Unreadable
            } else if is_sentinel(v@) {
                reading == TargetReading::Pending
            } else {
                reading matches TargetReading::Ready(a) && a@ == v@
            },
        },
{
    match snapshot {
        None => TargetReading::Unreadable,
        Some(v) => {
            if v.len() != TARGET_LEN {
                TargetReading::Unreadable
            } else if all_zero(&v) {
                TargetReading::Pending
            } else {
                let mut a: [u8; 32] = [0u8; 32];
                let mut i: usize = 0;
                while i < TARGET_LEN
                    invariant
                        i <= TARGET_LEN,
                        v@.len() == TARGET_LEN,
                        forall|j: int| 0 <= j < i ==> a@[j] == v@[j],
                    decreases TARGET_LEN - i,
                {
                    a[i] = v[i];
                    i = i + 1;
                }
                assert(a@ =~= v@);
                TargetReading::Ready(a)
            }
        },
    }
}

/// Puts `value` behind a lock and shares it: the cell for a value that one
/// task writes and others read.
pub fn share<T>(value: T) -> (cell: Arc<Mutex<T>>) {
    Arc::new(guard(value))
}

/// A fresh target cell. It holds the sentinel until the upstream supplies a
/// target.
pub fn new_target_cell() -> (cell: Arc<Mutex<Vec<u8>>>)
    ensures
        initial_target(*cell).len() == TARGET_LEN,
        is_sentinel(initial_target(*cell)),
{
    Arc::new(guard_target(sentinel_target()))
}

/// Looks at the target cell once and judges what it finds as [`interpret_snapshot`] does.
pub fn read_target(cell: &Arc<Mutex<Vec<u8>>>) -> (reading: TargetReading)
    ensures
        reading matches TargetReading::Ready(target) ==> !is_sentinel(target@),
{
    // Another task writes the cell, so what is found cannot be foretold. Whatever
    // it is, a reading is `Ready` only with a target that is not the sentinel.
    interpret_snapshot(snapshot_under_lock(cell))
}

} // verus!
