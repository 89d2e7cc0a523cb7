//! The session record behind a lock: one writer, and observers on other
//! threads.

use vstd::prelude::*;
use std::sync::Arc;
use std::sync::Mutex;
use crate::state::AppState;

verus! {

/// `std::sync::Mutex`, carried through as it is.
#[verifier::external_type_specification]
#[verifier::external_body]
#[verifier::reject_recursive_types(T)]
pub struct ExMutex<T: ?Sized>(Mutex<T>);

/// `Mutex::new`. Nothing is claimed of the lock it returns.
pub assume_specification<T>[ Mutex::<T>::new ](value: T) -> Mutex<T>;

/// Calls `Mutex::lock` and reads the record. Returns `None` where the lock is
/// poisoned. Nothing is claimed of the value read: it is what was written
/// last, on whatever thread.
#[verifier::external_body]
fn locked_read(cell: &Mutex<AppState>) -> Option<bool> {
    match cell.lock() {
        Ok(record) => Some(record.remapping_enabled),
        Err(_) => None,
    }
}

/// Calls `Mutex::lock` and writes the record. Returns `false`, with nothing
/// written, where the lock is poisoned.
#[verifier::external_body]
fn locked_write(cell: &Mutex<AppState>, active: bool) -> bool {
    match cell.lock() {
        Ok(mut record) => {
            record.remapping_enabled = active;
            true
        },
        Err(_) => false,
    }
}

/// What an observer shows for a reading of the record: the value read, and
/// "inactive" where the read failed.
pub fn flag_or_default(reading: Option<bool>) -> (r: bool)
    ensures
        r == match reading {
            Some(active) => active,
            None => false,
        },
{
    match reading {
        Some(active) => active,
        None => false,
    }
}

/// The writing end of the shared session record. There is one for each
/// record, and it remembers what it set last. The lock is held only while
/// the flag is written.
pub struct SharedSession {
    cell: Arc<Mutex<AppState>>,
    record: AppState,
}

/// A reading end of the shared session record. The lock is held only while
/// the flag is read.
pub struct SessionObserver {
    cell: Arc<Mutex<AppState>>,
}

impl View for SharedSession {
    type V = AppState;

    /// The record as it was last set.
    closed spec fn view(&self) -> AppState {
        self.record
    }
}

impl SharedSession {
    /// The shared record that this end writes.
    pub closed spec fn cell(&self) -> Arc<Mutex<AppState>> {
        self.cell
    }

    /// A new record, set to "inactive".
    pub fn new() -> (r: Self)
        ensures
            r@ == (AppState { remapping_enabled: false }),
    {
        let record = AppState { remapping_enabled: false };
        SharedSession { cell: Arc::new(Mutex::new(record)), record }
    }

    /// A reading end for this record.
    pub fn observer(&self) -> (r: SessionObserver)
        ensures
            r.cell() == self.cell(),
    {
        SessionObserver { cell: self.cell.clone() }
    }

    /// The record as it was last set.
    pub fn last_set(&self) -> (r: AppState)
        ensures
            r == self@,
    {
        self.record
    }

    /// Sets the flag for all observers. Returns whether the shared record
    /// took it: it does not where its lock is poisoned.
    pub fn set(&mut self, active: bool) -> (written: bool)
        ensures
            final(self)@ == (AppState { remapping_enabled: active }),
            final(self).cell() == old(self).cell(),
    {
        self.record = AppState { remapping_enabled: active };
        locked_write(&self.cell, active)
    }
}

impl SessionObserver {
    /// The shared record that this end reads.
    pub closed spec fn cell(&self) -> Arc<Mutex<AppState>> {
        self.cell
    }

    /// Another reading end for the same record.
    pub fn another(&self) -> (r: SessionObserver)
        ensures
            r.cell() == self.cell(),
    {
        SessionObserver { cell: self.cell.clone() }
    }

    /// Reads the flag. `None` where the read failed.
    pub fn read(&self) -> Option<bool> {
        locked_read(&self.cell)
    }

    /// Reads the flag, taking a failed read for "inactive".
    pub fn get(&self) -> bool {
        flag_or_default(self.read())
    }
}

} // verus!
