//! The counter ledger record and its four operations.
//!
//! A record holds a single `u64` count. Increment and decrement check the
//! bounds and fail rather than wrap; set assigns unconditionally; initialize
//! refuses a location that is already occupied. Every failing operation
//! leaves its record exactly as it was.

use vstd::prelude::*;

verus! {

/// The persisted counter record: a single 64-bit unsigned count.
#[derive(Clone, Copy, Debug, PartialEq, Eq, Structural)]
pub struct Counter {
    pub count: u64,
}

/// Why an operation was refused. Every failure aborts the whole mutation:
/// the record keeps the value it had before the call.
#[derive(Clone, Copy, Debug, PartialEq, Eq, Structural)]
pub enum CounterError {
    /// Initialize found a record already occupying the target location.
    AlreadyExists,
    /// Increment found the count at `u64::MAX`.
    Overflow,
    /// Decrement found the count at zero.
    Underflow,
}

/// Holds when a storage location contains a record with the given count.
pub open spec fn stores(slot: Option<Counter>, n: u64) -> bool {
    slot matches Some(c) && c.count == n
}

/// Creates the record at a fresh location with `count == 0`; a location
/// that already holds a record is refused unchanged.
pub fn initialize(slot: &mut Option<Counter>) -> (r: Result<(), CounterError>)
    ensures
        *old(slot) is None ==> r is Ok && stores(*final(slot), 0),
        *old(slot) is Some ==> r == Err::<(), CounterError>(CounterError::AlreadyExists)
            && *final(slot) == *old(slot),
{
    match slot {
        None => {
            *slot = Some(Counter { count: 0 });
            Ok(())
        }
        Some(_) => Err(CounterError::AlreadyExists),
    }
}

/// Adds one to the count; a count already at `u64::MAX` is refused unchanged.
pub fn increment(counter: &mut Counter) -> (r: Result<(), CounterError>)
    ensures
        old(counter).count < u64::MAX ==> r is Ok
            && final(counter).count == old(counter).count + 1,
        old(counter).count == u64::MAX ==> r == Err::<(), CounterError>(CounterError::Overflow)
            && *final(counter) == *old(counter),
{
    match counter.count.checked_add(1) {
        Some(next) => {
            counter.count = next;
            Ok(())
        }
        None => Err(CounterError::Overflow),
    }
}

/// Subtracts one from the count; a count of zero is refused unchanged.
pub fn decrement(counter: &mut Counter) -> (r: Result<(), CounterError>)
    ensures
        old(counter).count > 0 ==> r is Ok
            && final(counter).count == old(counter).count - 1,
        old(counter).count == 0 ==> r == Err::<(), CounterError>(CounterError::Underflow)
            && *final(counter) == *old(counter),
{
    match counter.count.checked_sub(1) {
        Some(next) => {
            counter.count = next;
            Ok(())
        }
        None => Err(CounterError::Underflow),
    }
}

/// Assigns the given count unconditionally, whatever the prior value.
pub fn set(counter: &mut Counter, new_count: u64) -> (r: Result<(), CounterError>)
    ensures
        r is Ok,
        final(counter).count == new_count,
{
    counter.count = new_count;
    Ok(())
}

} // verus!
