//! A minimal counter ledger: one record holding a 64-bit unsigned count,
//! mutated by four atomic operations (initialize, increment, decrement, set).
//! Every operation either applies fully or fails with a named error and
//! leaves the record untouched.

pub mod ledger;
