//! A resumable, chunked upload ledger.
//!
//! A session is made of two records: a control record that tracks how much of a
//! payload has been written and who may write it, and a data record that holds
//! the payload itself in a buffer of fixed capacity. A session is opened with
//! [`protocol::initialize`], grown chunk by chunk with [`protocol::process`],
//! and [`protocol::transfer`] is declared but not implemented.
pub mod address;
pub mod laws;
pub mod protocol;
pub mod state;
