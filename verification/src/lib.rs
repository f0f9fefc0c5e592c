//! A bridge between poll-driven futures and a host's promises, and the test
//! harness that is built on it.
//!
//! A promise settles once and calls back; a future is polled until it is
//! ready and asks to be woken in between. [`js_future`] holds the adapter
//! that makes a future of a promise, [`package`] the driver that makes a
//! promise of a future, and [`poll`] the values that pass between them.
//! Neither calls the host: each is a state machine that is told what happened
//! and answers with what is to be done, and [`js_future_laws`] and
//! [`package_laws`] prove what holds of every run of them.
//!
//! [`rt`] keeps the books of a test run and [`runner`] writes the scripts
//! that start one; [`text`] holds the operations on strings that both need.

pub mod js_future;
pub mod js_future_laws;
pub mod package;
pub mod package_laws;
pub mod poll;
pub mod rt;
pub mod runner;
pub mod text;
