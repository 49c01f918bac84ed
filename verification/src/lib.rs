//! Core of a certificate registry: the record of a priced, owned claim and
//! the three operations that issue it, trade it and change its price.
//!
//! The host authenticates the callers, keeps the records and moves the
//! money. This crate decides: `program` holds the operations on a loaded
//! certificate, `registry` the same operations on what the record store
//! holds, and `laws` what is true of them on every input.
//!
//! A trade is taken in steps, because the payment lies between its checks
//! and the change of owner. The host asks with `TradeEvent::Requested`,
//! carries out the payment that the answer orders, and reports how it ended;
//! the owner changes on `TradeEvent::PaymentSettled` and on nothing else.
#![allow(unused_variables)]

pub mod certificate;
pub mod error;
pub mod identity;
pub mod index;
pub mod laws;
pub mod payment;
pub mod program;
pub mod registry;
