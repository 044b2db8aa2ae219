//! Core of a copy-trading engine for a decentralized exchange.
//!
//! The engine watches a stream of transaction notifications, extracts a
//! structured trade event from each raw message, decides whether and how to
//! mirror the observed trade for a subscribed user, and accounts for every
//! successfully dispatched copy trade in a per-user usage ledger with a fixed
//! quota.
//!
//! All monetary quantities are fixed-point integers: native-currency amounts
//! are in lamports (10^-9 of the native unit) and token amounts are in
//! billionths of a token, so the sizing arithmetic is exact and free of
//! floating point.
//!
//! I/O lives outside this crate: the stream connection, the persisted user
//! store, the swap executor and the notification sink are external
//! collaborators. They hand plain values in and take plain values back.

pub mod address;
pub mod dispatch;
pub mod ledger;
pub mod monitor;
pub mod session;
pub mod swap;
pub mod users;
