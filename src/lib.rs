//! Fund-safe route probing for a payment-channel network.
//!
//! A probe resolves a target (a node identifier or an invoice), sends a payment
//! attempt locked to a hash that nobody can redeem, and reads the terminal
//! status of that attempt: the destination is reachable exactly when the final
//! node rejects the attempt for unknown payment details.
pub mod attempt;
pub mod channels;
pub mod codes;
pub mod features;
pub mod outcome;
pub mod pubkey;
pub mod secret;
pub mod session;
pub mod target;
