//! Verified core of a two-party escrow and reputation system.
//!
//! Two ledger-resident state machines coordinate payment custody and
//! reputation scoring between a client and an agent without a trusted
//! intermediary:
//!
//! - the escrow engine ([`escrow`]) owns the lifecycle of a single payment
//!   held in custody, released or refunded under time- and
//!   authorization-gated rules;
//! - the reputation engine ([`reputation`]) owns an agent profile whose
//!   bounded score is mutated by peer attestations and task outcomes under
//!   anti-abuse constraints.
//!
//! The hosting ledger runtime is an external collaborator: it stores the
//! records durably, authenticates the signer of each request, provides the
//! wall clock, and performs the custodial asset transfers. This library
//! takes those inputs as plain values (the authenticated signer identity,
//! the clock reading `now`, the bump seed of a derived address) and states
//! and proves exactly which transitions are legal, who may trigger them,
//! and how every derived value is computed.

pub mod escrow;
pub mod ident;
pub mod reputation;
pub mod token;
