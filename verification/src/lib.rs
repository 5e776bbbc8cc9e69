//! Deterministic state-transition core of a blockchain node.
//!
//! The crate composes independently written modules into one dispatchable
//! surface with stable discriminants ([`registry`]), assigns every
//! transaction a deterministic cost ([`weights`]), and drives the per-block
//! lifecycle of initialising, applying extrinsics and finalising
//! ([`executive`]) behind a versioned set of entry points ([`runtime`],
//! [`version`]).
//!
//! Everything that depends on chain state or on cryptography (account
//! lookup, signature checks, the modules' own business logic, hashing) is
//! reached through the [`host::Host`] handle that callers thread through
//! every entry point. What the runtime guarantees, it guarantees whatever
//! the host answers.

pub mod primitives;
pub mod codec;
pub mod weights;
pub mod registry;
pub mod extrinsic;
pub mod digest;
pub mod block;
pub mod inherent;
pub mod host;
pub mod executive;
pub mod version;
pub mod currency;
pub mod runtime;
