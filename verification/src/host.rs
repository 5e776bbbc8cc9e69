//! The handle through which the runtime reaches everything it does not
//! decide itself: chain state, cryptography and the modules' own logic.
//!
//! The runtime promises nothing about what a host answers. Whatever the
//! runtime guarantees, it guarantees for every host.

use crate::digest::LogPayload;
use crate::inherent::{InherentData, InherentObjection};
use crate::primitives::{
    AccountId, AccountIndex, BlockNumber, DispatchError, Nonce, Origin, Signature, H256,
};
use crate::registry::Call;
use vstd::prelude::*;

verus! {

/// The state of the chain and the modules that act on it.
pub trait Host {
    /// The account that a short alias stands for.
    fn lookup(&self, index: AccountIndex) -> Option<AccountId>;

    /// Whether `signature` is the signature of `signer` over `payload`.
    fn verify(&self, signer: &AccountId, signature: &Signature, payload: &Vec<u8>) -> bool;

    /// The nonce that the next transaction of `who` must carry.
    fn account_nonce(&self, who: &AccountId) -> Nonce;

    /// Whether `who` can pay the fee of a transaction of `len` encoded bytes.
    fn can_pay(&self, who: &AccountId, len: usize) -> bool;

    /// Takes the fee of a transaction of `len` encoded bytes from `who` and
    /// moves the account's nonce on.
    fn charge(&mut self, who: &AccountId, len: usize);

    /// Runs the call in the module that owns it.
    fn dispatch(&mut self, call: &Call, origin: &Origin) -> Result<(), DispatchError>;

    /// Runs the end-of-block hook of the module at position `module` and
    /// returns what the module leaves in the header digest.
    fn on_finalize(&mut self, module: u8, number: BlockNumber) -> Vec<LogPayload>;

    /// The root of the current state.
    fn state_root(&self) -> H256;

    /// The root of a list of encoded extrinsics.
    fn extrinsics_root(&self, extrinsics: &Vec<Vec<u8>>) -> H256;

    /// The inherent call that the module at position `module` makes from
    /// `data`, if it makes one.
    fn create_inherent(&self, module: u8, data: &InherentData) -> Option<Call>;

    /// What the module at position `module` objects to in an inherent call
    /// of its own, held against `data`.
    fn check_inherent(&self, module: u8, call: &Call, data: &InherentData) -> Option<
        InherentObjection,
    >;

    /// Runs the off-chain worker of the module at position `module`. The
    /// worker reads the chain state and cannot change it.
    fn offchain_worker(&self, module: u8, number: BlockNumber);
}

} // verus!
