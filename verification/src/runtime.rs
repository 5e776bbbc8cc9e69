//! The runtime as a host sees it: one value that offers the entry points of
//! the catalogue.
//!
//! Every entry point answers from the runtime's own books and from the
//! chain state behind the host handle, and from nothing else: the same
//! call on the same state gives the same answer.

use crate::block::{Block, Header};
use crate::digest::{
    digest_view, forced_change, is_first_log, no_log, pending_change, DigestItem, LogKind,
    LogPayloadView, ScheduledChange,
};
use crate::executive::{
    facts_fit, header_result, outcomes_result, ApplyError, ApplyOutcome, BlockError, Executive,
    Phase, SignerFacts, TransactionValidity,
};
use crate::extrinsic::{extrinsics_view, UncheckedExtrinsic};
use crate::host::Host;
use crate::inherent::{
    check_inherents, inherent_extrinsics, inherents_checked, inherents_from, inherents_made,
    CheckInherentsResult, InherentData,
};
use crate::primitives::BlockNumber;
use crate::registry::{CallView, Registry, RuntimeMetadata};
use crate::version::{node_version, version, RuntimeVersion};
use crate::weights::{BlockMeterView, Weight};
use vstd::prelude::*;

verus! {

/// A runtime: the executive of a set of modules, and the position of the
/// module, if there is one, whose digest items announce changes of the
/// authority set.
pub struct Runtime {
    pub executive: Executive,
    pub finality_module: Option<u8>,
}

impl Runtime {
    /// A runtime for the modules that `registry` describes, in which no
    /// block may accumulate more weight than `max_block_weight`.
    pub fn new(registry: Registry, max_block_weight: Weight, finality_module: Option<u8>) -> (runtime:
        Runtime)
        ensures
            runtime.executive@.registry == registry@,
            runtime.executive@.phase == Phase::Uninitialized,
            runtime.executive@.meter == (BlockMeterView {
                limit: max_block_weight,
                used: 0,
                max_applied: false,
            }),
            runtime.finality_module == finality_module,
    {
        Runtime { executive: Executive::new(registry, max_block_weight), finality_module }
    }

    /// The identity of the runtime.
    pub fn version(&self) -> (identity: RuntimeVersion)
        ensures
            identity@ == node_version(),
    {
        version()
    }

    /// A description of every module of the runtime, in registry order.
    pub fn metadata(&self) -> (description: RuntimeMetadata)
        ensures
            description@ == self.executive@.registry.metadata(),
    {
        self.executive.registry().metadata()
    }

    /// Starts a block with this header. Fails if a block is open.
    pub fn initialize_block(&mut self, header: &Header) -> (r: Result<(), BlockError>)
        ensures
            old(self).executive@.initializes(header@, r, final(self).executive@),
            final(self).finality_module == old(self).finality_module,
    {
        self.executive.initialize_block(header)
    }

    /// Applies an extrinsic to the open block. A rejected extrinsic
    /// changes neither the block nor the chain state.
    pub fn apply_extrinsic<H: Host>(&mut self, host: &mut H, xt: &UncheckedExtrinsic) -> (r:
        Result<ApplyOutcome, ApplyError>)
        ensures
            old(self).executive@.applies(xt@, r, final(self).executive@),
            r is Err ==> *final(host) == *old(host),
            final(self).finality_module == old(self).finality_module,
    {
        self.executive.apply_extrinsic(host, xt)
    }

    /// Finalises the open block and returns its header. Fails, and changes
    /// nothing, if no block is open.
    pub fn finalize_block<H: Host>(&mut self, host: &mut H) -> (r: Result<Header, BlockError>)
        ensures
            old(self).executive@.finalizes(header_result(r), final(self).executive@),
            r is Err ==> *final(host) == *old(host),
            final(self).finality_module == old(self).finality_module,
    {
        self.executive.finalize_block(host)
    }

    /// Runs a whole block and holds the header that this gives against the
    /// one the block declares. On success returns the outcome of every
    /// extrinsic.
    pub fn execute_block<H: Host>(&mut self, host: &mut H, block: &Block) -> (r: Result<
        Vec<ApplyOutcome>,
        BlockError,
    >)
        ensures
            old(self).executive@.executes(block@, outcomes_result(r), final(self).executive@),
            r == Err::<Vec<ApplyOutcome>, BlockError>(BlockError::AlreadyInitialized)
                ==> *final(host) == *old(host),
            final(self).finality_module == old(self).finality_module,
    {
        self.executive.execute_block(host, block)
    }

    /// Makes the inherents of a new block from the inherent data: the
    /// result is what the modules' answers become, one answer for each
    /// module, in registry order.
    pub fn inherent_extrinsics<H: Host>(&self, host: &H, data: &InherentData) -> (made: Vec<
        UncheckedExtrinsic,
    >)
        ensures
            exists|answers: Seq<Option<CallView>>|
                answers.len() == self.executive@.registry.modules.len()
                    && #[trigger] inherents_from(self.executive@.registry, answers)
                    == extrinsics_view(made@),
            inherents_made(self.executive@.registry, extrinsics_view(made@)),
    {
        inherent_extrinsics(self.executive.registry(), host, data)
    }

    /// Checks the inherents of a block against the inherent data.
    pub fn check_inherents<H: Host>(&self, host: &H, block: &Block, data: &InherentData) -> (result:
        CheckInherentsResult)
        ensures
            inherents_checked(self.executive@.registry, block@.extrinsics, result.reports@),
    {
        check_inherents(self.executive.registry(), host, block, data)
    }

    /// Says whether a transaction can be included in the next block,
    /// against the state as it is.
    pub fn validate_transaction<H: Host>(&self, host: &H, xt: &UncheckedExtrinsic) -> (validity:
        TransactionValidity)
        ensures
            exists|facts: SignerFacts| #[trigger]
                facts_fit(xt@, facts) && validity == self.executive@.validity(xt@, facts),
    {
        self.executive.validate_transaction(host, xt)
    }

    /// Runs the off-chain worker of every module, in registry order.
    pub fn offchain_worker<H: Host>(&self, host: &H, number: BlockNumber) {
        self.executive.offchain_worker(host, number)
    }

    /// The first change of the authority set that the finality module
    /// scheduled in this digest. A runtime without a finality module finds
    /// none.
    pub fn grandpa_pending_change<'a>(&self, digest: &'a Vec<DigestItem>) -> (found: Option<
        &'a ScheduledChange,
    >)
        ensures
            match (found, self.finality_module) {
                (Some(change), Some(module)) => exists|i: int|
                    {
                        &&& is_first_log(
                            digest_view(digest@),
                            module,
                            LogKind::AuthoritiesChange,
                            i,
                        )
                        &&& (#[trigger] digest_view(digest@)[i]).payload
                            == LogPayloadView::AuthoritiesChange(change@)
                    },
                (None, Some(module)) => no_log(
                    digest_view(digest@),
                    module,
                    LogKind::AuthoritiesChange,
                ),
                (Some(_), None) => false,
                (None, None) => true,
            },
    {
        match self.finality_module {
            Some(module) => pending_change(digest, module),
            None => None,
        }
    }

    /// The first forced change of the authority set that the finality
    /// module left in this digest, with the median it was signalled for. A
    /// runtime without a finality module finds none.
    pub fn grandpa_forced_change<'a>(&self, digest: &'a Vec<DigestItem>) -> (found: Option<
        (BlockNumber, &'a ScheduledChange),
    >)
        ensures
            match (found, self.finality_module) {
                (Some((median, change)), Some(module)) => exists|i: int|
                    {
                        &&& is_first_log(
                            digest_view(digest@),
                            module,
                            LogKind::ForcedAuthoritiesChange,
                            i,
                        )
                        &&& (#[trigger] digest_view(digest@)[i]).payload
                            == LogPayloadView::ForcedAuthoritiesChange(median, change@)
                    },
                (None, Some(module)) => no_log(
                    digest_view(digest@),
                    module,
                    LogKind::ForcedAuthoritiesChange,
                ),
                (Some(_), None) => false,
                (None, None) => true,
            },
    {
        match self.finality_module {
            Some(module) => forced_change(digest, module),
            None => None,
        }
    }
}

} // verus!
