//! The executive: the per-block lifecycle of initialising a block, applying
//! its extrinsics one by one and finalising it.
//!
//! The executive decides what is admitted into a block and keeps the books
//! of the block: its accumulated weight, its event log and the extrinsics it
//! holds. What an extrinsic does when it runs is the business of the module
//! that owns the call, which the executive reaches through the host.

use crate::block::{Block, BlockView, Header, HeaderField, HeaderView};
use crate::digest::{
    digest_clone, digest_view, payloads_view, DigestItem, DigestItemView, LogKind, LogPayload,
    LogPayloadView,
};
use crate::extrinsic::{
    extrinsic_encoding, extrinsics_view, Address, UncheckedExtrinsic, UncheckedExtrinsicView,
};
use crate::host::Host;
use crate::primitives::{AccountId, BlockNumber, DispatchError, Nonce, Origin, H256};
use crate::registry::{Call, CallView, Registry, RegistryView, MAX_MODULES};
use crate::weights::{BlockMeter, BlockMeterView, TransactionWeight, WeighableTransaction, Weight};
use vstd::prelude::*;

verus! {

/// Where the executive stands in the lifecycle of a block.
#[derive(Clone, Copy, Debug, PartialEq, Eq, Structural)]
pub enum Phase {
    /// No block has been started.
    Uninitialized,
    /// A block has been started and takes extrinsics.
    Initialized,
    /// The last block has been finalised.
    Finalized,
}

/// Why an extrinsic was not admitted into the block.
#[derive(Clone, Copy, Debug, PartialEq, Eq, Structural)]
pub enum ApplyError {
    /// No block is open.
    NotInitialized,
    /// The call names no function of the runtime.
    UnknownCall,
    /// The sender's alias stands for no account.
    UnknownSigner,
    /// The block lies outside the span in which the extrinsic may be
    /// included.
    Expired,
    /// The signature is not the sender's signature over the extrinsic.
    BadSignature,
    /// The nonce was used before.
    Stale,
    /// The nonce is not due yet.
    Future,
    /// The sender cannot pay the fee.
    CantPay,
    /// The block has no room for the extrinsic.
    FullBlock,
}

/// What became of an extrinsic that was admitted into the block.
#[derive(Clone, Copy, Debug, PartialEq, Eq, Structural)]
pub enum ApplyOutcome {
    /// The call took effect.
    Success,
    /// The owning module refused the call. The extrinsic is in the block
    /// all the same, and its weight and nonce are spent.
    Fail(DispatchError),
}

/// One entry of a block's event log.
#[derive(Clone, Copy, Debug, PartialEq, Eq, Structural)]
pub struct Event {
    /// The position in the block of the extrinsic the event is about.
    pub extrinsic: usize,
    /// The position of the module that owns the call.
    pub module: u8,
    /// The position of the function that was called.
    pub variant: u8,
    /// What became of the extrinsic.
    pub outcome: ApplyOutcome,
}

/// An extrinsic that has passed every check on its sender.
#[derive(Debug, PartialEq, Eq)]
pub struct CheckedExtrinsic {
    /// The sender and the nonce, for a signed extrinsic.
    pub signed: Option<(AccountId, Nonce)>,
    pub call: Call,
}

/// What a [`CheckedExtrinsic`] stands for.
pub struct CheckedExtrinsicView {
    pub signed: Option<(AccountId, Nonce)>,
    pub call: CallView,
}

impl View for CheckedExtrinsic {
    type V = CheckedExtrinsicView;

    open spec fn view(&self) -> CheckedExtrinsicView {
        CheckedExtrinsicView { signed: self.signed, call: self.call@ }
    }
}

impl CheckedExtrinsicView {
    /// The authority under which the call is dispatched.
    pub open spec fn origin(self) -> Origin {
        match self.signed {
            Some((who, _)) => Origin::Signed(who),
            None => Origin::Inherent,
        }
    }
}

impl CheckedExtrinsic {
    /// The authority under which the call is dispatched: the sender of a
    /// signed extrinsic, no account for an inherent.
    pub fn origin(&self) -> (origin: Origin)
        ensures
            origin == self@.origin(),
    {
        match self.signed {
            Some((who, _)) => Origin::Signed(who),
            None => Origin::Inherent,
        }
    }
}

/// What the chain knows about the sender of a signed extrinsic.
#[derive(Clone, Copy, Debug, PartialEq, Eq)]
pub struct SignerFacts {
    /// The account that the sender's address stands for.
    pub account: Option<AccountId>,
    /// Whether the signature is that account's signature over the
    /// extrinsic.
    pub signature_ok: bool,
    /// The nonce that the account's next transaction must carry.
    pub nonce: Nonce,
    /// Whether the account can pay the fee.
    pub can_pay: bool,
}

/// The facts are about the sender that the extrinsic names: an address that
/// is an account stands for that account.
pub open spec fn facts_fit(xt: UncheckedExtrinsicView, facts: SignerFacts) -> bool {
    match xt.signed {
        Some(signed) => match signed.address {
            Address::Id(account) => facts.account == Some(account),
            Address::Index(_) => true,
        },
        None => true,
    }
}

/// The checked form of an extrinsic, or the first reason for which it has
/// none: the sender is unknown; the block lies outside the extrinsic's era;
/// the signature is bad; the nonce is stale or not yet due; the fee cannot
/// be paid. An inherent has no sender to check.
pub open spec fn checked(
    xt: UncheckedExtrinsicView,
    facts: SignerFacts,
    now: BlockNumber,
) -> Result<CheckedExtrinsicView, ApplyError> {
    match xt.signed {
        None => Ok(CheckedExtrinsicView { signed: None, call: xt.call }),
        Some(signed) => match facts.account {
            None => Err(ApplyError::UnknownSigner),
            Some(who) => if !signed.era.live_at(now) {
                Err(ApplyError::Expired)
            } else if !facts.signature_ok {
                Err(ApplyError::BadSignature)
            } else if signed.nonce < facts.nonce {
                Err(ApplyError::Stale)
            } else if signed.nonce > facts.nonce {
                Err(ApplyError::Future)
            } else if !facts.can_pay {
                Err(ApplyError::CantPay)
            } else {
                Ok(CheckedExtrinsicView { signed: Some((who, signed.nonce)), call: xt.call })
            },
        },
    }
}

/// Checks the sender of an extrinsic against what the chain knows of it, in
/// block `now`.
pub fn check(xt: &UncheckedExtrinsic, facts: &SignerFacts, now: BlockNumber) -> (r: Result<
    CheckedExtrinsic,
    ApplyError,
>)
    ensures
        match r {
            Ok(xt_checked) => checked(xt@, *facts, now) == Ok::<CheckedExtrinsicView, ApplyError>(
                xt_checked@,
            ),
            Err(e) => checked(xt@, *facts, now) == Err::<CheckedExtrinsicView, ApplyError>(e),
        },
{
    match &xt.signed {
        None => Ok(CheckedExtrinsic { signed: None, call: xt.call.clone() }),
        Some(signed) => match facts.account {
            None => Err(ApplyError::UnknownSigner),
            Some(who) => {
                if !signed.era.is_live(now) {
                    Err(ApplyError::Expired)
                } else if !facts.signature_ok {
                    Err(ApplyError::BadSignature)
                } else if signed.nonce < facts.nonce {
                    Err(ApplyError::Stale)
                } else if signed.nonce > facts.nonce {
                    Err(ApplyError::Future)
                } else if !facts.can_pay {
                    Err(ApplyError::CantPay)
                } else {
                    Ok(CheckedExtrinsic { signed: Some((who, signed.nonce)), call: xt.call.clone() })
                }
            },
        },
    }
}

/// Asks the host what the chain knows about the sender of an extrinsic of
/// `len` encoded bytes. An address that is an account is taken as it is; an
/// alias is looked up.
pub fn gather<H: Host>(host: &H, xt: &UncheckedExtrinsic, len: usize) -> (facts: SignerFacts)
    ensures
        facts_fit(xt@, facts),
{
    let unknown = SignerFacts { account: None, signature_ok: false, nonce: 0, can_pay: false };
    match &xt.signed {
        None => unknown,
        Some(signed) => {
            let account: Option<AccountId> = match signed.address {
                Address::Id(account) => Some(account),
                Address::Index(index) => host.lookup(index),
            };
            match (account, xt.signing_payload()) {
                (Some(who), Some(payload)) => SignerFacts {
                    account: Some(who),
                    signature_ok: host.verify(&who, &signed.signature, &payload),
                    nonce: host.account_nonce(&who),
                    can_pay: host.can_pay(&who, len),
                },
                _ => SignerFacts { account, ..unknown },
            }
        },
    }
}

/// Why a transaction can never be included.
#[derive(Clone, Copy, Debug, PartialEq, Eq, Structural)]
pub enum InvalidReason {
    /// The extrinsic is unsigned: inherents do not come through the pool.
    Unsigned,
    /// The call names no function of the runtime.
    UnknownCall,
    /// The next block lies outside the span in which the transaction may
    /// be included.
    Expired,
    /// The signature is not the sender's signature over the transaction.
    BadSignature,
    /// The nonce was used before.
    Stale,
    /// The sender cannot pay the fee.
    CantPay,
}

/// Why it cannot be said yet whether a transaction can be included.
#[derive(Clone, Copy, Debug, PartialEq, Eq, Structural)]
pub enum UnknownReason {
    /// The sender's alias stands for no account so far.
    UnknownSigner,
    /// The nonce is not due until earlier transactions of the sender are
    /// in.
    Future,
}

/// What the pool should know about a transaction that can be included.
#[derive(Clone, Copy, Debug, PartialEq, Eq)]
pub struct ValidTransaction {
    /// The higher, the sooner the transaction should be included.
    pub priority: u64,
    /// The sender and nonce that the transaction uses up.
    pub provides: (AccountId, Nonce),
    /// For how many blocks the transaction stays valid.
    pub longevity: u64,
}

/// Whether a transaction can be included in the next block.
#[derive(Clone, Copy, Debug, PartialEq, Eq)]
pub enum TransactionValidity {
    Valid(ValidTransaction),
    Invalid(InvalidReason),
    Unknown(UnknownReason),
}

/// Why a block, or a step in the lifecycle of a block, was refused.
#[derive(Clone, Copy, Debug, PartialEq, Eq, Structural)]
pub enum BlockError {
    /// A block is open already: it must be finalised before the next one is
    /// started.
    AlreadyInitialized,
    /// No block is open.
    NotInitialized,
    /// The extrinsic at this position was not admitted.
    Extrinsic { index: usize, error: ApplyError },
    /// The header that the block declares differs, in this field first,
    /// from the header that running the block gives.
    HeaderMismatch(HeaderField),
}

/// The digest items that a block's author put into the header before the
/// block ran, in order.
pub open spec fn pre_runtime(digest: Seq<DigestItemView>) -> Seq<DigestItemView>
    decreases digest.len(),
{
    if digest.len() == 0 {
        Seq::empty()
    } else {
        let earlier = pre_runtime(digest.drop_last());
        if digest.last().payload.kind() == LogKind::PreRuntime {
            earlier.push(digest.last())
        } else {
            earlier
        }
    }
}

/// The byte strings that a list holds, in order.
pub open spec fn encodings_view(items: Seq<Vec<u8>>) -> Seq<Seq<u8>> {
    Seq::new(items.len(), |i: int| items[i]@)
}

/// What the modules' end-of-block hooks left: every item carries the
/// position of a module that declares digest items, and the items stand in
/// registry order.
pub open spec fn hook_logs(registry: RegistryView, logs: Seq<DigestItemView>) -> bool {
    &&& forall|i: int|
        0 <= i < logs.len() ==> (#[trigger] logs[i]).module < registry.modules.len()
            && registry.modules[logs[i].module as int].has_log
    &&& forall|i: int, j: int|
        0 <= i < j < logs.len() ==> (#[trigger] logs[i]).module <= (#[trigger] logs[j]).module
}

/// The items are what end-of-block hooks left, and every one of them comes
/// from a module that stands before position `bound`.
pub open spec fn hook_logs_below(
    registry: RegistryView,
    logs: Seq<DigestItemView>,
    bound: int,
) -> bool {
    &&& hook_logs(registry, logs)
    &&& forall|i: int| 0 <= i < logs.len() ==> (#[trigger] logs[i]).module < bound
}

/// What the end-of-block hook of the module at `position` left, as it goes
/// into the digest: each payload under the position of the module, if the
/// module declares digest items, and nothing if it does not.
pub open spec fn stamped(
    registry: RegistryView,
    position: int,
    payloads: Seq<LogPayloadView>,
) -> Seq<DigestItemView> {
    if 0 <= position < registry.modules.len() && registry.modules[position].has_log {
        Seq::new(
            payloads.len(),
            |k: int| DigestItemView { module: position as u8, payload: payloads[k] },
        )
    } else {
        Seq::empty()
    }
}

/// What the end-of-block hooks left, gathered: the hooks' answers are taken
/// in registry order, one for each module, and each is stamped with the
/// position of its module.
pub open spec fn gathered_logs(
    registry: RegistryView,
    answers: Seq<Seq<LogPayloadView>>,
) -> Seq<DigestItemView>
    decreases answers.len(),
{
    if answers.len() == 0 {
        Seq::empty()
    } else {
        gathered_logs(registry, answers.drop_last()) + stamped(
            registry,
            answers.len() - 1,
            answers.last(),
        )
    }
}

/// The items are what the end-of-block hooks of all modules left, for some
/// answers of the hooks, one for each module.
pub open spec fn left_by_hooks(registry: RegistryView, logs: Seq<DigestItemView>) -> bool {
    exists|answers: Seq<Seq<LogPayloadView>>|
        answers.len() == registry.modules.len() && #[trigger] gathered_logs(registry, answers)
            == logs
}

/// The outcomes that an event log records, in order.
pub open spec fn event_outcomes(events: Seq<Event>) -> Seq<ApplyOutcome> {
    Seq::new(events.len(), |i: int| events[i].outcome)
}

/// What an [`Executive`] stands for.
pub struct ExecutiveView {
    /// The runtime's modules.
    pub registry: RegistryView,
    /// The weight the open block has accumulated, and the most it may.
    pub meter: BlockMeterView,
    pub phase: Phase,
    /// The height of the open (or last) block.
    pub number: BlockNumber,
    /// The parent of the open (or last) block.
    pub parent_hash: H256,
    /// The digest of the open block so far.
    pub digest: Seq<DigestItemView>,
    /// The event log of the open (or last) block.
    pub events: Seq<Event>,
    /// The encoded extrinsics of the open (or last) block.
    pub applied: Seq<Seq<u8>>,
    /// The header of the last block that was finalised.
    pub sealed: Option<HeaderView>,
}

impl ExecutiveView {
    /// The state after a block with this header has been started: the event
    /// log and the accumulated weight are reset, and the digest holds what
    /// the author put there before the block ran.
    pub open spec fn initialized(self, header: HeaderView) -> ExecutiveView {
        ExecutiveView {
            phase: Phase::Initialized,
            number: header.number,
            parent_hash: header.parent_hash,
            digest: pre_runtime(header.digest),
            meter: self.meter.reset(),
            events: Seq::empty(),
            applied: Seq::empty(),
            sealed: None,
            ..self
        }
    }

    /// The weighting policy of the extrinsic's call.
    pub open spec fn policy(self, xt: UncheckedExtrinsicView) -> TransactionWeight {
        self.registry.policy(xt.call)
    }

    /// The weight of the extrinsic: what the policy of its call assigns to
    /// its encoded length.
    pub open spec fn weight(self, xt: UncheckedExtrinsicView) -> int {
        self.policy(xt).weight_for(extrinsic_encoding(xt).len() as int)
    }

    /// Whether the open block has room for the extrinsic.
    pub open spec fn has_room(self, xt: UncheckedExtrinsicView) -> bool {
        self.meter.has_room(self.policy(xt), self.weight(xt))
    }

    /// Whether the extrinsic is admitted into the open block, given what
    /// the chain knows about its sender, or else the first reason for which
    /// it is rejected: no block is open; the call is unknown; the sender
    /// does not pass the checks; the block has no room.
    pub open spec fn verdict(self, xt: UncheckedExtrinsicView, facts: SignerFacts) -> Result<
        (),
        ApplyError,
    > {
        if self.phase != Phase::Initialized {
            Err(ApplyError::NotInitialized)
        } else if !self.registry.admits(xt.call) {
            Err(ApplyError::UnknownCall)
        } else {
            match checked(xt, facts, self.number) {
                Err(e) => Err(e),
                Ok(_) => if !self.has_room(xt) {
                    Err(ApplyError::FullBlock)
                } else {
                    Ok(())
                },
            }
        }
    }

    /// The height of the block that a transaction accepted now would go
    /// into: the open block, or else the one after the last.
    pub open spec fn pending_height(self) -> BlockNumber {
        if self.phase == Phase::Initialized || self.number == u64::MAX {
            self.number
        } else {
            (self.number + 1) as BlockNumber
        }
    }

    /// Whether the extrinsic can be included in the next block as a
    /// transaction from the pool, given what the chain knows about its
    /// sender. The checks on the sender are those of [`checked`], in the
    /// same order; a valid transaction's priority is its encoded length.
    pub open spec fn validity(
        self,
        xt: UncheckedExtrinsicView,
        facts: SignerFacts,
    ) -> TransactionValidity {
        match xt.signed {
            None => TransactionValidity::Invalid(InvalidReason::Unsigned),
            Some(signed) => if !self.registry.admits(xt.call) {
                TransactionValidity::Invalid(InvalidReason::UnknownCall)
            } else {
                match checked(xt, facts, self.pending_height()) {
                    Err(ApplyError::UnknownSigner) => TransactionValidity::Unknown(
                        UnknownReason::UnknownSigner,
                    ),
                    Err(ApplyError::Future) => TransactionValidity::Unknown(UnknownReason::Future),
                    Err(ApplyError::Expired) => TransactionValidity::Invalid(
                        InvalidReason::Expired,
                    ),
                    Err(ApplyError::BadSignature) => TransactionValidity::Invalid(
                        InvalidReason::BadSignature,
                    ),
                    Err(ApplyError::Stale) => TransactionValidity::Invalid(InvalidReason::Stale),
                    Err(_) => TransactionValidity::Invalid(InvalidReason::CantPay),
                    Ok(xt_checked) => TransactionValidity::Valid(
                        ValidTransaction {
                            priority: extrinsic_encoding(xt).len() as u64,
                            provides: (facts.account->0, signed.nonce),
                            longevity: signed.era.blocks_left(self.pending_height()) as u64,
                        },
                    ),
                }
            },
        }
    }

    /// The state after the extrinsic has been admitted and dispatched with
    /// this outcome: the event log has one more entry, the block one more
    /// extrinsic, and the accumulated weight has moved on.
    pub open spec fn applied(
        self,
        xt: UncheckedExtrinsicView,
        outcome: ApplyOutcome,
    ) -> ExecutiveView {
        ExecutiveView {
            events: self.events.push(
                Event {
                    extrinsic: self.applied.len() as usize,
                    module: xt.call.module,
                    variant: xt.call.variant,
                    outcome,
                },
            ),
            applied: self.applied.push(extrinsic_encoding(xt)),
            meter: self.meter.after(self.policy(xt), self.weight(xt)),
            ..self
        }
    }

    /// The state after the extrinsics have been applied one after the
    /// other, each with its outcome.
    pub open spec fn applied_all(
        self,
        xts: Seq<UncheckedExtrinsicView>,
        outcomes: Seq<ApplyOutcome>,
    ) -> ExecutiveView
        decreases xts.len(),
    {
        if xts.len() == 0 {
            self
        } else {
            self.applied_all(xts.drop_last(), outcomes.drop_last()).applied(
                xts.last(),
                outcomes.last(),
            )
        }
    }

    /// The header of the open block, given the two roots and what the
    /// end-of-block hooks left.
    pub open spec fn header(
        self,
        state_root: H256,
        extrinsics_root: H256,
        logs: Seq<DigestItemView>,
    ) -> HeaderView {
        HeaderView {
            parent_hash: self.parent_hash,
            number: self.number,
            state_root,
            extrinsics_root,
            digest: self.digest + logs,
        }
    }

    /// The header is one that finalising the open block can give: it
    /// carries the block's parent and height, and its digest is the block's
    /// digest followed by what the end-of-block hooks of all modules left,
    /// gathered in registry order.
    pub open spec fn seals(self, header: HeaderView) -> bool {
        &&& header.parent_hash == self.parent_hash
        &&& header.number == self.number
        &&& header.digest.len() >= self.digest.len()
        &&& header.digest.take(self.digest.len() as int) == self.digest
        &&& left_by_hooks(self.registry, header.digest.skip(self.digest.len() as int))
        &&& hook_logs(self.registry, header.digest.skip(self.digest.len() as int))
    }

    /// The state after the open block has been finalised with this header.
    pub open spec fn finalized(self, header: HeaderView) -> ExecutiveView {
        ExecutiveView { phase: Phase::Finalized, sealed: Some(header), ..self }
    }

    /// Starting a block with this header from this state gives `r` and
    /// leads to `exit`: the block is started unless a block is open, in
    /// which case nothing changes.
    pub open spec fn initializes(
        self,
        header: HeaderView,
        r: Result<(), BlockError>,
        exit: ExecutiveView,
    ) -> bool {
        match r {
            Ok(()) => self.phase != Phase::Initialized && exit == self.initialized(header),
            Err(e) => {
                &&& e == BlockError::AlreadyInitialized
                &&& self.phase == Phase::Initialized
                &&& exit == self
            },
        }
    }

    /// Applying the extrinsic in this state gives `r` and leads to `exit`.
    ///
    /// Whatever the chain knows about the sender, `r` is the verdict on
    /// the extrinsic: a rejection is the first reason that holds, and
    /// nothing changes; an admitted extrinsic is entered into the block
    /// with its outcome. So an extrinsic is admitted only into an open
    /// block, only if its call is known, and only if the block has room
    /// for it.
    pub open spec fn applies(
        self,
        xt: UncheckedExtrinsicView,
        r: Result<ApplyOutcome, ApplyError>,
        exit: ExecutiveView,
    ) -> bool {
        &&& exists|facts: SignerFacts| #[trigger]
            facts_fit(xt, facts) && match self.verdict(xt, facts) {
                Ok(()) => r is Ok,
                Err(e) => r == Err::<ApplyOutcome, ApplyError>(e),
            }
        &&& r matches Ok(outcome) ==> exit == self.applied(xt, outcome)
        &&& r is Err ==> exit == self
        &&& r is Ok ==> self.phase == Phase::Initialized && self.registry.admits(xt.call)
            && self.has_room(xt)
    }

    /// Finalising the open block in this state gives `r` and leads to
    /// `exit`: a header that seals the block, or a refusal that changes
    /// nothing where no block is open.
    pub open spec fn finalizes(
        self,
        r: Result<HeaderView, BlockError>,
        exit: ExecutiveView,
    ) -> bool {
        match r {
            Ok(header) => {
                &&& self.phase == Phase::Initialized
                &&& self.seals(header)
                &&& exit == self.finalized(header)
            },
            Err(e) => {
                &&& e == BlockError::NotInitialized
                &&& self.phase != Phase::Initialized
                &&& exit == self
            },
        }
    }

    /// Running the block from this state gives `r` and leads to `exit`.
    ///
    /// Running a block is starting it with the header it declares,
    /// applying its extrinsics in order, finalising it, and holding the
    /// header that this gives against the declared one. On success `r`
    /// holds the outcome of every extrinsic. The block is refused, and
    /// nothing changes, if a block is open. It is refused at the first
    /// extrinsic that is not admitted: the extrinsics before it are
    /// applied, and the block stays open. It is refused after finalising
    /// if the two headers differ, with the first field in which they do.
    pub open spec fn executes(
        self,
        block: BlockView,
        r: Result<Seq<ApplyOutcome>, BlockError>,
        exit: ExecutiveView,
    ) -> bool {
        match r {
            Ok(outcomes) => {
                let run = self.initialized(block.header).applied_all(block.extrinsics, outcomes);
                &&& self.phase != Phase::Initialized
                &&& outcomes.len() == block.extrinsics.len()
                &&& run.seals(block.header)
                &&& exit == run.finalized(block.header)
            },
            Err(BlockError::AlreadyInitialized) => {
                &&& self.phase == Phase::Initialized
                &&& exit == self
            },
            Err(BlockError::NotInitialized) => false,
            Err(BlockError::Extrinsic { index, error }) => {
                let run = self.initialized(block.header).applied_all(
                    block.extrinsics.take(index as int),
                    event_outcomes(exit.events),
                );
                &&& self.phase != Phase::Initialized
                &&& index < block.extrinsics.len()
                &&& exit.events.len() == index
                &&& exit == run
                &&& exists|facts: SignerFacts| #[trigger]
                    facts_fit(block.extrinsics[index as int], facts) && run.verdict(
                        block.extrinsics[index as int],
                        facts,
                    ) == Err::<(), ApplyError>(error)
            },
            Err(BlockError::HeaderMismatch(field)) => {
                let run = self.initialized(block.header).applied_all(
                    block.extrinsics,
                    event_outcomes(exit.events),
                );
                &&& self.phase != Phase::Initialized
                &&& exit.events.len() == block.extrinsics.len()
                &&& exit.sealed matches Some(header)
                &&& run.seals(header)
                &&& header.mismatch(block.header) == Some(field)
                &&& exit == run.finalized(header)
            },
        }
    }
}

/// What the result of finalising a block stands for.
pub open spec fn header_result(r: Result<Header, BlockError>) -> Result<HeaderView, BlockError> {
    match r {
        Ok(header) => Ok(header@),
        Err(e) => Err(e),
    }
}

/// What the result of running a block stands for.
pub open spec fn outcomes_result(r: Result<Vec<ApplyOutcome>, BlockError>) -> Result<
    Seq<ApplyOutcome>,
    BlockError,
> {
    match r {
        Ok(outcomes) => Ok(outcomes@),
        Err(e) => Err(e),
    }
}

/// The executive of a runtime.
pub struct Executive {
    registry: Registry,
    meter: BlockMeter,
    phase: Phase,
    number: BlockNumber,
    parent_hash: H256,
    digest: Vec<DigestItem>,
    events: Vec<Event>,
    applied: Vec<Vec<u8>>,
    sealed: Option<Header>,
}

impl View for Executive {
    type V = ExecutiveView;

    closed spec fn view(&self) -> ExecutiveView {
        ExecutiveView {
            registry: self.registry@,
            meter: self.meter@,
            phase: self.phase,
            number: self.number,
            parent_hash: self.parent_hash,
            digest: digest_view(self.digest@),
            events: self.events@,
            applied: encodings_view(self.applied@),
            sealed: match self.sealed {
                Some(header) => Some(header@),
                None => None,
            },
        }
    }
}

/// Stamps what the end-of-block hook of the module at `position` left
/// with the position of the module. A module that declares no digest items
/// leaves nothing.
pub fn stamp_logs(registry: &Registry, position: u8, payloads: &Vec<LogPayload>) -> (items: Vec<
    DigestItem,
>)
    ensures
        digest_view(items@) == stamped(registry@, position as int, payloads_view(payloads@)),
{
    let mut items: Vec<DigestItem> = Vec::new();
    let declares: bool = match registry.module(position) {
        Some(module) => module.has_log,
        None => false,
    };
    if declares {
        let mut k: usize = 0;
        while k < payloads.len()
            invariant
                k <= payloads.len(),
                items.len() == k,
                forall|i: int|
                    0 <= i < k ==> (#[trigger] items@[i])@ == (DigestItemView {
                        module: position,
                        payload: payloads@[i]@,
                    }),
            decreases payloads.len() - k,
        {
            items.push(DigestItem { module: position, payload: payloads[k].clone() });
            k += 1;
        }
    }
    assert(digest_view(items@) =~= stamped(
        registry@,
        position as int,
        payloads_view(payloads@),
    ));
    items
}

/// A copy of the digest items that a block's author put into the header
/// before the block ran.
fn pre_runtime_items(digest: &Vec<DigestItem>) -> (items: Vec<DigestItem>)
    ensures
        digest_view(items@) == pre_runtime(digest_view(digest@)),
{
    let ghost all = digest_view(digest@);
    let mut items: Vec<DigestItem> = Vec::new();
    let mut i: usize = 0;
    assert(all.take(0) =~= Seq::empty());
    while i < digest.len()
        invariant
            i <= digest.len(),
            all == digest_view(digest@),
            digest_view(items@) == pre_runtime(all.take(i as int)),
        decreases digest.len() - i,
    {
        let ghost before = digest_view(items@);
        assert(all.take(i + 1).drop_last() =~= all.take(i as int));
        assert(all.take(i + 1).last() == digest@[i as int]@);
        if digest[i].payload.kind() == LogKind::PreRuntime {
            items.push(digest[i].clone());
            assert(digest_view(items@) =~= before.push(digest@[i as int]@));
        }
        i += 1;
    }
    assert(all.take(digest.len() as int) =~= all);
    items
}

impl Executive {
    /// An executive for the runtime that `registry` describes, in which no
    /// block may accumulate more weight than `max_block_weight`.
    pub fn new(registry: Registry, max_block_weight: Weight) -> (executive: Executive)
        ensures
            executive@.registry == registry@,
            executive@.meter == (BlockMeterView {
                limit: max_block_weight,
                used: 0,
                max_applied: false,
            }),
            executive@.phase == Phase::Uninitialized,
            executive@.events == Seq::<Event>::empty(),
            executive@.applied == Seq::<Seq<u8>>::empty(),
            executive@.digest == Seq::<DigestItemView>::empty(),
            executive@.sealed is None,
    {
        let executive = Executive {
            registry,
            meter: BlockMeter::new(max_block_weight),
            phase: Phase::Uninitialized,
            number: 0,
            parent_hash: [0u8;32],
            digest: Vec::new(),
            events: Vec::new(),
            applied: Vec::new(),
            sealed: None,
        };
        assert(executive@.applied =~= Seq::<Seq<u8>>::empty());
        assert(executive@.digest =~= Seq::<DigestItemView>::empty());
        executive
    }

    /// Starts a block with this header. Fails if a block is open.
    pub fn initialize_block(&mut self, header: &Header) -> (r: Result<(), BlockError>)
        ensures
            old(self)@.initializes(header@, r, final(self)@),
    {
        if self.phase == Phase::Initialized {
            return Err(BlockError::AlreadyInitialized);
        }
        self.meter.reset();
        self.phase = Phase::Initialized;
        self.number = header.number;
        self.parent_hash = header.parent_hash;
        self.digest = pre_runtime_items(&header.digest);
        self.events = Vec::new();
        self.applied = Vec::new();
        self.sealed = None;
        assert(self@.applied =~= Seq::<Seq<u8>>::empty());
        Ok(())
    }
}

impl Executive {
    /// The runtime's modules.
    pub fn registry(&self) -> (registry: &Registry)
        ensures
            registry@ == self@.registry,
    {
        &self.registry
    }

    /// Where the executive stands in the lifecycle of a block.
    pub fn phase(&self) -> (phase: Phase)
        ensures
            phase == self@.phase,
    {
        self.phase
    }

    /// The height of the open (or last) block.
    pub fn number(&self) -> (number: BlockNumber)
        ensures
            number == self@.number,
    {
        self.number
    }

    /// The most weight a block may accumulate.
    pub fn max_block_weight(&self) -> (weight: Weight)
        ensures
            weight == self@.meter.limit,
    {
        self.meter.limit()
    }

    /// The weight the open block has accumulated. It never exceeds the
    /// maximum.
    pub fn block_weight(&self) -> (weight: Weight)
        ensures
            weight == self@.meter.used,
            weight <= self@.meter.limit,
    {
        self.meter.used()
    }

    /// The event log of the open (or last) block, in dispatch order.
    pub fn events(&self) -> (events: &Vec<Event>)
        ensures
            events@ == self@.events,
    {
        &self.events
    }

    /// How many extrinsics the open (or last) block holds.
    pub fn extrinsic_count(&self) -> (count: usize)
        ensures
            count == self@.applied.len(),
    {
        self.applied.len()
    }

    /// The weight of an extrinsic: what the policy of its call assigns to
    /// its encoded length.
    pub fn weight_of(&self, xt: &UncheckedExtrinsic) -> (weight: Weight)
        ensures
            weight == self@.weight(xt@),
    {
        let encoded = xt.encode();
        self.registry.policy(&xt.call).calculate_weight(encoded.len())
    }

    /// Whether the open block has room for the extrinsic.
    pub fn has_room(&self, xt: &UncheckedExtrinsic) -> (room: bool)
        ensures
            room == self@.has_room(xt@),
    {
        let encoded = xt.encode();
        let policy = self.registry.policy(&xt.call);
        self.meter.has_room(policy, policy.calculate_weight(encoded.len()))
    }

    /// Decides whether the extrinsic is admitted into the open block, given
    /// what the chain knows about its sender. Nothing is changed.
    pub fn verdict(&self, xt: &UncheckedExtrinsic, facts: &SignerFacts) -> (r: Result<
        CheckedExtrinsic,
        ApplyError,
    >)
        ensures
            match r {
                Ok(xt_checked) => {
                    &&& self@.verdict(xt@, *facts) is Ok
                    &&& checked(xt@, *facts, self@.number) == Ok::<
                        CheckedExtrinsicView,
                        ApplyError,
                    >(xt_checked@)
                },
                Err(e) => self@.verdict(xt@, *facts) == Err::<(), ApplyError>(e),
            },
    {
        if self.phase != Phase::Initialized {
            return Err(ApplyError::NotInitialized);
        }
        if !self.registry.admits(&xt.call) {
            return Err(ApplyError::UnknownCall);
        }
        match check(xt, facts, self.number) {
            Err(e) => Err(e),
            Ok(xt_checked) => {
                if self.has_room(xt) {
                    Ok(xt_checked)
                } else {
                    Err(ApplyError::FullBlock)
                }
            },
        }
    }

    /// Enters an admitted extrinsic and its outcome into the books of the
    /// open block.
    fn note(&mut self, xt: &UncheckedExtrinsic, encoded: Vec<u8>, outcome: ApplyOutcome)
        requires
            encoded@ == extrinsic_encoding(xt@),
            old(self)@.has_room(xt@),
        ensures
            final(self)@ == old(self)@.applied(xt@, outcome),
    {
        let policy = self.registry.policy(&xt.call);
        let weight = policy.calculate_weight(encoded.len());
        let ghost before = self@;
        let ghost held = self.applied@;
        let _ = self.meter.take(policy, weight);
        self.events.push(
            Event {
                extrinsic: self.applied.len(),
                module: xt.call.module,
                variant: xt.call.variant,
                outcome,
            },
        );
        self.applied.push(encoded);
        assert(encodings_view(self.applied@) =~= encodings_view(held).push(
            extrinsic_encoding(xt@),
        ));
        assert(self@ == before.applied(xt@, outcome));
    }

    /// Applies an extrinsic to the open block.
    ///
    /// The sender is checked first, against what the host knows of it, then
    /// the room left in the block. An extrinsic that fails either is
    /// rejected: nothing is dispatched and neither the block nor the chain
    /// state changes. One that passes is charged and dispatched under the
    /// origin of its sender, and entered into the block with its outcome,
    /// whether the call took effect or the owning module refused it.
    pub fn apply_extrinsic<H: Host>(&mut self, host: &mut H, xt: &UncheckedExtrinsic) -> (r:
        Result<ApplyOutcome, ApplyError>)
        ensures
            old(self)@.applies(xt@, r, final(self)@),
            r is Err ==> *final(host) == *old(host),
    {
        let encoded = xt.encode();
        let facts = gather(host, xt, encoded.len());
        let xt_checked = match self.verdict(xt, &facts) {
            Ok(xt_checked) => xt_checked,
            Err(e) => {
                return Err(e);
            },
        };
        if let Some((who, _)) = xt_checked.signed {
            host.charge(&who, encoded.len());
        }
        let origin = xt_checked.origin();
        let outcome = match self.registry.dispatch(host, &xt_checked.call, &origin) {
            Ok(()) => ApplyOutcome::Success,
            Err(e) => ApplyOutcome::Fail(e),
        };
        self.note(xt, encoded, outcome);
        Ok(outcome)
    }
}

/// Applying extrinsics one after the other keeps the block open, leaves the
/// registry and the block's parent, height and digest alone, and enters one
/// event and one extrinsic for each, with the outcome it was given.
pub proof fn lemma_applied_all(
    state: ExecutiveView,
    xts: Seq<UncheckedExtrinsicView>,
    outcomes: Seq<ApplyOutcome>,
)
    requires
        xts.len() == outcomes.len(),
    ensures
        state.applied_all(xts, outcomes).phase == state.phase,
        state.applied_all(xts, outcomes).registry == state.registry,
        state.applied_all(xts, outcomes).number == state.number,
        state.applied_all(xts, outcomes).parent_hash == state.parent_hash,
        state.applied_all(xts, outcomes).digest == state.digest,
        state.applied_all(xts, outcomes).sealed == state.sealed,
        state.applied_all(xts, outcomes).applied.len() == state.applied.len() + xts.len(),
        event_outcomes(state.applied_all(xts, outcomes).events) == event_outcomes(state.events)
            + outcomes,
    decreases xts.len(),
{
    if xts.len() > 0 {
        lemma_applied_all(state, xts.drop_last(), outcomes.drop_last());
        let before = state.applied_all(xts.drop_last(), outcomes.drop_last());
        assert(event_outcomes(before.applied(xts.last(), outcomes.last()).events)
            =~= event_outcomes(before.events).push(outcomes.last()));
        assert(outcomes =~= outcomes.drop_last().push(outcomes.last()));
        assert(event_outcomes(state.applied_all(xts, outcomes).events) =~= event_outcomes(
            state.events,
        ) + outcomes);
    } else {
        assert(event_outcomes(state.events) + outcomes =~= event_outcomes(state.events));
    }
}

/// Applying one more extrinsic after a run of extrinsics is applying the
/// longer run.
pub proof fn lemma_applied_all_step(
    state: ExecutiveView,
    xts: Seq<UncheckedExtrinsicView>,
    outcomes: Seq<ApplyOutcome>,
    xt: UncheckedExtrinsicView,
    outcome: ApplyOutcome,
)
    ensures
        state.applied_all(xts.push(xt), outcomes.push(outcome)) == state.applied_all(
            xts,
            outcomes,
        ).applied(xt, outcome),
{
    assert(xts.push(xt).drop_last() =~= xts);
    assert(outcomes.push(outcome).drop_last() =~= outcomes);
}

/// Steps that apply the first `upto` extrinsics of a list one after the
/// other, each from the state the step before led to, lead to the state of
/// applying them all.
proof fn lemma_steps_compose(
    xts: Seq<UncheckedExtrinsicView>,
    outcomes: Seq<ApplyOutcome>,
    states: Seq<ExecutiveView>,
    upto: int,
)
    requires
        0 <= upto <= xts.len(),
        outcomes.len() == xts.len(),
        states.len() == xts.len() + 1,
        forall|i: int|
            0 <= i < xts.len() ==> (#[trigger] states[i]).applies(
                xts[i],
                Ok(outcomes[i]),
                states[i + 1],
            ),
    ensures
        states[upto] == states[0].applied_all(xts.take(upto), outcomes.take(upto)),
    decreases upto,
{
    if upto > 0 {
        lemma_steps_compose(xts, outcomes, states, upto - 1);
        assert(states[upto - 1].applies(xts[upto - 1], Ok(outcomes[upto - 1]), states[upto]));
        lemma_applied_all_step(
            states[0],
            xts.take(upto - 1),
            outcomes.take(upto - 1),
            xts[upto - 1],
            outcomes[upto - 1],
        );
        assert(xts.take(upto) =~= xts.take(upto - 1).push(xts[upto - 1]));
        assert(outcomes.take(upto) =~= outcomes.take(upto - 1).push(outcomes[upto - 1]));
    } else {
        assert(xts.take(0).len() == 0);
    }
}

/// Running a block is the same as starting it, applying its extrinsics in
/// the order it declares, finalising it, and holding the header that this
/// gives against the declared one.
///
/// Take any run of those steps: the block is started from `entry`, every
/// extrinsic is applied from the state the step before led to and is
/// admitted with its outcome, and the last state is finalised with
/// `header`, which leads to `exit`. Then running the block from `entry`
/// leads to `exit` as well, with the same outcomes if the header is the
/// declared one, and with the first differing field if it is not.
pub proof fn lemma_execute_block_is_its_steps(
    entry: ExecutiveView,
    block: BlockView,
    states: Seq<ExecutiveView>,
    outcomes: Seq<ApplyOutcome>,
    header: HeaderView,
    exit: ExecutiveView,
)
    requires
        states.len() == block.extrinsics.len() + 1,
        outcomes.len() == block.extrinsics.len(),
        entry.initializes(block.header, Ok(()), states[0]),
        forall|i: int|
            0 <= i < block.extrinsics.len() ==> (#[trigger] states[i]).applies(
                block.extrinsics[i],
                Ok(outcomes[i]),
                states[i + 1],
            ),
        states.last().finalizes(Ok(header), exit),
    ensures
        match header.mismatch(block.header) {
            None => entry.executes(block, Ok(outcomes), exit),
            Some(field) => entry.executes(
                block,
                Err(BlockError::HeaderMismatch(field)),
                exit,
            ),
        },
{
    let xts = block.extrinsics;
    let n = xts.len() as int;
    lemma_steps_compose(xts, outcomes, states, n);
    assert(xts.take(n) =~= xts);
    assert(outcomes.take(n) =~= outcomes);
    lemma_applied_all(states[0], xts, outcomes);
    assert(event_outcomes(states[0].events) =~= Seq::<ApplyOutcome>::empty());
    assert(event_outcomes(exit.events) =~= outcomes);
    assert(exit.events.len() == event_outcomes(exit.events).len());
    if header.mismatch(block.header) is None {
        assert(header.digest =~= block.header.digest);
        assert(header == block.header);
    }
}

/// However a block fills up, the weight it has accumulated stays within
/// the limit: an extrinsic whose weight would take the block beyond it, or
/// a second one of maximum weight, is rejected, and nothing changes.
pub proof fn lemma_block_weight_within_limit(
    state: ExecutiveView,
    xt: UncheckedExtrinsicView,
    r: Result<ApplyOutcome, ApplyError>,
    exit: ExecutiveView,
)
    requires
        state.meter.used <= state.meter.limit,
        state.applies(xt, r, exit),
    ensures
        exit.meter.used <= exit.meter.limit,
        exit.meter.limit == state.meter.limit,
        !(state.policy(xt) is Free) && state.meter.used + state.weight(xt) > state.meter.limit
            ==> r is Err && exit == state,
        state.policy(xt) is Max && state.meter.max_applied ==> r is Err && exit == state,
{
    crate::weights::lemma_weight_bounds(
        state.policy(xt),
        extrinsic_encoding(xt).len() as usize,
        0,
    );
}

impl Executive {
    /// The header of the open block, given the two roots and what the
    /// end-of-block hooks left.
    pub fn seal(&self, state_root: H256, extrinsics_root: H256, logs: &Vec<DigestItem>) -> (header:
        Header)
        ensures
            header@ == self@.header(state_root, extrinsics_root, digest_view(logs@)),
    {
        let mut digest = digest_clone(&self.digest);
        let mut i: usize = 0;
        while i < logs.len()
            invariant
                i <= logs.len(),
                digest_view(digest@) == digest_view(self.digest@) + digest_view(logs@).take(
                    i as int,
                ),
            decreases logs.len() - i,
        {
            let ghost before = digest_view(digest@);
            digest.push(logs[i].clone());
            assert(digest_view(digest@) =~= before.push(logs@[i as int]@));
            assert(digest_view(logs@).take(i + 1) =~= digest_view(logs@).take(i as int).push(
                logs@[i as int]@,
            ));
            i += 1;
        }
        assert(digest_view(logs@).take(logs.len() as int) =~= digest_view(logs@));
        Header {
            parent_hash: self.parent_hash,
            number: self.number,
            state_root,
            extrinsics_root,
            digest,
        }
    }

    /// Runs the end-of-block hook of every module, in registry order, and
    /// gathers what the modules that declare digest items left, each item
    /// under the position of its module.
    fn run_finalize_hooks<H: Host>(&self, host: &mut H) -> (logs: Vec<DigestItem>)
        ensures
            left_by_hooks(self@.registry, digest_view(logs@)),
            hook_logs(self@.registry, digest_view(logs@)),
    {
        let n: usize = self.registry.module_count();
        let mut logs: Vec<DigestItem> = Vec::new();
        let ghost mut answers: Seq<Seq<LogPayloadView>> = Seq::empty();
        let mut position: usize = 0;
        assert(digest_view(logs@) =~= gathered_logs(self@.registry, answers));
        while position < n
            invariant
                position <= n <= MAX_MODULES,
                n == self@.registry.modules.len(),
                answers.len() == position,
                digest_view(logs@) == gathered_logs(self@.registry, answers),
                hook_logs_below(self@.registry, digest_view(logs@), position as int),
            decreases n - position,
        {
            let payloads = host.on_finalize(position as u8, self.number);
            let mut items = stamp_logs(&self.registry, position as u8, &payloads);
            let ghost before = digest_view(logs@);
            let ghost added = digest_view(items@);
            let ghost earlier = answers;
            logs.append(&mut items);
            proof {
                answers = earlier.push(payloads_view(payloads@));
                assert(answers.drop_last() =~= earlier);
                assert(digest_view(logs@) =~= before + added);
                assert forall|i: int| 0 <= i < digest_view(logs@).len() implies (#[trigger] digest_view(
                    logs@,
                )[i]).module < position + 1 && digest_view(logs@)[i].module
                    < self@.registry.modules.len()
                    && self@.registry.modules[digest_view(logs@)[i].module as int].has_log by {
                    if i >= before.len() {
                        assert(digest_view(logs@)[i] == added[i - before.len()]);
                    } else {
                        assert(digest_view(logs@)[i] == before[i]);
                    }
                }
                assert forall|i: int, j: int| 0 <= i < j < digest_view(logs@).len() implies (
                #[trigger] digest_view(logs@)[i]).module <= (#[trigger] digest_view(
                    logs@,
                )[j]).module by {
                    if j >= before.len() {
                        assert(digest_view(logs@)[j] == added[j - before.len()]);
                    } else {
                        assert(digest_view(logs@)[j] == before[j]);
                    }
                    if i >= before.len() {
                        assert(digest_view(logs@)[i] == added[i - before.len()]);
                    } else {
                        assert(digest_view(logs@)[i] == before[i]);
                    }
                }
            }
            position += 1;
        }
        logs
    }

    /// Finalises the open block: runs the end-of-block hook of every
    /// module, in registry order, and returns the block's header, with the
    /// root of the state and the root of the extrinsics that were applied.
    /// Fails if no block is open.
    pub fn finalize_block<H: Host>(&mut self, host: &mut H) -> (r: Result<Header, BlockError>)
        ensures
            old(self)@.finalizes(header_result(r), final(self)@),
            r is Err ==> *final(host) == *old(host),
    {
        if self.phase != Phase::Initialized {
            return Err(BlockError::NotInitialized);
        }
        let logs = self.run_finalize_hooks(host);
        let state_root = host.state_root();
        let extrinsics_root = host.extrinsics_root(&self.applied);
        let header = self.seal(state_root, extrinsics_root, &logs);
        proof {
            let kept = self@.digest;
            let left = digest_view(logs@);
            assert((kept + left).take(kept.len() as int) =~= kept);
            assert((kept + left).skip(kept.len() as int) =~= left);
        }
        self.sealed = Some(header.clone());
        self.phase = Phase::Finalized;
        Ok(header)
    }

    /// Runs a whole block: starts it with the header it declares, applies
    /// its extrinsics in the order it declares, finalises it, and holds
    /// the header that this gives against the declared one, field for
    /// field. On success returns the outcome of every extrinsic.
    ///
    /// The block is refused if a block is open already, if one of its
    /// extrinsics is not admitted, or if the two headers differ.
    pub fn execute_block<H: Host>(&mut self, host: &mut H, block: &Block) -> (r: Result<
        Vec<ApplyOutcome>,
        BlockError,
    >)
        ensures
            old(self)@.executes(block@, outcomes_result(r), final(self)@),
            r == Err::<Vec<ApplyOutcome>, BlockError>(BlockError::AlreadyInitialized)
                ==> *final(host) == *old(host),
    {
        let ghost entry = self@;
        match self.initialize_block(&block.header) {
            Err(e) => {
                return Err(e);
            },
            Ok(()) => {},
        }
        let ghost start = self@;
        let ghost xts = extrinsics_view(block.extrinsics@);
        let mut outcomes: Vec<ApplyOutcome> = Vec::new();
        let mut i: usize = 0;
        assert(xts.take(0) =~= Seq::empty());
        assert(event_outcomes(start.events) =~= Seq::empty());
        while i < block.extrinsics.len()
            invariant
                i <= block.extrinsics.len(),
                outcomes.len() == i,
                xts == extrinsics_view(block.extrinsics@),
                xts == block@.extrinsics,
                entry == old(self)@,
                entry.phase != Phase::Initialized,
                start == entry.initialized(block@.header),
                start.phase == Phase::Initialized,
                event_outcomes(start.events) == Seq::<ApplyOutcome>::empty(),
                self@ == start.applied_all(xts.take(i as int), outcomes@),
            decreases block.extrinsics.len() - i,
        {
            let ghost before = self@;
            proof {
                lemma_applied_all(start, xts.take(i as int), outcomes@);
                assert(event_outcomes(before.events) =~= outcomes@);
            }
            match self.apply_extrinsic(host, &block.extrinsics[i]) {
                Ok(outcome) => {
                    proof {
                        lemma_applied_all_step(
                            start,
                            xts.take(i as int),
                            outcomes@,
                            xts[i as int],
                            outcome,
                        );
                        assert(xts.take(i + 1) =~= xts.take(i as int).push(xts[i as int]));
                    }
                    outcomes.push(outcome);
                },
                Err(error) => {
                    assert(xts[i as int] == block.extrinsics@[i as int]@);
                    assert(self@.events.len() == event_outcomes(self@.events).len());
                    return Err(BlockError::Extrinsic { index: i, error });
                },
            }
            i += 1;
        }
        proof {
            assert(xts.take(block.extrinsics.len() as int) =~= xts);
            lemma_applied_all(start, xts, outcomes@);
            assert(event_outcomes(self@.events) =~= outcomes@);
        }
        let header = match self.finalize_block(host) {
            Ok(header) => header,
            Err(e) => {
                return Err(e);
            },
        };
        match header.mismatch(&block.header) {
            Some(field) => Err(BlockError::HeaderMismatch(field)),
            None => Ok(outcomes),
        }
    }
}

impl Executive {
    /// The height of the block that a transaction accepted now would go
    /// into.
    pub fn pending_height(&self) -> (height: BlockNumber)
        ensures
            height == self@.pending_height(),
    {
        if self.phase == Phase::Initialized || self.number == u64::MAX {
            self.number
        } else {
            self.number + 1
        }
    }

    /// Decides whether the extrinsic can be included in the next block as
    /// a transaction from the pool, given what the chain knows about its
    /// sender.
    pub fn validity(&self, xt: &UncheckedExtrinsic, facts: &SignerFacts) -> (validity:
        TransactionValidity)
        ensures
            validity == self@.validity(xt@, *facts),
    {
        let signed = match &xt.signed {
            None => {
                return TransactionValidity::Invalid(InvalidReason::Unsigned);
            },
            Some(signed) => signed,
        };
        if !self.registry.admits(&xt.call) {
            return TransactionValidity::Invalid(InvalidReason::UnknownCall);
        }
        let height = self.pending_height();
        match check(xt, facts, height) {
            Err(ApplyError::UnknownSigner) => TransactionValidity::Unknown(
                UnknownReason::UnknownSigner,
            ),
            Err(ApplyError::Future) => TransactionValidity::Unknown(UnknownReason::Future),
            Err(ApplyError::Expired) => TransactionValidity::Invalid(InvalidReason::Expired),
            Err(ApplyError::BadSignature) => TransactionValidity::Invalid(
                InvalidReason::BadSignature,
            ),
            Err(ApplyError::Stale) => TransactionValidity::Invalid(InvalidReason::Stale),
            Err(_) => TransactionValidity::Invalid(InvalidReason::CantPay),
            Ok(xt_checked) => {
                let encoded = xt.encode();
                match xt_checked.signed {
                    Some(provides) => TransactionValidity::Valid(
                        ValidTransaction {
                            priority: encoded.len() as u64,
                            provides,
                            longevity: signed.era.longevity(height),
                        },
                    ),
                    None => TransactionValidity::Invalid(InvalidReason::Unsigned),
                }
            },
        }
    }

    /// Says whether a transaction can be included in the next block,
    /// against the state as it is. Neither the executive nor the chain
    /// state changes.
    pub fn validate_transaction<H: Host>(&self, host: &H, xt: &UncheckedExtrinsic) -> (validity:
        TransactionValidity)
        ensures
            exists|facts: SignerFacts| #[trigger]
                facts_fit(xt@, facts) && validity == self@.validity(xt@, facts),
    {
        let encoded = xt.encode();
        let facts = gather(host, xt, encoded.len());
        self.validity(xt, &facts)
    }

    /// Runs the off-chain worker of every module, in registry order. The
    /// workers read the chain state; neither they nor this call change it
    /// or the executive.
    pub fn offchain_worker<H: Host>(&self, host: &H, number: BlockNumber) {
        let n: usize = self.registry.module_count();
        let mut position: usize = 0;
        while position < n
            invariant
                position <= n <= MAX_MODULES,
            decreases n - position,
        {
            host.offchain_worker(position as u8, number);
            position += 1;
        }
    }
}

/// A signed transaction for a known function is valid for the pool exactly
/// when its sender passes the checks that apply when it is put into a
/// block; a nonce that is not yet due or a sender that is not yet known
/// leaves the answer open, and every other failure makes it invalid.
pub proof fn lemma_validity_follows_checks(
    state: ExecutiveView,
    xt: UncheckedExtrinsicView,
    facts: SignerFacts,
)
    requires
        xt.signed is Some,
        state.registry.admits(xt.call),
    ensures
        state.validity(xt, facts) is Valid <==> checked(xt, facts, state.pending_height()) is Ok,
        state.validity(xt, facts) is Unknown <==> (checked(xt, facts, state.pending_height())
            == Err::<CheckedExtrinsicView, ApplyError>(ApplyError::UnknownSigner) || checked(
            xt,
            facts,
            state.pending_height(),
        ) == Err::<CheckedExtrinsicView, ApplyError>(ApplyError::Future)),
{
}

} // verus!
