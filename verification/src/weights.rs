//! Transaction weights: a deterministic scalar cost assigned to every
//! dispatchable call before it is executed.
//!
//! A weight depends only on the weighting policy declared for the call and on
//! the encoded length of the transaction that carries it, never on what the
//! call does when it runs. All weight arithmetic saturates.

use vstd::prelude::*;

verus! {

/// The scalar cost of a transaction.
pub type Weight = u32;

/// The weight of a transaction that fills a block on its own.
pub const MAX_BLOCK_WEIGHT: Weight = 4 * 1024 * 1024;

/// `a + b`, capped at the largest weight.
pub open spec fn saturating_sum(a: int, b: int) -> int {
    if a + b > Weight::MAX {
        Weight::MAX as int
    } else {
        a + b
    }
}

/// `a * b`, capped at the largest weight.
pub open spec fn saturating_product(a: int, b: int) -> int {
    if a * b > Weight::MAX {
        Weight::MAX as int
    } else {
        a * b
    }
}

/// A call that knows its own weight, given the encoded length of the
/// transaction that carries it.
pub trait WeighableCall {
    /// The weight of this call.
    fn weight(&self, len: usize) -> Weight;
}

/// A weighting policy that can be attached to a dispatchable function.
pub trait WeighableTransaction {
    /// Consumes the policy and returns the weight of a transaction of `len`
    /// encoded bytes.
    fn calculate_weight(self, len: usize) -> Weight;
}

/// The weighting policy of a dispatchable function.
#[derive(Clone, Copy, Debug, PartialEq, Eq, Structural)]
pub enum TransactionWeight {
    /// A base weight and a weight per encoded byte, in that order.
    Basic(Weight, Weight),
    /// The transaction may be included, but none may follow it in the block.
    Max,
    /// The transaction is left out of block-weight accounting.
    Free,
}

impl TransactionWeight {
    /// The weight this policy assigns to a transaction of `len` encoded bytes.
    pub open spec fn weight_for(self, len: int) -> int {
        match self {
            TransactionWeight::Basic(base, per_byte) => saturating_sum(
                base as int,
                saturating_product(per_byte as int, len),
            ),
            TransactionWeight::Max => MAX_BLOCK_WEIGHT as int,
            TransactionWeight::Free => 0,
        }
    }

    /// Whether transactions under this policy count towards the block weight.
    pub open spec fn is_accounted(self) -> bool {
        !(self is Free)
    }
}

impl WeighableTransaction for TransactionWeight {
    fn calculate_weight(self, len: usize) -> (w: Weight)
        ensures
            w == self.weight_for(len as int),
    {
        match self {
            TransactionWeight::Basic(base, per_byte) => {
                if per_byte == 0 {
                    return base;
                }
                if len > 0xffff_ffff {
                    assert(per_byte as int * len as int > Weight::MAX) by (nonlinear_arith)
                        requires
                            per_byte >= 1,
                            len > 0xffff_ffff,
                    ;
                    return base.saturating_add(Weight::MAX);
                }
                assert(per_byte as int * len as int <= 0xffff_ffff * 0xffff_ffff) by (nonlinear_arith)
                    requires
                        0 <= per_byte <= 0xffff_ffff,
                        0 <= len <= 0xffff_ffff,
                ;
                let product: u64 = (per_byte as u64) * (len as u64);
                let bytes: Weight = if product > 0xffff_ffff {
                    Weight::MAX
                } else {
                    product as Weight
                };
                base.saturating_add(bytes)
            },
            TransactionWeight::Max => MAX_BLOCK_WEIGHT,
            TransactionWeight::Free => 0,
        }
    }
}

impl Default for TransactionWeight {
    /// The policy of a function that declares none: the weight of a
    /// transaction is its encoded length.
    fn default() -> (policy: Self)
        ensures
            policy == TransactionWeight::Basic(0, 1),
    {
        TransactionWeight::Basic(0, 1)
    }
}

/// Under the default policy the weight of a transaction is its encoded
/// length, capped at the largest weight.
pub proof fn lemma_default_weight_is_length(len: usize)
    ensures
        TransactionWeight::Basic(0, 1).weight_for(len as int) == if len > Weight::MAX {
            Weight::MAX as int
        } else {
            len as int
        },
{
}

/// No policy ever yields more than the largest weight, and `Free` and `Max`
/// ignore the length altogether.
pub proof fn lemma_weight_bounds(policy: TransactionWeight, len: usize, other: usize)
    ensures
        0 <= policy.weight_for(len as int) <= Weight::MAX,
        policy is Free ==> policy.weight_for(len as int) == 0,
        policy is Max ==> policy.weight_for(len as int) == policy.weight_for(other as int),
{
    if let TransactionWeight::Basic(base, per_byte) = policy {
        assert(per_byte as int * len as int >= 0) by (nonlinear_arith)
            requires
                per_byte >= 0,
                len >= 0,
        ;
    }
}

/// What a [`BlockMeter`] stands for.
pub struct BlockMeterView {
    /// The most weight a block may accumulate.
    pub limit: Weight,
    /// The weight the block has accumulated.
    pub used: Weight,
    /// Whether a transaction of maximum weight is in the block.
    pub max_applied: bool,
}

impl BlockMeterView {
    /// Whether the block has room for a transaction of this policy and
    /// weight. A free transaction always fits. Any other fits if its
    /// weight, added to the weight accumulated so far, stays within the
    /// limit; one of maximum weight must also be the first of its kind in
    /// the block.
    pub open spec fn has_room(self, policy: TransactionWeight, weight: int) -> bool {
        match policy {
            TransactionWeight::Free => true,
            TransactionWeight::Max => !self.max_applied && self.used + weight <= self.limit,
            TransactionWeight::Basic(_, _) => self.used + weight <= self.limit,
        }
    }

    /// The meter once a transaction of this policy and weight is in the
    /// block. A free transaction adds nothing; one of maximum weight uses
    /// up all that is left.
    pub open spec fn after(self, policy: TransactionWeight, weight: int) -> BlockMeterView {
        match policy {
            TransactionWeight::Free => self,
            TransactionWeight::Max => BlockMeterView {
                used: self.limit,
                max_applied: true,
                ..self
            },
            TransactionWeight::Basic(_, _) => BlockMeterView {
                used: (self.used + weight) as Weight,
                ..self
            },
        }
    }

    /// The meter of a block that holds nothing yet.
    pub open spec fn reset(self) -> BlockMeterView {
        BlockMeterView { used: 0, max_applied: false, ..self }
    }
}

/// The weight a block has accumulated, held against the most it may
/// accumulate.
pub struct BlockMeter {
    limit: Weight,
    used: Weight,
    max_applied: bool,
}

impl View for BlockMeter {
    type V = BlockMeterView;

    closed spec fn view(&self) -> BlockMeterView {
        BlockMeterView { limit: self.limit, used: self.used, max_applied: self.max_applied }
    }
}

impl BlockMeter {
    #[verifier::type_invariant]
    closed spec fn within_limit(&self) -> bool {
        self.used <= self.limit
    }

    /// The meter of an empty block that may accumulate up to `limit`.
    pub fn new(limit: Weight) -> (meter: BlockMeter)
        ensures
            meter@ == (BlockMeterView { limit, used: 0, max_applied: false }),
    {
        BlockMeter { limit, used: 0, max_applied: false }
    }

    /// The most weight the block may accumulate.
    pub fn limit(&self) -> (limit: Weight)
        ensures
            limit == self@.limit,
    {
        self.limit
    }

    /// The weight the block has accumulated. It never exceeds the limit.
    pub fn used(&self) -> (used: Weight)
        ensures
            used == self@.used,
            used <= self@.limit,
    {
        proof {
            use_type_invariant(self);
        }
        self.used
    }

    /// Whether a transaction of maximum weight is in the block.
    pub fn max_applied(&self) -> (applied: bool)
        ensures
            applied == self@.max_applied,
    {
        self.max_applied
    }

    /// Starts the accounts of a new block.
    pub fn reset(&mut self)
        ensures
            final(self)@ == old(self)@.reset(),
    {
        self.used = 0;
        self.max_applied = false;
    }

    /// Whether the block has room for a transaction of this policy and
    /// weight.
    pub fn has_room(&self, policy: TransactionWeight, weight: Weight) -> (room: bool)
        ensures
            room == self@.has_room(policy, weight as int),
    {
        match policy {
            TransactionWeight::Free => true,
            TransactionWeight::Max => !self.max_applied && self.used as u64 + weight as u64
                <= self.limit as u64,
            TransactionWeight::Basic(_, _) => self.used as u64 + weight as u64
                <= self.limit as u64,
        }
    }

    /// Enters a transaction of this policy and weight into the accounts of
    /// the block if the block has room for it, and says whether it had.
    pub fn take(&mut self, policy: TransactionWeight, weight: Weight) -> (admitted: bool)
        ensures
            admitted == old(self)@.has_room(policy, weight as int),
            admitted ==> final(self)@ == old(self)@.after(policy, weight as int),
            !admitted ==> final(self)@ == old(self)@,
            final(self)@.used <= final(self)@.limit,
    {
        proof {
            use_type_invariant(&*self);
        }
        if !self.has_room(policy, weight) {
            return false;
        }
        match policy {
            TransactionWeight::Free => {},
            TransactionWeight::Max => {
                self.used = self.limit;
                self.max_applied = true;
            },
            TransactionWeight::Basic(_, _) => {
                self.used = self.used + weight;
            },
        }
        true
    }
}

} // verus!
