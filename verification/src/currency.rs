//! Conversion between currency and votes.
//!
//! Balances are wider than the numbers that elections count with. A balance
//! is scaled down to a vote by a factor that depends on the total issuance,
//! and a vote is scaled up to a balance by the same factor.

use vstd::prelude::*;

verus! {

/// The factor by which balances are scaled down to votes when this much
/// currency has been issued: the total issuance over the largest vote, and
/// at least one.
pub open spec fn vote_factor(total_issuance: u128) -> int {
    if total_issuance / (u64::MAX as u128) < 1 {
        1
    } else {
        (total_issuance / (u64::MAX as u128)) as int
    }
}

/// Converts balances to votes and votes to balances.
#[derive(Clone, Copy, Debug, PartialEq, Eq)]
pub struct CurrencyToVoteHandler {
    /// How much currency has been issued in total.
    pub total_issuance: u128,
}

impl CurrencyToVoteHandler {
    /// The factor between balances and votes.
    pub fn factor(&self) -> (factor: u128)
        ensures
            factor == vote_factor(self.total_issuance),
            1 <= factor <= 0x1_0000_0000_0000_0001,
    {
        let scaled: u128 = self.total_issuance / (u64::MAX as u128);
        assert(scaled <= 0x1_0000_0000_0000_0001) by {
            assert(self.total_issuance <= u128::MAX);
            assert(0xffff_ffff_ffff_ffff_ffff_ffff_ffff_ffffu128 / 0xffff_ffff_ffff_ffffu128
                == 0x1_0000_0000_0000_0001u128) by (nonlinear_arith);
            vstd::arithmetic::div_mod::lemma_div_is_ordered(
                self.total_issuance as int,
                u128::MAX as int,
                u64::MAX as int,
            );
        }
        if scaled < 1 {
            1
        } else {
            scaled
        }
    }
}

impl CurrencyToVoteHandler {
    /// The vote that a balance stands for: the balance over the factor, of
    /// which the low 64 bits are kept.
    pub fn to_vote(&self, balance: u128) -> (vote: u64)
        ensures
            vote == (balance as int / vote_factor(self.total_issuance)) % 0x1_0000_0000_0000_0000,
    {
        let scaled: u128 = balance / self.factor();
        assert(scaled as u64 == scaled as int % 0x1_0000_0000_0000_0000) by (bit_vector);
        #[verifier::truncate]
        (scaled as u64)
    }

    /// Whether the balance that a vote stands for fits.
    pub open spec fn convertible(&self, vote: u128) -> bool {
        vote * vote_factor(self.total_issuance) <= u128::MAX
    }

    /// The balance that a vote stands for: the vote times the factor.
    pub fn to_currency(&self, vote: u128) -> (balance: u128)
        requires
            self.convertible(vote),
        ensures
            balance == vote * vote_factor(self.total_issuance),
    {
        vote * self.factor()
    }
}

/// Every vote that an election counts with can be converted to a balance:
/// the product of a 64-bit vote and the factor always fits.
pub proof fn lemma_votes_convert(handler: CurrencyToVoteHandler, vote: u128)
    requires
        vote <= u64::MAX,
    ensures
        handler.convertible(vote),
{
    let factor = vote_factor(handler.total_issuance);
    assert(factor <= 0x1_0000_0000_0000_0001) by {
        assert(0xffff_ffff_ffff_ffff_ffff_ffff_ffff_ffffu128 / 0xffff_ffff_ffff_ffffu128
            == 0x1_0000_0000_0000_0001u128) by (nonlinear_arith);
        vstd::arithmetic::div_mod::lemma_div_is_ordered(
            handler.total_issuance as int,
            u128::MAX as int,
            u64::MAX as int,
        );
    }
    assert(vote * factor <= 0xffff_ffff_ffff_ffff * 0x1_0000_0000_0000_0001) by (nonlinear_arith)
        requires
            0 <= vote <= 0xffff_ffff_ffff_ffff,
            0 <= factor <= 0x1_0000_0000_0000_0001,
    ;
}

} // verus!
