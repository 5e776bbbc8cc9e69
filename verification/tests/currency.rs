use node_runtime::currency::CurrencyToVoteHandler;

const MAX_VOTE: u128 = u64::MAX as u128;

#[test]
fn the_factor_is_one_while_the_issuance_fits_a_vote() {
    assert_eq!(CurrencyToVoteHandler { total_issuance: 0 }.factor(), 1);
    assert_eq!(CurrencyToVoteHandler { total_issuance: 1_000_000 }.factor(), 1);
    assert_eq!(CurrencyToVoteHandler { total_issuance: MAX_VOTE - 1 }.factor(), 1);
    assert_eq!(CurrencyToVoteHandler { total_issuance: MAX_VOTE }.factor(), 1);
    assert_eq!(CurrencyToVoteHandler { total_issuance: 2 * MAX_VOTE - 1 }.factor(), 1);
}

#[test]
fn the_factor_grows_with_the_issuance() {
    assert_eq!(CurrencyToVoteHandler { total_issuance: 2 * MAX_VOTE }.factor(), 2);
    assert_eq!(CurrencyToVoteHandler { total_issuance: 1000 * MAX_VOTE + 5 }.factor(), 1000);
    assert_eq!(CurrencyToVoteHandler { total_issuance: u128::MAX }.factor(), (1u128 << 64) + 1);
}

#[test]
fn a_balance_is_scaled_down_to_a_vote() {
    let small = CurrencyToVoteHandler { total_issuance: 1_000 };
    assert_eq!(small.to_vote(0), 0);
    assert_eq!(small.to_vote(999), 999);
    let large = CurrencyToVoteHandler { total_issuance: 10 * MAX_VOTE };
    assert_eq!(large.to_vote(99), 9);
    assert_eq!(large.to_vote(10 * MAX_VOTE), u64::MAX);
    assert_eq!(large.to_vote(5 * MAX_VOTE), u64::MAX / 2);
}

#[test]
fn a_vote_keeps_the_low_bits_of_a_balance_that_is_too_large() {
    let handler = CurrencyToVoteHandler { total_issuance: 1_000 };
    assert_eq!(handler.to_vote(MAX_VOTE + 1), 0);
    assert_eq!(handler.to_vote(MAX_VOTE + 8), 7);
    assert_eq!(handler.to_vote(u128::MAX), u64::MAX);
}

#[test]
fn a_vote_is_scaled_up_to_a_balance() {
    let small = CurrencyToVoteHandler { total_issuance: 1_000 };
    assert_eq!(small.to_currency(999), 999);
    let large = CurrencyToVoteHandler { total_issuance: 10 * MAX_VOTE };
    assert_eq!(large.to_currency(9), 90);
    assert_eq!(large.to_currency(MAX_VOTE), 10 * MAX_VOTE);
    let largest = CurrencyToVoteHandler { total_issuance: u128::MAX };
    assert_eq!(largest.to_currency(MAX_VOTE), u128::MAX);
}

#[test]
fn scaling_down_and_up_loses_less_than_the_factor() {
    let handler = CurrencyToVoteHandler { total_issuance: 10 * MAX_VOTE };
    for balance in [0u128, 9, 10, 12_345, 10 * MAX_VOTE] {
        let back = handler.to_currency(handler.to_vote(balance) as u128);
        assert!(back <= balance);
        assert!(balance - back < 10);
    }
}
