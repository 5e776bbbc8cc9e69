use node_runtime::weights::{
    BlockMeter, TransactionWeight, WeighableTransaction, Weight, MAX_BLOCK_WEIGHT,
};

#[test]
fn basic_weight_is_base_plus_bytes() {
    assert_eq!(TransactionWeight::Basic(10, 5).calculate_weight(20), 110);
}

#[test]
fn max_weight_ignores_length() {
    assert_eq!(TransactionWeight::Max.calculate_weight(999), 4 * 1024 * 1024);
    assert_eq!(TransactionWeight::Max.calculate_weight(0), MAX_BLOCK_WEIGHT);
    assert_eq!(TransactionWeight::Max.calculate_weight(usize::MAX), 4_194_304);
}

#[test]
fn free_weight_is_zero() {
    assert_eq!(TransactionWeight::Free.calculate_weight(5000), 0);
    assert_eq!(TransactionWeight::Free.calculate_weight(0), 0);
    assert_eq!(TransactionWeight::Free.calculate_weight(usize::MAX), 0);
}

#[test]
fn default_policy_weighs_the_length() {
    assert_eq!(TransactionWeight::default(), TransactionWeight::Basic(0, 1));
    assert_eq!(TransactionWeight::default().calculate_weight(0), 0);
    assert_eq!(TransactionWeight::default().calculate_weight(137), 137);
}

#[test]
fn basic_weight_saturates_in_the_product() {
    let w: Weight = TransactionWeight::Basic(0, u32::MAX).calculate_weight(2);
    assert_eq!(w, u32::MAX);
    assert_eq!(TransactionWeight::Basic(7, 65_536).calculate_weight(65_536), u32::MAX);
    assert_eq!(TransactionWeight::Basic(0, 65_536).calculate_weight(65_535), 4_294_901_760);
}

#[test]
fn basic_weight_saturates_in_the_sum() {
    assert_eq!(TransactionWeight::Basic(u32::MAX, 1).calculate_weight(1), u32::MAX);
    assert_eq!(TransactionWeight::Basic(u32::MAX - 5, 1).calculate_weight(5), u32::MAX);
    assert_eq!(TransactionWeight::Basic(u32::MAX - 5, 1).calculate_weight(4), u32::MAX - 1);
}

#[test]
fn basic_weight_with_no_byte_weight_is_the_base() {
    assert_eq!(TransactionWeight::Basic(42, 0).calculate_weight(usize::MAX), 42);
    assert_eq!(TransactionWeight::Basic(0, 0).calculate_weight(9), 0);
}

#[test]
fn basic_weight_of_a_length_beyond_the_weight_range() {
    let len = usize::MAX;
    assert_eq!(TransactionWeight::Basic(0, 1).calculate_weight(len), u32::MAX);
    assert_eq!(TransactionWeight::Basic(3, 2).calculate_weight(len), u32::MAX);
}

#[test]
fn meter_takes_basic_weights_up_to_the_limit() {
    let mut meter = BlockMeter::new(100);
    assert_eq!(meter.limit(), 100);
    assert_eq!(meter.used(), 0);
    assert!(meter.take(TransactionWeight::Basic(0, 1), 60));
    assert_eq!(meter.used(), 60);
    assert!(meter.has_room(TransactionWeight::Basic(0, 1), 40));
    assert!(!meter.has_room(TransactionWeight::Basic(0, 1), 41));
    assert!(!meter.take(TransactionWeight::Basic(0, 1), 41));
    assert_eq!(meter.used(), 60);
    assert!(meter.take(TransactionWeight::Basic(0, 1), 40));
    assert_eq!(meter.used(), 100);
    assert!(!meter.take(TransactionWeight::Basic(0, 1), 1));
    assert!(meter.take(TransactionWeight::Basic(0, 0), 0));
    assert_eq!(meter.used(), 100);
}

#[test]
fn meter_leaves_free_weights_out() {
    let mut meter = BlockMeter::new(10);
    assert!(meter.take(TransactionWeight::Basic(0, 1), 10));
    assert!(meter.take(TransactionWeight::Free, 0));
    assert!(meter.take(TransactionWeight::Free, 0));
    assert_eq!(meter.used(), 10);
    assert!(!meter.max_applied());
}

#[test]
fn meter_lets_one_maximum_weight_use_up_the_block() {
    let mut meter = BlockMeter::new(5_000_000);
    assert!(meter.take(TransactionWeight::Basic(0, 1), 300));
    assert!(meter.take(TransactionWeight::Max, MAX_BLOCK_WEIGHT));
    assert_eq!(meter.used(), 5_000_000);
    assert!(meter.max_applied());
    assert!(!meter.take(TransactionWeight::Max, MAX_BLOCK_WEIGHT));
    assert!(!meter.take(TransactionWeight::Max, 0));
    assert!(!meter.take(TransactionWeight::Basic(0, 1), 1));
    assert!(meter.take(TransactionWeight::Free, 0));
    assert_eq!(meter.used(), 5_000_000);
    meter.reset();
    assert_eq!(meter.used(), 0);
    assert!(!meter.max_applied());
    assert!(meter.take(TransactionWeight::Max, MAX_BLOCK_WEIGHT));
}

#[test]
fn meter_has_no_room_for_a_maximum_weight_beyond_the_limit() {
    let mut meter = BlockMeter::new(MAX_BLOCK_WEIGHT);
    assert!(meter.has_room(TransactionWeight::Max, MAX_BLOCK_WEIGHT));
    assert!(meter.take(TransactionWeight::Basic(0, 1), 1));
    assert!(!meter.has_room(TransactionWeight::Max, MAX_BLOCK_WEIGHT));
    assert!(!meter.take(TransactionWeight::Max, MAX_BLOCK_WEIGHT));
    assert_eq!(meter.used(), 1);
    assert!(!meter.max_applied());
    let mut small = BlockMeter::new(1000);
    assert!(!small.take(TransactionWeight::Max, MAX_BLOCK_WEIGHT));
    assert_eq!(small.used(), 0);
}

#[test]
fn meter_never_wraps_at_the_top_of_the_range() {
    let mut meter = BlockMeter::new(u32::MAX);
    assert!(meter.take(TransactionWeight::Basic(0, 1), u32::MAX - 1));
    assert!(!meter.take(TransactionWeight::Basic(0, 1), 2));
    assert!(!meter.take(TransactionWeight::Basic(0, 1), u32::MAX));
    assert_eq!(meter.used(), u32::MAX - 1);
}
