use shard_manager::strategy::{ShardManagerOptions, ShardRange, ShardingStrategy, StrategyError};

#[test]
fn auto_is_autoshard() {
    assert_eq!(ShardingStrategy::auto(), ShardingStrategy::Autoshard);
}

#[test]
fn default_strategy_is_autoshard() {
    assert_eq!(ShardingStrategy::default(), ShardingStrategy::Autoshard);
}

#[test]
fn multi_owns_the_whole_deployment() {
    assert_eq!(ShardingStrategy::multi(4), ShardingStrategy::Range(0, 4, 4));
    let range = ShardingStrategy::multi(4).resolve().unwrap();
    assert_eq!(range.shard_ids(), vec![0, 1, 2, 3]);
}

#[test]
fn simple_owns_shard_zero() {
    let strategy = ShardingStrategy::simple();
    assert_eq!(strategy, ShardingStrategy::Range(0, 1, 1));
    let range = strategy.resolve().unwrap();
    assert_eq!(range, ShardRange { index: 0, count: 1, total: 1 });
    assert_eq!(range.shard_ids(), vec![0]);
}

#[test]
fn range_keeps_its_three_numbers() {
    assert_eq!(ShardingStrategy::range(2, 3, 8), ShardingStrategy::Range(2, 3, 8));
}

#[test]
fn range_enumerates_count_consecutive_ids_below_total() {
    let range = ShardingStrategy::range(2, 3, 8).resolve().unwrap();
    let ids = range.shard_ids();
    assert_eq!(ids, vec![2, 3, 4]);
    assert_eq!(ids.len() as u64, range.count);
    assert!(ids.iter().all(|id| *id < range.total));
}

#[test]
fn range_that_ends_at_total_resolves() {
    let range = ShardingStrategy::range(5, 3, 8).resolve().unwrap();
    assert_eq!(range.shard_ids(), vec![5, 6, 7]);
}

#[test]
fn range_at_the_top_of_the_id_space_resolves() {
    let range = ShardingStrategy::range(u64::MAX - 2, 2, u64::MAX).resolve().unwrap();
    assert_eq!(range.shard_ids(), vec![u64::MAX - 2, u64::MAX - 1]);
}

#[test]
fn empty_range_resolves_to_no_ids() {
    let range = ShardingStrategy::multi(0).resolve().unwrap();
    assert_eq!(range.shard_ids(), Vec::<u64>::new());
}

#[test]
fn auto_does_not_resolve() {
    assert_eq!(ShardingStrategy::auto().resolve(), Err(StrategyError::AutoshardUnsupported));
}

#[test]
fn range_beyond_total_does_not_resolve() {
    assert_eq!(ShardingStrategy::range(0, 5, 3).resolve(), Err(StrategyError::RangeExceedsTotal));
    assert_eq!(ShardingStrategy::range(6, 3, 8).resolve(), Err(StrategyError::RangeExceedsTotal));
    assert_eq!(ShardingStrategy::range(9, 0, 8).resolve(), Err(StrategyError::RangeExceedsTotal));
}

#[test]
fn range_that_overflows_does_not_resolve() {
    assert_eq!(
        ShardingStrategy::range(u64::MAX, 2, u64::MAX).resolve(),
        Err(StrategyError::RangeExceedsTotal)
    );
}

#[test]
fn default_options_are_empty() {
    let options = ShardManagerOptions::default();
    assert_eq!(options.strategy, ShardingStrategy::Autoshard);
    assert_eq!(options.token.as_str(), "");
    assert_eq!(options.ws_uri.as_str(), "");
}
