use serenity_sharder::{BootRange, ShardingStrategy};

#[test]
fn test_auto() {
    assert_eq!(ShardingStrategy::Autoshard, ShardingStrategy::auto());
}

#[test]
fn test_default() {
    assert_eq!(ShardingStrategy::default(), ShardingStrategy::Autoshard);
}

#[test]
fn test_range() {
    let (lhs, rhs) = (
        ShardingStrategy::Range(0, 4, 10),
        ShardingStrategy::range(0, 4, 10),
    );

    assert_eq!(lhs, rhs);
}

#[test]
fn range_values_are_returned_as_given() {
    assert_eq!(ShardingStrategy::Range(0, 5, 10).values(), Some((0, 5, 10)));
    assert_eq!(ShardingStrategy::Range(3, 19, 40).values(), Some((3, 19, 40)));
}

#[test]
fn autoshard_has_no_values() {
    assert!(ShardingStrategy::Autoshard.values().is_none());
}

#[test]
fn range_resolves_to_its_own_boot_range() {
    let range = ShardingStrategy::Range(2, 7, 12).boot_range();
    assert_eq!(range, BootRange { start: 2, end: 7, total: 12 });
}

#[test]
fn out_of_order_range_is_accepted_as_given() {
    let range = ShardingStrategy::Range(9, 4, 3).boot_range();
    assert_eq!(range, BootRange { start: 9, end: 4, total: 3 });
}

#[test]
fn autoshard_falls_back_to_a_single_shard() {
    let range = ShardingStrategy::Autoshard.boot_range();
    assert_eq!(range, BootRange { start: 0, end: 0, total: 1 });
}
