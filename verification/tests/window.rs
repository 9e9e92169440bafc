use limtr::blocks::Blocks;
use limtr::time;
use limtr::usage::Usage;

fn usage(calls: usize, expiration: u64, last_call: u64) -> Usage {
    Usage { calls, expiration, last_call }
}

#[test]
fn first_call_counts_one() {
    assert_eq!(Usage::first_call(100), usage(1, 0, 100));
}

#[test]
fn block_expires_after_the_window() {
    assert_eq!(Usage::block(10, 100), usage(0, 110, 100));
    assert_eq!(Usage::block(0, 100), usage(0, 100, 100));
}

#[test]
fn default_usage_is_zeroed() {
    assert_eq!(Usage::default(), usage(0, 0, 0));
}

#[test]
fn update_at_capacity_blocks() {
    let mut record = usage(3, 0, 100);
    assert_eq!(record.update(3, 10, 105), 115);
    assert_eq!(record, usage(0, 115, 105));
}

#[test]
fn update_over_capacity_blocks() {
    let mut record = usage(5, 0, 100);
    assert_eq!(record.update(3, 10, 105), 115);
    assert_eq!(record, usage(0, 115, 105));
}

#[test]
fn update_at_capacity_blocks_even_after_idle_time() {
    let mut record = usage(3, 0, 100);
    assert_eq!(record.update(3, 10, 500), 510);
    assert_eq!(record, usage(0, 510, 500));
}

#[test]
fn update_with_zero_limit_always_blocks() {
    let mut record = usage(0, 0, 100);
    assert_eq!(record.update(0, 10, 101), 111);
    assert_eq!(record.update(0, 10, 102), 112);
    assert_eq!(record.update(0, 10, 200), 210);
    assert_eq!(record, usage(0, 210, 200));
}

#[test]
fn update_after_lapsed_block_starts_window() {
    let mut record = usage(0, 115, 105);
    assert_eq!(record.update(3, 10, 115), 0);
    assert_eq!(record, usage(1, 0, 115));
    let mut record = usage(0, 115, 105);
    assert_eq!(record.update(3, 10, 900), 0);
    assert_eq!(record, usage(1, 0, 900));
}

#[test]
fn update_under_active_block_changes_nothing() {
    let mut record = usage(0, 115, 105);
    assert_eq!(record.update(3, 10, 114), 115);
    assert_eq!(record, usage(0, 115, 105));
}

#[test]
fn update_after_idle_gap_resets_without_counting() {
    let mut record = usage(2, 0, 100);
    assert_eq!(record.update(3, 10, 110), 0);
    assert_eq!(record, usage(0, 0, 110));
    assert_eq!(record.update(3, 10, 111), 0);
    assert_eq!(record, usage(1, 0, 111));
}

#[test]
fn update_within_window_counts() {
    let mut record = usage(1, 0, 100);
    assert_eq!(record.update(3, 10, 109), 0);
    assert_eq!(record, usage(2, 0, 109));
}

#[test]
fn update_with_window_longer_than_clock_counts() {
    let mut record = usage(1, 0, 3);
    assert_eq!(record.update(3, 10, 5), 0);
    assert_eq!(record, usage(2, 0, 5));
}

#[test]
fn update_near_the_end_of_time_needs_no_room_unless_it_blocks() {
    let mut record = usage(1, 0, u64::MAX - 3);
    assert_eq!(record.update(3, 10, u64::MAX - 1), 0);
    assert_eq!(record, usage(2, 0, u64::MAX - 1));
    let mut record = usage(1, 0, 5);
    assert_eq!(record.update(3, u32::MAX, u64::MAX), 0);
    assert_eq!(record, usage(0, 0, u64::MAX));
    let mut record = usage(0, 7, 5);
    assert_eq!(record.update(3, u32::MAX, u64::MAX), 0);
    assert_eq!(record, usage(1, 0, u64::MAX));
    let mut record = usage(3, 0, 5);
    assert_eq!(record.update(3, 5, u64::MAX - 5), u64::MAX);
    assert_eq!(record, usage(0, u64::MAX, u64::MAX - 5));
}

#[test]
fn probe_reports_only_future_expiration() {
    assert_eq!(usage(0, 115, 105).probe(114), 115);
    assert_eq!(usage(0, 115, 105).probe(115), 0);
    assert_eq!(usage(0, 115, 105).probe(116), 0);
    assert_eq!(usage(2, 0, 105).probe(0), 0);
}

#[test]
fn table_starts_empty() {
    let blocks = Blocks::new();
    assert_eq!(blocks.usage(0), None);
    assert_eq!(blocks.get_limit(0, 100), 0);
    assert_eq!(Blocks::default().usage(7), None);
}

#[test]
fn table_first_update_creates_record() {
    let mut blocks = Blocks::new();
    assert_eq!(blocks.update_limit(4, 2, 10, 100), 0);
    assert_eq!(blocks.usage(4), Some(usage(1, 0, 100)));
    assert_eq!(blocks.usage(5), None);
}

#[test]
fn table_counts_each_feature_apart() {
    let mut blocks = Blocks::new();
    assert_eq!(blocks.update_limit(1, 1, 10, 100), 0);
    assert_eq!(blocks.update_limit(2, 1, 10, 100), 0);
    assert_eq!(blocks.update_limit(1, 1, 10, 101), 111);
    assert_eq!(blocks.get_limit(1, 102), 111);
    assert_eq!(blocks.get_limit(2, 102), 0);
    assert_eq!(blocks.usage(2), Some(usage(1, 0, 100)));
}

#[test]
fn table_set_limit_overwrites_record() {
    let mut blocks = Blocks::new();
    blocks.update_limit(1, 5, 10, 100);
    blocks.update_limit(1, 5, 10, 101);
    blocks.set_limit(1, 30, 102);
    assert_eq!(blocks.usage(1), Some(usage(0, 132, 102)));
    assert_eq!(blocks.get_limit(1, 131), 132);
    assert_eq!(blocks.get_limit(1, 132), 0);
    blocks.set_limit(9, 5, 200);
    assert_eq!(blocks.usage(9), Some(usage(0, 205, 200)));
}

#[test]
fn table_probe_leaves_lapsed_block_in_place() {
    let mut blocks = Blocks::new();
    blocks.set_limit(1, 10, 100);
    assert_eq!(blocks.get_limit(1, 500), 0);
    assert_eq!(blocks.usage(1), Some(usage(0, 110, 100)));
    assert_eq!(blocks.update_limit(1, 3, 10, 501), 0);
    assert_eq!(blocks.usage(1), Some(usage(1, 0, 501)));
}

#[test]
fn from_point_adds_seconds() {
    assert_eq!(time::from_point(100, 10), 110);
    assert_eq!(time::from_point(0, 0), 0);
    assert_eq!(time::from_point(u64::MAX - 5, 5), u64::MAX);
}

#[test]
fn in_future_lies_after_the_epoch() {
    let point = time::in_future(10);
    assert!(point >= 10 + 1_000_000_000);
    assert!(point <= i64::MAX as u64 + 10);
    let later = time::in_future(1000);
    assert!(later >= point + 990);
}
