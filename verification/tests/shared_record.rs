use shared_record::decimal::format_i32;
use shared_record::handle::BorrowConflict;
use shared_record::handle::SharedHandle;
use shared_record::record::SharedData;

#[test]
fn format_zero_and_small_numbers() {
    assert_eq!(format_i32(0), "0");
    assert_eq!(format_i32(7), "7");
    assert_eq!(format_i32(10), "10");
    assert_eq!(format_i32(26), "26");
}

#[test]
fn format_large_and_negative_numbers() {
    assert_eq!(format_i32(123456), "123456");
    assert_eq!(format_i32(-1), "-1");
    assert_eq!(format_i32(i32::MAX), "2147483647");
    assert_eq!(format_i32(i32::MIN), "-2147483648");
}

#[test]
fn new_record_stores_id_and_value() {
    let r = SharedData::new("ConfigItem", 10);
    assert_eq!(r.id().as_str(), "ConfigItem");
    assert_eq!(r.value(), 10);
}

#[test]
fn update_value_log_line() {
    let mut r = SharedData::new("ConfigItem", 10);
    let log = r.update_value(25);
    assert_eq!(log, "Updating value for 'ConfigItem' from 10 to 25");
    assert_eq!(r.value(), 25);
}

#[test]
fn increment_value_log_line() {
    let mut r = SharedData::new("ConfigItem", 25);
    let log = r.increment_value();
    assert_eq!(log, "Incrementing value for 'ConfigItem' from 25 to 26");
    assert_eq!(r.value(), 26);
}

#[test]
fn display_log_line() {
    let r = SharedData::new("ConfigItem", 10);
    assert_eq!(r.display(), "Data ID: ConfigItem, Current Value: 10");
}

#[test]
fn owner_count_after_k_clones() {
    let mut h = SharedHandle::create(SharedData::new("counted", 0));
    assert_eq!(h.owner_count(), 1);
    for k in 1..6usize {
        h.clone_owner();
        assert_eq!(h.owner_count(), k + 1);
    }
}

#[test]
fn last_write_wins() {
    let mut h = SharedHandle::create(SharedData::new("item", 0));
    assert!(h.acquire_write().is_ok());
    h.set_value(5);
    h.set_value(9);
    assert_eq!(h.value(), 9);
    h.release_write();
}

#[test]
fn increment_equals_set_of_successor() {
    let mut via_increment = SharedHandle::create(SharedData::new("item", 41));
    assert!(via_increment.acquire_write().is_ok());
    via_increment.increment();

    let mut via_set = SharedHandle::create(SharedData::new("item", 41));
    assert!(via_set.acquire_write().is_ok());
    let current = via_set.value();
    via_set.set_value(current + 1);

    assert_eq!(via_increment.value(), via_set.value());
    assert_eq!(via_increment.value(), 42);
}

#[test]
fn mutation_visible_to_every_owner() {
    let mut h = SharedHandle::create(SharedData::new("shared", 1));
    h.clone_owner();
    // One owner mutates under the exclusive lease ...
    assert!(h.acquire_write().is_ok());
    h.set_value(99);
    h.release_write();
    // ... and another owner's read shows the mutated value, not a copy.
    assert!(h.acquire_read().is_ok());
    assert_eq!(h.display(), "Data ID: shared, Current Value: 99");
    assert_eq!(h.value(), 99);
    h.release_read();
}

#[test]
fn write_while_read_fails_with_borrow_conflict() {
    let mut h = SharedHandle::create(SharedData::new("leases", 0));
    assert!(h.acquire_read().is_ok());
    assert_eq!(h.acquire_write(), Err(BorrowConflict));
    h.release_read();
}

#[test]
fn second_write_fails_with_borrow_conflict() {
    let mut h = SharedHandle::create(SharedData::new("leases", 0));
    assert!(h.acquire_write().is_ok());
    assert_eq!(h.acquire_write(), Err(BorrowConflict));
    h.release_write();
}

#[test]
fn read_while_write_fails_with_borrow_conflict() {
    let mut h = SharedHandle::create(SharedData::new("leases", 0));
    assert!(h.acquire_write().is_ok());
    assert_eq!(h.acquire_read(), Err(BorrowConflict));
    h.release_write();
}

#[test]
fn two_concurrent_reads_succeed() {
    let mut h = SharedHandle::create(SharedData::new("leases", 3));
    assert!(h.acquire_read().is_ok());
    assert!(h.acquire_read().is_ok());
    assert_eq!(h.value(), 3);
    h.release_read();
    h.release_read();
    // With every read lease back, the exclusive lease is available again.
    assert!(h.acquire_write().is_ok());
    h.release_write();
}

#[test]
fn last_release_destroys_the_record() {
    let mut h = SharedHandle::create(SharedData::new("ephemeral", 8));
    h.clone_owner();
    assert_eq!(h.owner_count(), 2);
    h.drop_owner();
    assert_eq!(h.owner_count(), 1);
    assert!(h.is_live());
    h.drop_owner();
    assert_eq!(h.owner_count(), 0);
    assert!(!h.is_live());
}

#[test]
fn end_to_end_shared_mutation_scenario() {
    // A single owner creates the record inside the shared handle.
    let mut h = SharedHandle::create(SharedData::new("ConfigItem", 10));
    assert_eq!(h.owner_count(), 1);
    assert!(h.acquire_read().is_ok());
    assert_eq!(h.display(), "Data ID: ConfigItem, Current Value: 10");
    h.release_read();

    // Two further owners register; the record is shared, not copied.
    h.clone_owner();
    assert_eq!(h.owner_count(), 2);
    h.clone_owner();
    assert_eq!(h.owner_count(), 3);

    // One owner mutates under the exclusive lease.
    assert!(h.acquire_write().is_ok());
    let log_set = h.set_value(25);
    assert_eq!(log_set, "Updating value for 'ConfigItem' from 10 to 25");
    h.release_write();
    assert!(h.acquire_write().is_ok());
    let log_inc = h.increment();
    assert_eq!(log_inc, "Incrementing value for 'ConfigItem' from 25 to 26");
    h.release_write();

    // Every owner, including the original, sees the mutated value.
    assert!(h.acquire_read().is_ok());
    assert_eq!(h.display(), "Data ID: ConfigItem, Current Value: 26");
    assert_eq!(h.value(), 26);
    h.release_read();

    // All owners are still registered right before the releases.
    assert_eq!(h.owner_count(), 3);
    h.drop_owner();
    h.drop_owner();
    h.drop_owner();
    assert_eq!(h.owner_count(), 0);
    assert!(!h.is_live());
}
