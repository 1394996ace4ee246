use std::cmp::Ordering;

use rigel::utils::snowflake::{
    DeconstructedSnowflake, GenerateOptions, Snowflake, DISCORD_EPOCH, MAXIMUM_INCREMENT, MAXIMUM_PROCESS_ID,
    MAXIMUM_WORKER_ID, TWITTER_EPOCH,
};
use rigel::utils::text::decimal_string;

fn at(timestamp: u64) -> Option<GenerateOptions> {
    Some(GenerateOptions { timestamp: Some(timestamp), ..GenerateOptions::default() })
}

#[test]
fn constants_have_their_values() {
    assert_eq!(MAXIMUM_WORKER_ID, 31);
    assert_eq!(MAXIMUM_PROCESS_ID, 31);
    assert_eq!(MAXIMUM_INCREMENT, 4095);
    assert_eq!(DISCORD_EPOCH, 1420070400000);
    assert_eq!(TWITTER_EPOCH, 1288834974657);
}

#[test]
fn new_generator_defaults() {
    let s = Snowflake::new(DISCORD_EPOCH);
    assert_eq!(s.epoch(), DISCORD_EPOCH);
    assert_eq!(s.process_id(), 1);
    assert_eq!(s.worker_id(), 0);
}

#[test]
fn setters_keep_five_bits() {
    let mut s = Snowflake::new(TWITTER_EPOCH);
    s.set_process_id(3);
    s.set_worker_id(40);
    assert_eq!(s.process_id(), 3);
    assert_eq!(s.worker_id(), 8);
    assert_eq!(s.epoch(), TWITTER_EPOCH);
}

#[test]
fn generate_at_lays_out_the_parts() {
    let s = Snowflake::new(DISCORD_EPOCH);
    let id = s.generate_at(at(DISCORD_EPOCH + 1000), 0, 5);
    assert_eq!(id, (1000u64 << 22) | (1 << 12) | 5);
    assert_eq!(id, 4194308101);
}

#[test]
fn generate_at_uses_clock_and_masks_counter() {
    let s = Snowflake::new(DISCORD_EPOCH);
    let id = s.generate_at(None, DISCORD_EPOCH + 7, 4096 + 9);
    assert_eq!(id, (7u64 << 22) | (1 << 12) | 9);
}

#[test]
fn generate_at_takes_given_ids_masked() {
    let s = Snowflake::new(DISCORD_EPOCH);
    let options = Some(GenerateOptions {
        increment: Some(12),
        timestamp: Some(DISCORD_EPOCH + 2),
        worker_id: Some(33),
        process_id: Some(2),
    });
    let id = s.generate_at(options, 0, 999);
    assert_eq!(id, (2u64 << 22) | (1 << 17) | (2 << 12) | 12);
}

#[test]
fn generated_id_round_trips() {
    let s = Snowflake::new(DISCORD_EPOCH);
    let options = Some(GenerateOptions {
        increment: Some(77),
        timestamp: Some(DISCORD_EPOCH + 123_456_789),
        worker_id: Some(4),
        process_id: Some(6),
    });
    let id = s.generate(options);
    let d = s.deconstruct(id);
    assert_eq!(
        d,
        DeconstructedSnowflake {
            id,
            timestamp: DISCORD_EPOCH + 123_456_789,
            worker_id: 4,
            process_id: 6,
            increment: 77,
            epoch: DISCORD_EPOCH,
        }
    );
}

#[test]
fn generate_reads_the_clock() {
    let s = Snowflake::new(DISCORD_EPOCH);
    let first = s.generate(None);
    let second = s.generate(None);
    assert!(s.timestamp_from(first) >= DISCORD_EPOCH);
    assert!(s.timestamp_from(second) >= s.timestamp_from(first));
    assert_eq!(s.deconstruct(first).process_id, 1);
    assert_ne!(first, second);
}

#[test]
fn deconstruct_known_id() {
    let s = Snowflake::new(DISCORD_EPOCH);
    let d = s.deconstruct(175928847299117063);
    assert_eq!(d.timestamp, 1462015105796);
    assert_eq!(d.worker_id, 1);
    assert_eq!(d.process_id, 0);
    assert_eq!(d.increment, 7);
    assert_eq!(d.epoch, DISCORD_EPOCH);
    assert_eq!(s.decode(175928847299117063), d);
    assert_eq!(s.timestamp_from(175928847299117063), 1462015105796);
}

#[test]
fn compare_strings_orders_by_length_then_bytes() {
    assert_eq!(Snowflake::compare_strings("9", "10"), Ordering::Less);
    assert_eq!(Snowflake::compare_strings("100", "99"), Ordering::Greater);
    assert_eq!(Snowflake::compare_strings("123", "124"), Ordering::Less);
    assert_eq!(Snowflake::compare_strings("124", "123"), Ordering::Greater);
    assert_eq!(Snowflake::compare_strings("42", "42"), Ordering::Equal);
    assert_eq!(Snowflake::compare_strings("", ""), Ordering::Equal);
}

#[test]
fn compare_strings_agrees_with_numbers() {
    let values = [0u64, 7, 9, 10, 99, 100, 4194308101, 175928847299117063, u64::MAX];
    for a in values {
        for b in values {
            assert_eq!(Snowflake::compare_strings(&decimal_string(a), &decimal_string(b)), a.cmp(&b));
        }
    }
}

#[test]
fn decimal_string_matches_to_string() {
    for n in [0u64, 5, 10, 42, 1000, 175928847299117063, u64::MAX] {
        assert_eq!(decimal_string(n), n.to_string());
    }
}
