use events::snowflake::SnowflakeCreator;

#[test]
fn convert_to_snow_flake() {
    let mut test = SnowflakeCreator::new(1, 0, 1420070400000, 6);
    let snowflake = test.create_id(1462015105796);
    assert_eq!(175928847299117063, snowflake)
}

#[test]
fn check_increment_does_not_overflow() {
    let mut test = SnowflakeCreator::new(1, 0, 1420070400000, 4095);
    let snowflake = test.create_id(1462015105796);

    assert_eq!(0, SnowflakeCreator::get_increment(&snowflake))
}

#[test]
fn check_max_number() {
    let test = SnowflakeCreator::new(1, 0, 1420070400000, 4095);
    // Monday, September 7, 2093. Most likely, we won't be alive until then~
    let snowflake = test.convert_time_to_snowflake(&3_903_090_455_554);
    // our max number for this particular start_millis
    assert_eq!(snowflake, 9223372036850581504)
}

#[test]
fn july_27th_to_snowflake() {
    let mut snowflake_creator = SnowflakeCreator::new(1, 0, 1420070400000, 0);
    // 1722006000000 - July 27th 00:00:00 JST.
    // 1722092399000 - July 27th 23:59:59 JST.
    let snowflake = snowflake_creator.create_id(1722006000000);
    assert_eq!(1266409694822531073, snowflake);
    assert_eq!(1266409694822400000, snowflake_creator.convert_time_to_snowflake(&1722006000000));
    assert_eq!(1266772078493696000, snowflake_creator.convert_time_to_snowflake(&1722092399000));
    // (60 * 60 * 24)  * 1000 - 1000; -> 60 seconds, 60 minutes, 24 hours. Minus 1 ms as we don't include ms.
    // 86,399,000
    assert_eq!((1266772078493696000u64 - 1266409694822400000u64) >> 22, ((60 * 60 * 24) * 1000 - 1000) as u64);
}

#[test]
fn sequence_value_is_embedded_in_low_bits() {
    let mut creator = SnowflakeCreator::new(3, 5, 1420070400000, 41);
    let snowflake = creator.create_id(1462015105796);
    assert_eq!(42, SnowflakeCreator::get_increment(&snowflake));
}

#[test]
fn sequence_wraps_and_ids_stay_distinct_within_one_millisecond() {
    let mut creator = SnowflakeCreator::new(1, 0, 1420070400000, 0);
    let mut seen = Vec::new();
    for _ in 0..4096u32 {
        let snowflake = creator.create_id(1462015105796);
        assert!(!seen.contains(&snowflake));
        seen.push(snowflake);
    }
}

#[test]
fn later_time_gives_larger_id_regardless_of_sequence() {
    let mut early = SnowflakeCreator::new(1, 0, 1420070400000, 4000);
    let mut late = SnowflakeCreator::new(1, 0, 1420070400000, 0);
    let early_id = early.create_id(1462015105796);
    let late_id = late.create_id(1462015105797);
    assert!(early_id < late_id);
}

#[test]
fn get_time_recovers_creation_time() {
    let mut creator = SnowflakeCreator::new(1, 0, 1420070400000, 6);
    let snowflake = creator.create_id(1462015105796);
    assert_eq!(1462015105796, creator.get_time(snowflake));
}

#[test]
fn get_timestamp_is_offset_measured_against_epoch_twice() {
    let creator = SnowflakeCreator::new(1, 0, 0, 0);
    // With a zero epoch, the relative offset agrees with the recovered time.
    let snowflake: u64 = 86399000u64 << 22;
    assert_eq!(86399000, creator.get_timestamp(&snowflake));
    assert_eq!(creator.get_time(snowflake), creator.get_timestamp(&snowflake));
}

#[test]
fn conversion_is_pure_and_keeps_low_bits_zero() {
    let creator = SnowflakeCreator::new(1, 0, 1420070400000, 0);
    let first = creator.convert_time_to_snowflake(&1722006000000);
    let second = creator.convert_time_to_snowflake(&1722006000000);
    assert_eq!(first, second);
    assert_eq!(0, first & 0x3F_FFFF);
    assert_eq!(0, creator.convert_time_to_snowflake(&0) & 0x3F_FFFF);
    assert_eq!(0, creator.convert_time_to_snowflake(&u64::MAX) & 0x3F_FFFF);
}
