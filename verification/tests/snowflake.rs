use gateway_client::utils::{to_decimal, Snowflake, SnowflakeError};

#[test]
fn test_snowflake() {
    let snowflake = Snowflake::from_bits(782164174821523467).unwrap();
    assert_eq!(snowflake.timestamp.timestamp_millis(), 1606552871185);
}

#[test]
fn snowflake_fields_are_unpacked() {
    let snowflake = Snowflake::from_bits(782164174821523467).unwrap();
    assert_eq!(snowflake.raw, "782164174821523467");
    assert_eq!(snowflake.internal_worker_id, 3);
    assert_eq!(snowflake.internal_process_id, 0);
    assert_eq!(snowflake.increment, 11);
    assert_eq!(snowflake.to_text(), "782164174821523467");
}

#[test]
fn snowflake_documented_example() {
    // 2016-04-30 11:18:25.796 UTC, worker 1, process 0, increment 7
    let snowflake = Snowflake::from_bits(175928847299117063).unwrap();
    assert_eq!(snowflake.timestamp.timestamp_millis(), 1462015105796);
    assert_eq!(snowflake.internal_worker_id, 1);
    assert_eq!(snowflake.internal_process_id, 0);
    assert_eq!(snowflake.increment, 7);
}

#[test]
fn snowflake_zero_is_the_epoch() {
    let snowflake = Snowflake::from_bits(0).unwrap();
    assert_eq!(snowflake.timestamp.timestamp_millis(), 1420070400000);
    assert_eq!(snowflake.raw, "0");
    assert_eq!(snowflake.increment, 0);
}

#[test]
fn snowflake_all_bits_set() {
    let snowflake = Snowflake::from_bits(u64::MAX).unwrap();
    assert_eq!(snowflake.timestamp.timestamp_millis(), 4398046511103 + 1420070400000);
    assert_eq!(snowflake.internal_worker_id, 31);
    assert_eq!(snowflake.internal_process_id, 31);
    assert_eq!(snowflake.increment, 4095);
    assert_eq!(snowflake.raw, "18446744073709551615");
}

#[test]
fn snowflake_each_field_alone() {
    let worker = Snowflake::from_bits(5 << 17).unwrap();
    assert_eq!(worker.internal_worker_id, 5);
    assert_eq!(worker.internal_process_id, 0);
    assert_eq!(worker.increment, 0);
    assert_eq!(worker.timestamp.timestamp_millis(), 1420070400000);
    let process = Snowflake::from_bits(9 << 12).unwrap();
    assert_eq!(process.internal_worker_id, 0);
    assert_eq!(process.internal_process_id, 9);
    let instant = Snowflake::from_bits(1 << 22).unwrap();
    assert_eq!(instant.timestamp.timestamp_millis(), 1420070400001);
}

#[test]
fn snowflake_decoding_never_fails() {
    for bits in [0u64, 1, 4095, 4096, 1 << 22, 1 << 63, u64::MAX - 1, u64::MAX] {
        assert_ne!(Snowflake::from_bits(bits).map(|s| s.raw), Err(SnowflakeError::InvalidBits));
    }
}

#[test]
fn decimal_notation() {
    assert_eq!(to_decimal(0), "0");
    assert_eq!(to_decimal(9), "9");
    assert_eq!(to_decimal(10), "10");
    assert_eq!(to_decimal(1234567890), "1234567890");
    assert_eq!(to_decimal(u64::MAX), u64::MAX.to_string());
}
