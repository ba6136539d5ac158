use qanik::{
    pack_id, sequence_of_count, ClockError, ConfigError, SnowFlake, DATACENTER_ID_BITS,
    EPOCH_START, MACHINE_ID_BITS, MAX_DATACENTER_ID, MAX_MACHINE_ID, MAX_SEQUENCE, MAX_TIMESTAMP,
    SEQUENCE_BITS, TIMESTAMP_BITS,
};
use std::time::{SystemTime, UNIX_EPOCH};

fn now_millis() -> u128 {
    SystemTime::now()
        .duration_since(UNIX_EPOCH)
        .expect("clock before the Unix epoch")
        .as_millis()
}

fn generate(flake: &SnowFlake) -> u64 {
    let ticket = flake.next_ticket();
    flake
        .compose_id(ticket.sequence, now_millis())
        .expect("clock before the custom epoch")
}

#[test]
#[should_panic]
fn datacenter_id_too_large() {
    let _snowflake = SnowFlake::new(128, 0).expect("Ha, got me datacenter errr...");
}

#[test]
#[should_panic]
fn machine_id_too_large() {
    let _snowflake = SnowFlake::new(0, 128).expect("Ha, got me machine errr...");
}

#[test]
fn check_generated_id() {
    let snowflake = SnowFlake::new(1, 1).expect("Something went wrong...");
    let id = generate(&snowflake);

    assert_eq!(id & 1, 1);
    assert_eq!(id >> SEQUENCE_BITS & 1, 1);
    assert_eq!(id >> (SEQUENCE_BITS + MACHINE_ID_BITS) & 1, 1);
}

#[test]
fn layout_constants() {
    assert_eq!(MAX_DATACENTER_ID, (1u64 << DATACENTER_ID_BITS) - 1);
    assert_eq!(MAX_MACHINE_ID, (1u64 << MACHINE_ID_BITS) - 1);
    assert_eq!(MAX_SEQUENCE, (1u64 << SEQUENCE_BITS) - 1);
    assert_eq!(MAX_TIMESTAMP, (1u64 << TIMESTAMP_BITS) - 1);
    assert_eq!(TIMESTAMP_BITS, 42);
    assert_eq!(MAX_DATACENTER_ID, 7);
    assert_eq!(EPOCH_START, 1119657600000);
}

#[test]
fn new_keeps_ids_in_range() {
    for (d, m) in [(0u64, 0u64), (1, 1), (MAX_DATACENTER_ID, MAX_MACHINE_ID), (3, 100)] {
        let flake = SnowFlake::new(d, m).expect("ids in range");
        assert_eq!(flake.datacenter_id(), d);
        assert_eq!(flake.machine_id(), m);
    }
}

#[test]
fn new_rejects_datacenter_just_above_max() {
    assert!(matches!(
        SnowFlake::new(MAX_DATACENTER_ID + 1, 0),
        Err(ConfigError::DatacenterIdTooLarge)
    ));
    assert!(matches!(SnowFlake::new(128, 0), Err(ConfigError::DatacenterIdTooLarge)));
    assert!(matches!(SnowFlake::new(u64::MAX, 5), Err(ConfigError::DatacenterIdTooLarge)));
}

#[test]
fn new_rejects_machine_just_above_max() {
    assert!(matches!(
        SnowFlake::new(0, MAX_MACHINE_ID + 1),
        Err(ConfigError::MachineIdTooLarge)
    ));
    assert!(matches!(SnowFlake::new(7, u64::MAX), Err(ConfigError::MachineIdTooLarge)));
}

#[test]
fn datacenter_error_comes_first() {
    assert!(matches!(SnowFlake::new(128, 128), Err(ConfigError::DatacenterIdTooLarge)));
}

#[test]
fn config_error_limits() {
    assert_eq!(ConfigError::DatacenterIdTooLarge.limit(), 7);
    assert_eq!(ConfigError::MachineIdTooLarge.limit(), 127);
}

#[test]
fn first_id_of_new_generator() {
    let flake = SnowFlake::new(1, 1).unwrap();
    let ticket = flake.next_ticket();
    assert_eq!(ticket.sequence, 1);
    assert!(!ticket.stall);
    let id = flake.compose_id(ticket.sequence, now_millis()).unwrap();
    assert_eq!(id & 0xfff, 1);
    assert_eq!((id >> 12) & 0x7f, 1);
    assert_eq!((id >> 19) & 0x7, 1);
}

#[test]
fn sequence_field_never_zero() {
    let flake = SnowFlake::new(2, 9).unwrap();
    for _ in 0..(2 * MAX_SEQUENCE + 10) {
        let id = generate(&flake);
        let sequence = id & MAX_SEQUENCE;
        assert!(sequence >= 1 && sequence <= MAX_SEQUENCE);
        assert_eq!((id >> 19) & MAX_DATACENTER_ID, 2);
        assert_eq!((id >> 12) & MAX_MACHINE_ID, 9);
    }
}

#[test]
fn one_stall_per_cycle() {
    let flake = SnowFlake::new(0, 0).unwrap();
    let mut stalls: Vec<u64> = Vec::new();
    for k in 1..=MAX_SEQUENCE {
        let ticket = flake.next_ticket();
        assert_eq!(ticket.sequence, k);
        if ticket.stall {
            stalls.push(k);
        }
    }
    assert_eq!(stalls, vec![MAX_SEQUENCE]);
    let after = flake.next_ticket();
    assert_eq!(after.sequence, 1);
    assert!(!after.stall);
}

#[test]
fn sequences_distinct_within_cycle() {
    let flake = SnowFlake::new(0, 0).unwrap();
    for _ in 0..100 {
        flake.next_ticket();
    }
    let mut seen = vec![false; (MAX_SEQUENCE + 1) as usize];
    for _ in 0..MAX_SEQUENCE {
        let s = flake.next_ticket().sequence as usize;
        assert!(!seen[s]);
        seen[s] = true;
    }
}

#[test]
fn counter_values_fold_into_cycle() {
    assert_eq!(sequence_of_count(1), 1);
    assert_eq!(sequence_of_count(MAX_SEQUENCE), MAX_SEQUENCE);
    assert_eq!(sequence_of_count(MAX_SEQUENCE + 1), 1);
    assert_eq!(sequence_of_count(MAX_SEQUENCE + 2), 2);
    assert_eq!(sequence_of_count(0), MAX_SEQUENCE);
    assert_eq!(sequence_of_count(2 * MAX_SEQUENCE), MAX_SEQUENCE);
}

#[test]
fn compose_before_epoch_fails() {
    let flake = SnowFlake::new(1, 1).unwrap();
    assert_eq!(flake.compose_id(1, EPOCH_START - 1), Err(ClockError::BeforeEpoch));
    assert_eq!(flake.compose_id(1, 0), Err(ClockError::BeforeEpoch));
}

#[test]
fn compose_exact_values() {
    let flake = SnowFlake::new(1, 1).unwrap();
    assert_eq!(flake.compose_id(1, EPOCH_START), Ok((1 << 19) | (1 << 12) | 1));
    let flake = SnowFlake::new(5, 100).unwrap();
    assert_eq!(
        flake.compose_id(42, EPOCH_START + 1000),
        Ok((1000 << 22) | (5 << 19) | (100 << 12) | 42)
    );
    assert_eq!(flake.compose_id(7, EPOCH_START + 1000), Ok(0xfa2e4007));
}

#[test]
fn compose_keeps_low_timestamp_bits() {
    let flake = SnowFlake::new(0, 0).unwrap();
    let wide = EPOCH_START + (1u128 << 42) + 3;
    assert_eq!(flake.compose_id(1, wide), Ok((3 << 22) | 1));
}

#[test]
fn unpack_recovers_fields() {
    let id = pack_id(123_456_789, 6, 77, 4000);
    assert_eq!(id >> 22, 123_456_789);
    assert_eq!((id >> 19) & MAX_DATACENTER_ID, 6);
    assert_eq!((id >> 12) & MAX_MACHINE_ID, 77);
    assert_eq!(id & MAX_SEQUENCE, 4000);
    let wide = pack_id(MAX_TIMESTAMP + 5, 0, 0, 0);
    assert_eq!(wide >> 22, 4);
}

#[test]
fn timestamp_near_now() {
    let flake = SnowFlake::new(3, 3).unwrap();
    let before = now_millis() - EPOCH_START;
    let id = generate(&flake);
    let after = now_millis() - EPOCH_START;
    let delta = (id >> 22) as u128;
    assert!(before <= delta && delta <= after);
}
