//! Twitter-style snowflake identifiers: 64-bit values made of a millisecond
//! timestamp, a datacenter id, a machine id and a per-millisecond sequence.

pub mod generator;
pub mod layout;
pub mod sequence;

pub use generator::{ClockError, ConfigError, SnowFlake, Ticket};
pub use layout::{
    pack_id, DATACENTER_ID_BITS, EPOCH_START, MACHINE_ID_BITS, MAX_DATACENTER_ID, MAX_MACHINE_ID,
    MAX_SEQUENCE, MAX_TIMESTAMP, SEQUENCE_BITS, TIMESTAMP_BITS,
};
pub use sequence::sequence_of_count;
