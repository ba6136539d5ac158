//! The bit layout of an identifier, most significant field first:
//! timestamp delta, datacenter id, machine id, sequence.
use vstd::prelude::*;

verus! {

/// The custom epoch, in milliseconds since the Unix epoch (2005-06-25).
pub const EPOCH_START: u128 = 1119657600000;

pub const DATACENTER_ID_BITS: u32 = 3;

pub const MACHINE_ID_BITS: u32 = 7;

pub const SEQUENCE_BITS: u32 = 12;

/// What is left of the 64 bits for the timestamp delta.
pub const TIMESTAMP_BITS: u32 = 64 - (DATACENTER_ID_BITS + MACHINE_ID_BITS + SEQUENCE_BITS);

/// The largest datacenter id, `2^DATACENTER_ID_BITS - 1`.
pub const MAX_DATACENTER_ID: u64 = 7;

/// The largest machine id, `2^MACHINE_ID_BITS - 1`.
pub const MAX_MACHINE_ID: u64 = 127;

/// The largest sequence value, `2^SEQUENCE_BITS - 1`.
pub const MAX_SEQUENCE: u64 = 4095;

/// The largest timestamp delta that fits its field, `2^TIMESTAMP_BITS - 1`.
pub const MAX_TIMESTAMP: u64 = 0x3ff_ffff_ffff;

/// Each field's largest value is the mask of its width, and the four widths
/// fill the 64 bits.
pub proof fn lemma_field_masks()
    ensures
        MAX_DATACENTER_ID == (1u64 << DATACENTER_ID_BITS) - 1,
        MAX_MACHINE_ID == (1u64 << MACHINE_ID_BITS) - 1,
        MAX_SEQUENCE == (1u64 << SEQUENCE_BITS) - 1,
        MAX_TIMESTAMP == (1u64 << TIMESTAMP_BITS) - 1,
        TIMESTAMP_BITS + DATACENTER_ID_BITS + MACHINE_ID_BITS + SEQUENCE_BITS == 64,
{
    assert(7u64 == (1u64 << 3u32) - 1) by (bit_vector);
    assert(127u64 == (1u64 << 7u32) - 1) by (bit_vector);
    assert(4095u64 == (1u64 << 12u32) - 1) by (bit_vector);
    assert(0x3ff_ffff_ffffu64 == (1u64 << 42u32) - 1) by (bit_vector);
}

/// The identifier with these four fields: the timestamp delta is kept to the
/// low `TIMESTAMP_BITS` bits, the other three are or-ed in at their offsets.
pub open spec fn packed_id(timestamp: u64, datacenter_id: u64, machine_id: u64, sequence: u64) -> u64 {
    ((timestamp & MAX_TIMESTAMP) << (DATACENTER_ID_BITS + MACHINE_ID_BITS + SEQUENCE_BITS))
        | (datacenter_id << (MACHINE_ID_BITS + SEQUENCE_BITS)) | (machine_id << SEQUENCE_BITS)
        | sequence
}

/// The timestamp field of an identifier.
pub open spec fn timestamp_field(id: u64) -> u64 {
    id >> (DATACENTER_ID_BITS + MACHINE_ID_BITS + SEQUENCE_BITS)
}

/// The datacenter field of an identifier.
pub open spec fn datacenter_field(id: u64) -> u64 {
    (id >> (MACHINE_ID_BITS + SEQUENCE_BITS)) & MAX_DATACENTER_ID
}

/// The machine field of an identifier.
pub open spec fn machine_field(id: u64) -> u64 {
    (id >> SEQUENCE_BITS) & MAX_MACHINE_ID
}

/// The sequence field of an identifier.
pub open spec fn sequence_field(id: u64) -> u64 {
    id & MAX_SEQUENCE
}

/// Packs the four fields into one identifier.
pub fn pack_id(timestamp: u64, datacenter_id: u64, machine_id: u64, sequence: u64) -> (r: u64)
    ensures
        r == packed_id(timestamp, datacenter_id, machine_id, sequence),
{
    ((timestamp & MAX_TIMESTAMP) << (DATACENTER_ID_BITS + MACHINE_ID_BITS + SEQUENCE_BITS))
        | (datacenter_id << (MACHINE_ID_BITS + SEQUENCE_BITS)) | (machine_id << SEQUENCE_BITS)
        | sequence
}

/// Decoding reverses packing: shifting and masking an identifier in reverse
/// field order gives back the datacenter id, the machine id and the sequence
/// exactly, and the low `TIMESTAMP_BITS` bits of the timestamp delta.
pub proof fn lemma_unpack_packed(timestamp: u64, datacenter_id: u64, machine_id: u64, sequence: u64)
    requires
        datacenter_id <= MAX_DATACENTER_ID,
        machine_id <= MAX_MACHINE_ID,
        sequence <= MAX_SEQUENCE,
    ensures
        timestamp_field(packed_id(timestamp, datacenter_id, machine_id, sequence))
            == timestamp & MAX_TIMESTAMP,
        datacenter_field(packed_id(timestamp, datacenter_id, machine_id, sequence))
            == datacenter_id,
        machine_field(packed_id(timestamp, datacenter_id, machine_id, sequence)) == machine_id,
        sequence_field(packed_id(timestamp, datacenter_id, machine_id, sequence)) == sequence,
{
    let id = packed_id(timestamp, datacenter_id, machine_id, sequence);
    assert(id == ((timestamp & 0x3ff_ffff_ffff) << 22u32) | (datacenter_id << 19u32) | (
    machine_id << 12u32) | sequence);
    assert(id >> 22u32 == timestamp & 0x3ff_ffff_ffff) by (bit_vector)
        requires
            id == ((timestamp & 0x3ff_ffff_ffff) << 22u32) | (datacenter_id << 19u32) | (machine_id
                << 12u32) | sequence,
            datacenter_id <= 7,
            machine_id <= 127,
            sequence <= 4095,
    ;
    assert((id >> 19u32) & 7 == datacenter_id) by (bit_vector)
        requires
            id == ((timestamp & 0x3ff_ffff_ffff) << 22u32) | (datacenter_id << 19u32) | (machine_id
                << 12u32) | sequence,
            datacenter_id <= 7,
            machine_id <= 127,
            sequence <= 4095,
    ;
    assert((id >> 12u32) & 127 == machine_id) by (bit_vector)
        requires
            id == ((timestamp & 0x3ff_ffff_ffff) << 22u32) | (datacenter_id << 19u32) | (machine_id
                << 12u32) | sequence,
            datacenter_id <= 7,
            machine_id <= 127,
            sequence <= 4095,
    ;
    assert(id & 4095 == sequence) by (bit_vector)
        requires
            id == ((timestamp & 0x3ff_ffff_ffff) << 22u32) | (datacenter_id << 19u32) | (machine_id
                << 12u32) | sequence,
            sequence <= 4095,
    ;
}

} // verus!
