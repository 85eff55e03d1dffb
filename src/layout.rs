//! Bit layout of an identifier, from the most significant bit down:
//! one unused bit (always 0), 41 bits of milliseconds since `CUSTOM_EPOCH`,
//! 5 bits of datacenter id, 5 bits of machine id, 12 bits of sequence.
use vstd::prelude::*;

verus! {

pub const MACHINE_SHIFT: u64 = 12;
pub const DATACENTER_SHIFT: u64 = 17;
pub const TIMESTAMP_SHIFT: u64 = 22;

pub const MAX_DATACENTER: u64 = 31;
pub const MAX_MACHINE: u64 = 31;
pub const MAX_SEQUENCE: u64 = 4095;
/// Largest timestamp offset that fits in the 41-bit field.
pub const MAX_TIMESTAMP_OFFSET: u64 = 0x1ff_ffff_ffff;

/// Nov 04 2010 01:42:54.657 UTC, in milliseconds since the Unix epoch.
pub const CUSTOM_EPOCH: u64 = 1288834974657;

/// The identifier that holds the given fields.
pub open spec fn encode(offset: u64, datacenter_id: u64, machine_id: u64, sequence: u64) -> u64 {
    (offset << 22u64) | (datacenter_id << 17u64) | (machine_id << 12u64) | sequence
}

/// Whether each field fits its width.
pub open spec fn fields_fit(offset: u64, datacenter_id: u64, machine_id: u64, sequence: u64) -> bool {
    &&& offset <= MAX_TIMESTAMP_OFFSET
    &&& datacenter_id <= MAX_DATACENTER
    &&& machine_id <= MAX_MACHINE
    &&& sequence <= MAX_SEQUENCE
}

/// The fields that an identifier holds: absolute timestamp in milliseconds since
/// the Unix epoch, datacenter id, machine id, sequence.
pub open spec fn decode_spec(id: u64) -> (u64, u64, u64, u64) {
    (
        ((id >> 22u64) + CUSTOM_EPOCH) as u64,
        (id >> 17u64) & 31u64,
        (id >> 12u64) & 31u64,
        id & 4095u64,
    )
}

/// Decoding an encoded identifier gives back its fields.
pub proof fn lemma_decode_encode(offset: u64, datacenter_id: u64, machine_id: u64, sequence: u64)
    requires
        fields_fit(offset, datacenter_id, machine_id, sequence),
    ensures
        decode_spec(encode(offset, datacenter_id, machine_id, sequence)) == (
            (offset + CUSTOM_EPOCH) as u64,
            datacenter_id,
            machine_id,
            sequence,
        ),
{
    let id = encode(offset, datacenter_id, machine_id, sequence);
    assert(id >> 22u64 == offset && (id >> 17u64) & 31u64 == datacenter_id && (id >> 12u64)
        & 31u64 == machine_id && id & 4095u64 == sequence) by (bit_vector)
        requires
            id == (offset << 22u64) | (datacenter_id << 17u64) | (machine_id << 12u64) | sequence,
            offset <= 0x1ff_ffff_ffffu64,
            datacenter_id <= 31u64,
            machine_id <= 31u64,
            sequence <= 4095u64,
    ;
}

/// With the node fields fixed, identifiers order as (offset, sequence) pairs
/// order lexicographically.
pub proof fn lemma_encode_ordered(
    o1: u64,
    s1: u64,
    o2: u64,
    s2: u64,
    datacenter_id: u64,
    machine_id: u64,
)
    requires
        fields_fit(o1, datacenter_id, machine_id, s1),
        fields_fit(o2, datacenter_id, machine_id, s2),
        o1 < o2 || (o1 == o2 && s1 < s2),
    ensures
        encode(o1, datacenter_id, machine_id, s1) < encode(o2, datacenter_id, machine_id, s2),
{
    assert(((o1 << 22u64) | (datacenter_id << 17u64) | (machine_id << 12u64) | s1) < ((o2
        << 22u64) | (datacenter_id << 17u64) | (machine_id << 12u64) | s2)) by (bit_vector)
        requires
            o1 <= 0x1ff_ffff_ffffu64,
            o2 <= 0x1ff_ffff_ffffu64,
            datacenter_id <= 31u64,
            machine_id <= 31u64,
            s1 <= 4095u64,
            s2 <= 4095u64,
            o1 < o2 || (o1 == o2 && s1 < s2),
    ;
}

/// Packs the fields into an identifier.
pub fn pack(offset: u64, datacenter_id: u64, machine_id: u64, sequence: u64) -> (id: u64)
    requires
        fields_fit(offset, datacenter_id, machine_id, sequence),
    ensures
        id == encode(offset, datacenter_id, machine_id, sequence),
{
    (offset << TIMESTAMP_SHIFT) | (datacenter_id << DATACENTER_SHIFT) | (machine_id
        << MACHINE_SHIFT) | sequence
}

} // verus!
