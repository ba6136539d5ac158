//! The identifier generator: a validated (datacenter, machine) pair and the
//! shared sequence counter that callers draw from.
use vstd::prelude::*;
use std::sync::atomic::{AtomicU64, Ordering};
use crate::layout::{
    datacenter_field, machine_field, pack_id, packed_id, sequence_field, timestamp_field, EPOCH_START,
    MAX_DATACENTER_ID, MAX_MACHINE_ID, MAX_SEQUENCE, MAX_TIMESTAMP,
};
use crate::sequence::{
    count_after, lemma_distinct_within_cycle, sequence_of_count, stalls, ticket_sequence,
};

verus! {

/// Why a generator could not be built.
#[derive(Debug, Clone, Copy, PartialEq, Eq, Structural)]
pub enum ConfigError {
    /// The datacenter id is above `MAX_DATACENTER_ID`.
    DatacenterIdTooLarge,
    /// The machine id is above `MAX_MACHINE_ID`.
    MachineIdTooLarge,
}

impl ConfigError {
    /// The largest value that the rejected id may take.
    pub fn limit(&self) -> (r: u64)
        ensures
            r == match self {
                ConfigError::DatacenterIdTooLarge => MAX_DATACENTER_ID,
                ConfigError::MachineIdTooLarge => MAX_MACHINE_ID,
            },
    {
        match self {
            ConfigError::DatacenterIdTooLarge => MAX_DATACENTER_ID,
            ConfigError::MachineIdTooLarge => MAX_MACHINE_ID,
        }
    }
}

/// Why no identifier could be made from a clock reading.
#[derive(Debug, Clone, Copy, PartialEq, Eq, Structural)]
pub enum ClockError {
    /// The clock reads earlier than `EPOCH_START`.
    BeforeEpoch,
}

/// What one draw from the sequence counter hands a caller.
#[derive(Debug, Clone, Copy, PartialEq, Eq, Structural)]
pub struct Ticket {
    /// The counter value drawn.
    pub count: u64,
    /// The sequence value that goes into the identifier.
    pub sequence: u64,
    /// Whether the caller must wait at least one millisecond before it reads
    /// the clock: it drew the last value of the cycle.
    pub stall: bool,
}

/// A generator of identifiers for one datacenter and machine.
pub struct SnowFlake {
    datacenter_id: u64,
    machine_id: u64,
    sequence: AtomicU64,
}

impl SnowFlake {
    #[verifier::type_invariant]
    spec fn ids_in_range(&self) -> bool {
        self.datacenter_id <= MAX_DATACENTER_ID && self.machine_id <= MAX_MACHINE_ID
    }

    pub closed spec fn spec_datacenter_id(&self) -> u64 {
        self.datacenter_id
    }

    pub closed spec fn spec_machine_id(&self) -> u64 {
        self.machine_id
    }

    /// The identifier that this generator makes from a sequence value and a
    /// clock reading in milliseconds since the Unix epoch.
    pub open spec fn id_at(&self, sequence: u64, unix_millis: u128) -> u64 {
        packed_id(
            (unix_millis - EPOCH_START) as u64,
            self.datacenter_id(),
            self.machine_id(),
            sequence,
        )
    }

    /// Creates a generator for a datacenter and a machine, with its sequence
    /// counter at 1.
    pub fn new(datacenter_id: u64, machine_id: u64) -> (r: Result<SnowFlake, ConfigError>)
        ensures
            datacenter_id > MAX_DATACENTER_ID ==> r == Err::<SnowFlake, ConfigError>(
                ConfigError::DatacenterIdTooLarge,
            ),
            datacenter_id <= MAX_DATACENTER_ID && machine_id > MAX_MACHINE_ID ==> r == Err::<
                SnowFlake,
                ConfigError,
            >(ConfigError::MachineIdTooLarge),
            datacenter_id <= MAX_DATACENTER_ID && machine_id <= MAX_MACHINE_ID ==> r is Ok
                && r->Ok_0.datacenter_id() == datacenter_id && r->Ok_0.machine_id() == machine_id,
    {
        if datacenter_id > MAX_DATACENTER_ID {
            return Err(ConfigError::DatacenterIdTooLarge);
        }
        if machine_id > MAX_MACHINE_ID {
            return Err(ConfigError::MachineIdTooLarge);
        }
        Ok(SnowFlake { datacenter_id, machine_id, sequence: AtomicU64::new(1) })
    }

    /// The datacenter id that this generator writes into each identifier.
    #[verifier::when_used_as_spec(spec_datacenter_id)]
    pub fn datacenter_id(&self) -> (r: u64)
        ensures
            r == self.spec_datacenter_id(),
            r <= MAX_DATACENTER_ID,
    {
        proof {
            use_type_invariant(self);
        }
        self.datacenter_id
    }

    /// The machine id that this generator writes into each identifier.
    #[verifier::when_used_as_spec(spec_machine_id)]
    pub fn machine_id(&self) -> (r: u64)
        ensures
            r == self.spec_machine_id(),
            r <= MAX_MACHINE_ID,
    {
        proof {
            use_type_invariant(self);
        }
        self.machine_id
    }

    /// Draws the next sequence value from the shared counter. The caller that
    /// draws the last value of the cycle puts the counter back to 1, unless
    /// another caller has drawn since, and is told to wait for the clock.
    pub fn next_ticket(&self) -> (r: Ticket)
        ensures
            r.sequence == ticket_sequence(r.count),
            1 <= r.sequence <= MAX_SEQUENCE,
            r.stall == stalls(r.sequence),
    {
        let count = self.sequence.fetch_add(1, Ordering::Relaxed);
        let sequence = sequence_of_count(count);
        let stall = sequence == MAX_SEQUENCE;
        if stall {
            let _ = self.sequence.compare_exchange(
                count.wrapping_add(1),
                1,
                Ordering::SeqCst,
                Ordering::Relaxed,
            );
        }
        Ticket { count, sequence, stall }
    }

    /// Makes the identifier for a sequence value and a clock reading in
    /// milliseconds since the Unix epoch. A reading before `EPOCH_START` is
    /// refused; a delta too wide for its field keeps its low bits.
    pub fn compose_id(&self, sequence: u64, unix_millis: u128) -> (r: Result<u64, ClockError>)
        ensures
            unix_millis < EPOCH_START ==> r == Err::<u64, ClockError>(ClockError::BeforeEpoch),
            unix_millis >= EPOCH_START ==> r == Ok::<u64, ClockError>(
                self.id_at(sequence, unix_millis),
            ),
    {
        if unix_millis < EPOCH_START {
            return Err(ClockError::BeforeEpoch);
        }
        let delta = unix_millis - EPOCH_START;
        Ok(pack_id(delta as u64, self.datacenter_id(), self.machine_id(), sequence))
    }
}

/// Every identifier made from a drawn sequence value (1 to `MAX_SEQUENCE`)
/// and a clock reading not before the epoch carries that sequence value, never
/// 0, the generator's own datacenter and machine ids, and the reading's
/// distance from the epoch in its timestamp field (its low `TIMESTAMP_BITS`
/// bits).
pub proof fn lemma_generated_id_fields(flake: SnowFlake, sequence: u64, unix_millis: u128)
    requires
        flake.datacenter_id() <= MAX_DATACENTER_ID,
        flake.machine_id() <= MAX_MACHINE_ID,
        1 <= sequence <= MAX_SEQUENCE,
        unix_millis >= EPOCH_START,
    ensures
        sequence_field(flake.id_at(sequence, unix_millis)) == sequence,
        1 <= sequence_field(flake.id_at(sequence, unix_millis)) <= MAX_SEQUENCE,
        datacenter_field(flake.id_at(sequence, unix_millis)) == flake.datacenter_id(),
        machine_field(flake.id_at(sequence, unix_millis)) == flake.machine_id(),
        timestamp_field(flake.id_at(sequence, unix_millis)) == ((unix_millis - EPOCH_START) as u64)
            & MAX_TIMESTAMP,
{
    crate::layout::lemma_unpack_packed(
        (unix_millis - EPOCH_START) as u64,
        flake.datacenter_id(),
        flake.machine_id(),
        sequence,
    );
}

/// Within any `MAX_SEQUENCE` consecutive draws by one caller, on a counter in
/// its normal range, two draws that read the same millisecond from the clock
/// still give different identifiers.
pub proof fn lemma_distinct_ids_within_cycle(
    flake: SnowFlake,
    count: u64,
    i: nat,
    j: nat,
    unix_millis: u128,
)
    requires
        flake.datacenter_id() <= MAX_DATACENTER_ID,
        flake.machine_id() <= MAX_MACHINE_ID,
        1 <= count <= MAX_SEQUENCE,
        i < j < MAX_SEQUENCE,
        unix_millis >= EPOCH_START,
    ensures
        flake.id_at(ticket_sequence(count_after(count, i)), unix_millis) != flake.id_at(
            ticket_sequence(count_after(count, j)),
            unix_millis,
        ),
{
    lemma_distinct_within_cycle(count, i, j);
    lemma_generated_id_fields(flake, ticket_sequence(count_after(count, i)), unix_millis);
    lemma_generated_id_fields(flake, ticket_sequence(count_after(count, j)), unix_millis);
}

} // verus!
