//! The generator: a node identity plus the last millisecond and sequence used.
use vstd::prelude::*;

use crate::clock::unix_millis_now;
use crate::layout::{
    decode_spec, encode, pack, CUSTOM_EPOCH, DATACENTER_SHIFT, MACHINE_SHIFT, MAX_DATACENTER,
    MAX_MACHINE, MAX_SEQUENCE, MAX_TIMESTAMP_OFFSET, TIMESTAMP_SHIFT,
};

verus! {

/// Abstract state of a generator.
pub struct GeneratorState {
    pub datacenter_id: u64,
    pub machine_id: u64,
    /// Milliseconds since the Unix epoch of the last issued identifier, 0 before the first.
    pub last_timestamp: u64,
    /// Sequence number of the last issued identifier within its millisecond.
    pub sequence: u64,
}

/// Whether a clock reading, in milliseconds since the Unix epoch, can be
/// written in the 41-bit timestamp field.
pub open spec fn clock_in_range(now: u64) -> bool {
    CUSTOM_EPOCH <= now && now - CUSTOM_EPOCH <= MAX_TIMESTAMP_OFFSET
}

impl GeneratorState {
    pub open spec fn wf(self) -> bool {
        &&& self.datacenter_id <= MAX_DATACENTER
        &&& self.machine_id <= MAX_MACHINE
        &&& self.sequence <= MAX_SEQUENCE
    }

    /// The clock reading `now` may not be used yet: it lies before the last
    /// millisecond used, or every sequence number of that millisecond is spent.
    pub open spec fn must_wait(self, now: u64) -> bool {
        now < self.last_timestamp || (now == self.last_timestamp && self.sequence == MAX_SEQUENCE)
    }

    /// Sequence number used for a reading `now` that need not wait.
    pub open spec fn sequence_for(self, now: u64) -> u64 {
        if now == self.last_timestamp {
            (self.sequence + 1) as u64
        } else {
            0
        }
    }

    /// The identifier of the given millisecond and sequence on this node.
    pub open spec fn id_for(self, timestamp: u64, sequence: u64) -> u64 {
        encode((timestamp - CUSTOM_EPOCH) as u64, self.datacenter_id, self.machine_id, sequence)
    }

    /// The (millisecond, sequence) pair of this state comes before that of `other`.
    pub open spec fn slot_before(self, other: GeneratorState) -> bool {
        self.last_timestamp < other.last_timestamp || (self.last_timestamp == other.last_timestamp
            && self.sequence < other.sequence)
    }

    /// `next` is this state after issuing `id`: same node, a later
    /// (millisecond, sequence) pair that fits the layout, and `id` encodes it.
    pub open spec fn issues(self, id: u64, next: GeneratorState) -> bool {
        &&& next.datacenter_id == self.datacenter_id
        &&& next.machine_id == self.machine_id
        &&& clock_in_range(next.last_timestamp)
        &&& next.sequence <= MAX_SEQUENCE
        &&& self.slot_before(next)
        &&& id == self.id_for(next.last_timestamp, next.sequence)
    }
}

/// Outcome of offering one clock reading to a generator.
#[derive(Debug, PartialEq, Eq, Structural)]
pub enum Tick {
    /// An identifier was issued.
    Issued(u64),
    /// The reading is before the last millisecond used, or that millisecond's
    /// sequence numbers are spent: the clock must advance first.
    Wait,
    /// The reading lies outside what the 41-bit timestamp field can hold.
    ClockOutOfRange,
}

/// Why `next_id` could not issue an identifier.
#[derive(Debug, PartialEq, Eq, Structural)]
pub enum ClockError {
    /// The wall clock could not be read as a time after the Unix epoch.
    Unreadable,
    /// The wall clock lies before `CUSTOM_EPOCH` or past the last millisecond
    /// that the timestamp field can hold.
    OutOfRange,
    /// The wall clock did not reach a usable millisecond within `u64::MAX` readings.
    Stalled,
}

/// Snowflake identifier generator for one node.
pub struct Snowflake {
    datacenter_id: u64,
    machine_id: u64,
    sequence: u64,
    last_timestamp: u64,
}

impl View for Snowflake {
    type V = GeneratorState;

    closed spec fn view(&self) -> GeneratorState {
        GeneratorState {
            datacenter_id: self.datacenter_id,
            machine_id: self.machine_id,
            last_timestamp: self.last_timestamp,
            sequence: self.sequence,
        }
    }
}

impl Snowflake {
    pub open spec fn wf(&self) -> bool {
        self@.wf()
    }

    /// Creates a generator for the given node; both ids must fit in 5 bits.
    pub fn new(datacenter_id: u64, machine_id: u64) -> (r: Self)
        requires
            datacenter_id <= MAX_DATACENTER,
            machine_id <= MAX_MACHINE,
        ensures
            r.wf(),
            r@ == (GeneratorState { datacenter_id, machine_id, last_timestamp: 0, sequence: 0 }),
    {
        Snowflake { datacenter_id, machine_id, sequence: 0, last_timestamp: 0 }
    }

    /// Creates a generator, or `None` where an id does not fit in 5 bits.
    pub fn try_new(datacenter_id: u64, machine_id: u64) -> (r: Option<Self>)
        ensures
            r.is_some() <==> (datacenter_id <= MAX_DATACENTER && machine_id <= MAX_MACHINE),
            (r matches Some(g) ==> g.wf() && g@ == (GeneratorState {
                datacenter_id,
                machine_id,
                last_timestamp: 0,
                sequence: 0,
            })),
    {
        if datacenter_id > MAX_DATACENTER || machine_id > MAX_MACHINE {
            None
        } else {
            Some(Snowflake::new(datacenter_id, machine_id))
        }
    }

    /// Offers the clock reading `now` (milliseconds since the Unix epoch) and
    /// issues the next identifier if that reading allows one.
    pub fn next_id_at(&mut self, now: u64) -> (r: Tick)
        requires
            old(self).wf(),
        ensures
            final(self).wf(),
            old(self)@.must_wait(now) ==> r == Tick::Wait && final(self)@ == old(self)@,
            !old(self)@.must_wait(now) && !clock_in_range(now) ==> r == Tick::ClockOutOfRange
                && final(self)@ == old(self)@,
            !old(self)@.must_wait(now) && clock_in_range(now) ==> {
                &&& final(self)@ == (GeneratorState {
                    datacenter_id: old(self)@.datacenter_id,
                    machine_id: old(self)@.machine_id,
                    last_timestamp: now,
                    sequence: old(self)@.sequence_for(now),
                })
                &&& r == Tick::Issued(old(self)@.id_for(now, old(self)@.sequence_for(now)))
                &&& old(self)@.issues(old(self)@.id_for(now, old(self)@.sequence_for(now)), final(self)@)
            },
    {
        if now < self.last_timestamp {
            return Tick::Wait;
        }
        let sequence = if now == self.last_timestamp {
            if self.sequence == MAX_SEQUENCE {
                return Tick::Wait;
            }
            self.sequence + 1
        } else {
            0
        };
        if now < CUSTOM_EPOCH || now - CUSTOM_EPOCH > MAX_TIMESTAMP_OFFSET {
            return Tick::ClockOutOfRange;
        }
        self.sequence = sequence;
        self.last_timestamp = now;
        Tick::Issued(pack(now - CUSTOM_EPOCH, self.datacenter_id, self.machine_id, sequence))
    }

    /// Issues the next identifier, reading the wall clock until it reaches a
    /// millisecond that may be used (see `next_id_at`). On an error the state
    /// is left as it was.
    pub fn next_id(&mut self) -> (r: Result<u64, ClockError>)
        requires
            old(self).wf(),
        ensures
            final(self).wf(),
            match r {
                Ok(id) => old(self)@.issues(id, final(self)@),
                Err(_) => final(self)@ == old(self)@,
            },
    {
        let mut polls: u64 = 0;
        loop
            invariant
                self.wf(),
                self@ == old(self)@,
            decreases u64::MAX - polls,
        {
            let now = match unix_millis_now() {
                Some(ms) => ms,
                None => return Err(ClockError::Unreadable),
            };
            if now > u64::MAX as u128 {
                return Err(ClockError::OutOfRange);
            }
            match self.next_id_at(now as u64) {
                Tick::Issued(id) => return Ok(id),
                Tick::ClockOutOfRange => return Err(ClockError::OutOfRange),
                Tick::Wait => {},
            }
            if polls == u64::MAX {
                return Err(ClockError::Stalled);
            }
            polls = polls + 1;
        }
    }

    /// Splits an identifier into (timestamp, datacenter id, machine id, sequence),
    /// the timestamp in milliseconds since the Unix epoch. Every `u64` decodes.
    pub fn decode(id: u64) -> (r: (u64, u64, u64, u64))
        ensures
            r == decode_spec(id),
            r.0 >= CUSTOM_EPOCH,
            r.1 <= MAX_DATACENTER,
            r.2 <= MAX_MACHINE,
            r.3 <= MAX_SEQUENCE,
    {
        assert(id >> 22u64 <= 0x3ff_ffff_ffffu64 && (id >> 17u64) & 31u64 <= 31u64 && (id
            >> 12u64) & 31u64 <= 31u64 && id & 4095u64 <= 4095u64) by (bit_vector);
        let sequence = id & MAX_SEQUENCE;
        let machine = (id >> MACHINE_SHIFT) & MAX_MACHINE;
        let datacenter = (id >> DATACENTER_SHIFT) & MAX_DATACENTER;
        let timestamp = (id >> TIMESTAMP_SHIFT) + CUSTOM_EPOCH;
        (timestamp, datacenter, machine, sequence)
    }
}

} // verus!
