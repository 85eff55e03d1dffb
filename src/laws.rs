//! Properties of the identifiers that a generator issues.
use vstd::prelude::*;

use crate::generator::{clock_in_range, GeneratorState};
use crate::layout::{decode_spec, lemma_decode_encode, lemma_encode_ordered, CUSTOM_EPOCH, MAX_SEQUENCE};

verus! {

/// `ids[k]` was issued by the generator in state `states[k]`, which left it in
/// state `states[k + 1]`.
pub open spec fn issued_in_turn(states: Seq<GeneratorState>, ids: Seq<u64>) -> bool {
    &&& states.len() == ids.len() + 1
    &&& forall|k: int| 0 <= k < ids.len() ==> #[trigger] states[k].issues(ids[k], states[k + 1])
}

proof fn lemma_slots_advance(states: Seq<GeneratorState>, ids: Seq<u64>, i: int, j: int)
    requires
        issued_in_turn(states, ids),
        0 <= i < j < ids.len(),
    ensures
        states[i + 1].slot_before(states[j + 1]),
        states[j + 1].datacenter_id == states[i + 1].datacenter_id,
        states[j + 1].machine_id == states[i + 1].machine_id,
    decreases j - i,
{
    assert(states[j].issues(ids[j], states[j + 1]));
    if j > i + 1 {
        lemma_slots_advance(states, ids, i, j - 1);
    }
}

/// Identifiers issued one after another by one generator strictly increase:
/// each is larger than every identifier issued before it.
pub proof fn lemma_issued_ids_increase(states: Seq<GeneratorState>, ids: Seq<u64>)
    requires
        issued_in_turn(states, ids),
        states[0].wf(),
    ensures
        forall|i: int, j: int| 0 <= i < j < ids.len() ==> ids[i] < ids[j],
{
    assert forall|i: int, j: int| 0 <= i < j < ids.len() implies ids[i] < ids[j] by {
        lemma_slots_advance(states, ids, i, j);
        assert(states[i].issues(ids[i], states[i + 1]));
        assert(states[j].issues(ids[j], states[j + 1]));
        if i > 0 {
            lemma_slots_advance(states, ids, 0, i);
        }
        lemma_slots_advance(states, ids, 0, j);
        assert(states[0].issues(ids[0], states[1]));
        let a = states[i + 1];
        let b = states[j + 1];
        lemma_encode_ordered(
            (a.last_timestamp - CUSTOM_EPOCH) as u64,
            a.sequence,
            (b.last_timestamp - CUSTOM_EPOCH) as u64,
            b.sequence,
            states[0].datacenter_id,
            states[0].machine_id,
        );
    }
}

/// Decoding an issued identifier gives back the generator's datacenter and
/// machine ids, together with the millisecond and sequence it was issued
/// under; that millisecond is not before `CUSTOM_EPOCH` and the sequence fits
/// in 12 bits.
pub proof fn lemma_round_trip(before: GeneratorState, id: u64, after: GeneratorState)
    requires
        before.wf(),
        before.issues(id, after),
    ensures
        decode_spec(id) == (
            after.last_timestamp,
            before.datacenter_id,
            before.machine_id,
            after.sequence,
        ),
        decode_spec(id).0 >= CUSTOM_EPOCH,
        decode_spec(id).3 <= MAX_SEQUENCE,
{
    lemma_decode_encode(
        (after.last_timestamp - CUSTOM_EPOCH) as u64,
        before.datacenter_id,
        before.machine_id,
        after.sequence,
    );
}

/// Once all 4096 sequence numbers of a millisecond are spent, a reading of that
/// millisecond issues nothing; the next identifier issued carries a later
/// millisecond and sequence 0.
pub proof fn lemma_sequence_exhaustion(g: GeneratorState, now: u64)
    requires
        g.sequence == MAX_SEQUENCE,
    ensures
        g.must_wait(g.last_timestamp),
        !g.must_wait(now) ==> now > g.last_timestamp && g.sequence_for(now) == 0,
{
}

} // verus!
