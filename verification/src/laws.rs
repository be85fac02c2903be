use vstd::prelude::*;
use crate::decode::{decode_event, emitted_records, utf8_of};
use crate::event::PollEvent;

verus! {

/// The payload byte sequences among `events`, in order; results that failed
/// or carry no payload contribute nothing.
pub open spec fn payloads_of(events: Seq<PollEvent>) -> Seq<Seq<u8>>
    decreases events.len(),
{
    if events.len() == 0 {
        Seq::empty()
    } else {
        let rest = payloads_of(events.drop_last());
        match events.last() {
            PollEvent::Payload(p) => rest.push(p@),
            _ => rest,
        }
    }
}

/// The decode results of a sequence of payloads, in order, dropping each
/// payload the decode step rejects.
pub open spec fn decoded_payloads(payloads: Seq<Seq<u8>>) -> Seq<Seq<char>>
    decreases payloads.len(),
{
    if payloads.len() == 0 {
        Seq::empty()
    } else {
        let rest = decoded_payloads(payloads.drop_last());
        match utf8_of(payloads.last()) {
            Some(text) => rest.push(text),
            None => rest,
        }
    }
}

/// Emission discipline: for every sequence of poll results, the emitted
/// records are exactly the decode results of the payload-bearing results,
/// in order. Errors, empty-payload results and no-result markers produce no
/// record, and a payload produces one exactly when the decode step accepts
/// it.
pub proof fn lemma_emitted_from_payloads(events: Seq<PollEvent>)
    ensures
        emitted_records(events) == decoded_payloads(payloads_of(events)),
    decreases events.len(),
{
    if events.len() > 0 {
        let rest = events.drop_last();
        lemma_emitted_from_payloads(rest);
        match events.last() {
            PollEvent::Payload(p) => {
                assert(payloads_of(rest).push(p@).drop_last() =~= payloads_of(rest));
                assert(payloads_of(rest).push(p@).last() == p@);
            },
            _ => {
            },
        }
    }
}

/// Batching-insensitivity: however a stream of poll results is split into
/// consecutive invocations, the records emitted in total are those of the
/// whole stream — the same records, in the same order.
pub proof fn lemma_batching_insensitive(a: Seq<PollEvent>, b: Seq<PollEvent>)
    ensures
        emitted_records(a + b) == emitted_records(a) + emitted_records(b),
    decreases b.len(),
{
    if b.len() == 0 {
        assert(a + b =~= a);
        assert(emitted_records(a) + emitted_records(b) =~= emitted_records(a));
    } else {
        lemma_batching_insensitive(a, b.drop_last());
        assert((a + b).drop_last() =~= a + b.drop_last());
        assert((a + b).last() == b.last());
        match decode_event(b.last()) {
            Some(text) => {
                assert((emitted_records(a) + emitted_records(b.drop_last())).push(text)
                    =~= emitted_records(a) + emitted_records(b.drop_last()).push(text));
            },
            None => {
            },
        }
    }
}

} // verus!
