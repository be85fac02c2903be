use vstd::prelude::*;

verus! {

/// The outcome of one non-blocking poll of the external consumer.
#[derive(Clone, Debug)]
pub enum PollEvent {
    /// The consumer had nothing ready; draining stops for this invocation.
    NoneReady,
    /// The consumer reported a transport- or protocol-level error.
    ConsumerError,
    /// The consumer yielded a message that carries no payload.
    MissingPayload,
    /// The consumer yielded a message with these payload bytes.
    Payload(Vec<u8>),
}

/// How many poll calls one invocation makes against a consumer that would
/// yield `events` in order: every result up to and including the first
/// `NoneReady`, or all of `events` if no `NoneReady` occurs among them.
pub open spec fn drain_len(events: Seq<PollEvent>) -> nat
    decreases events.len(),
{
    if events.len() == 0 {
        0
    } else if events[0] is NoneReady {
        1
    } else {
        1 + drain_len(events.drop_first())
    }
}

/// Polls already made without meeting `NoneReady` all count toward the
/// drain, which then continues on the rest of the stream.
pub proof fn lemma_drain_len_split(events: Seq<PollEvent>, i: int)
    requires
        0 <= i <= events.len(),
        forall|j: int| 0 <= j < i ==> !((#[trigger] events[j]) is NoneReady),
    ensures
        drain_len(events) == i + drain_len(events.skip(i)),
    decreases i,
{
    if i > 0 {
        lemma_drain_len_split(events.drop_first(), i - 1);
        assert(events.drop_first().skip(i - 1) =~= events.skip(i));
    } else {
        assert(events.skip(0) =~= events);
    }
}

/// A backlog without a no-result marker is drained whole in one
/// invocation: nothing but `NoneReady` ever stops the drain.
pub proof fn lemma_full_drain(events: Seq<PollEvent>)
    requires
        forall|j: int| 0 <= j < events.len() ==> !((#[trigger] events[j]) is NoneReady),
    ensures
        drain_len(events) == events.len(),
{
    lemma_drain_len_split(events, events.len() as int);
    assert(events.skip(events.len() as int).len() == 0);
}

} // verus!
