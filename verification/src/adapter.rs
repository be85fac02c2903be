use vstd::prelude::*;
use crate::decode::{decode_event, decode_utf8, emitted_records};
use crate::event::{drain_len, lemma_drain_len_split, PollEvent};

verus! {

/// What the scheduler's driver must do with one poll result, under a held
/// capability.
#[derive(Debug)]
pub enum PollAction {
    /// The consumer had nothing ready: stop draining for this invocation and
    /// return control to the scheduler.
    StopDraining,
    /// A consumer-level error: report it, then poll again at once.
    SkipError,
    /// A message without payload: report it, then poll again at once.
    SkipMissingPayload,
    /// A payload the decode step rejects: drop it, then poll again at once.
    SkipUndecodable,
    /// A decoded record: emit it at the adapter's timestamp, then poll again.
    Emit(String),
}

/// Everything one scheduler invocation of the adapter asks of its driver.
#[derive(Debug)]
pub struct InvocationOutcome {
    /// Whether the reactivation token is to be invoked (exactly once).
    pub activated: bool,
    /// How many poll calls were made against the consumer.
    pub polled: usize,
    /// The records to emit downstream, in order, all at the adapter's
    /// timestamp.
    pub records: Vec<String>,
}

/// The views of the emitted records, in order.
pub open spec fn views_of(records: Seq<String>) -> Seq<Seq<char>> {
    records.map_values(|s: String| s@)
}

/// The source adapter's own state: a single progress capability at a fixed
/// logical time, held in an optional slot. The slot is filled at
/// construction and can only ever be cleared, which quiesces the adapter
/// permanently.
pub struct SourceAdapter {
    capability: Option<u64>,
}

impl SourceAdapter {
    /// Whether the progress capability is still held.
    pub closed spec fn capability_held(&self) -> bool {
        self.capability is Some
    }

    /// The logical time of the held capability: every record the adapter
    /// ever emits carries this timestamp.
    pub closed spec fn timestamp(&self) -> u64
        recommends
            self.capability_held(),
    {
        self.capability->Some_0
    }

    /// Hand the adapter its initial progress capability, valid at logical
    /// time `time`.
    pub fn new(time: u64) -> (adapter: Self)
        ensures
            adapter.capability_held(),
            adapter.timestamp() == time,
    {
        SourceAdapter { capability: Some(time) }
    }

    /// Whether the capability slot is still filled.
    pub fn holds_capability(&self) -> (held: bool)
        ensures
            held == self.capability_held(),
    {
        self.capability.is_some()
    }

    /// The logical time the held capability authorizes emission at, if the
    /// slot is still filled: the timestamp every emitted record carries.
    pub fn capability_time(&self) -> (time: Option<u64>)
        ensures
            (time is Some) == self.capability_held(),
            time matches Some(t) ==> t == self.timestamp(),
    {
        self.capability
    }

    /// Release the progress capability: the only path to the terminal
    /// state. Every later invocation emits nothing and never touches the
    /// consumer.
    pub fn release_capability(&mut self)
        ensures
            !final(self).capability_held(),
    {
        self.capability = None;
    }

    /// Decide what to do with one poll result, mid-drain. Each kind of
    /// result maps to exactly one action, and a record is produced exactly
    /// when the result carries a payload that the decode step accepts.
    pub fn handle_poll(&self, event: &PollEvent) -> (action: PollAction)
        requires
            self.capability_held(),
        ensures
            (action is StopDraining) == (*event is NoneReady),
            (action is SkipError) == (*event is ConsumerError),
            (action is SkipMissingPayload) == (*event is MissingPayload),
            (action is SkipUndecodable) == (*event is Payload && decode_event(*event) is None),
            (action is Emit) == (decode_event(*event) is Some),
            action matches PollAction::Emit(text) ==> decode_event(*event) == Some(text@),
    {
        match event {
            PollEvent::NoneReady => PollAction::StopDraining,
            PollEvent::ConsumerError => PollAction::SkipError,
            PollEvent::MissingPayload => PollAction::SkipMissingPayload,
            PollEvent::Payload(payload) => {
                match decode_utf8(payload) {
                    Some(text) => PollAction::Emit(text),
                    None => PollAction::SkipUndecodable,
                }
            },
        }
    }

    /// One scheduler invocation, against a consumer that would yield the
    /// results in `pending`, in order.
    ///
    /// If the capability slot is empty the adapter is quiesced: nothing is
    /// polled, nothing is emitted, and it does not even re-arm itself.
    /// Otherwise it asks to be re-armed exactly once, drains the consumer up
    /// to the first no-result poll, and emits the decoded records of the
    /// accepted payloads among the drained results, in order.
    pub fn invoke(&self, pending: &Vec<PollEvent>) -> (out: InvocationOutcome)
        ensures
            out.activated == self.capability_held(),
            !self.capability_held() ==> out.polled == 0 && out.records@ == Seq::<String>::empty(),
            self.capability_held() ==> out.polled == drain_len(pending@),
            self.capability_held() ==> views_of(out.records@) == emitted_records(
                pending@.take(drain_len(pending@) as int),
            ),
    {
        if !self.holds_capability() {
            return InvocationOutcome { activated: false, polled: 0, records: Vec::new() };
        }
        let mut i: usize = 0;
        let mut draining: bool = true;
        let mut records: Vec<String> = Vec::new();
        proof {
            assert(pending@.take(0) =~= Seq::<PollEvent>::empty());
            assert(views_of(records@) =~= emitted_records(pending@.take(0)));
        }
        while draining && i < pending.len()
            invariant
                self.capability_held(),
                i <= pending@.len(),
                draining ==> forall|j: int| 0 <= j < i ==> !((#[trigger] pending@[j]) is NoneReady),
                !draining ==> i == drain_len(pending@),
                views_of(records@) == emitted_records(pending@.take(i as int)),
            decreases pending@.len() - i + (if draining { 1int } else { 0int }),
        {
            let event = &pending[i];
            let action = self.handle_poll(event);
            proof {
                let prev = pending@.take(i as int);
                let cur = pending@.take(i as int + 1);
                assert(cur.drop_last() =~= prev);
                assert(cur.last() == pending@[i as int]);
            }
            match action {
                PollAction::StopDraining => {
                    proof {
                        lemma_drain_len_split(pending@, i as int);
                        assert(pending@.skip(i as int)[0] is NoneReady);
                    }
                    draining = false;
                },
                PollAction::Emit(text) => {
                    proof {
                        assert(views_of(records@.push(text)) =~= views_of(records@).push(text@));
                    }
                    records.push(text);
                },
                _ => {
                },
            }
            i = i + 1;
        }
        proof {
            if draining {
                lemma_drain_len_split(pending@, i as int);
                assert(pending@.skip(i as int).len() == 0);
            }
        }
        InvocationOutcome { activated: true, polled: i, records }
    }
}

} // verus!
