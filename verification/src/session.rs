//! The state machine of one call. The driver of the call performs what a
//! step asks for (it lets the stream decoder of a schema id take a fragment,
//! offers a batch to storage, waits, sends a status) and comes back with
//! what happened; the session decides what follows.

use crate::decoder::{
    decode_error_text, lemma_decode_error_text_is_long, DecodeOutcome, DecodedBatch,
    SchemaStreamDecoder,
};
use crate::fragment::{taken_from, Fragment};
use crate::payload::{Payload, PayloadType, SignalKind, Unit};
use crate::router::{
    exhausted_text, fatal_text, lemma_failure_texts_are_long, retry_delay, route, RetryPolicy,
    RouteDecision, StorageResult,
};
use crate::status::{
    after_failure, after_stored, aggregate, lemma_ok_only_when_okay, speaking, status_message,
    worst_of, PayloadOutcome, Status, StatusCode,
};
use crate::table::DecoderTable;
use vstd::prelude::*;
use vstd::string::StringExecFns;

verus! {

/// Where a session stands in its life.
#[derive(Clone, Copy, Debug, PartialEq, Eq, Structural)]
pub enum Phase {
    /// Units are read and processed.
    Open,
    /// The input has ended while a unit was in work; its last status is on
    /// the way out.
    Closing,
    /// Nothing is read or emitted any more; the decoders are gone.
    Closed,
}

/// What an open session waits for.
#[derive(Clone, Copy, Debug, PartialEq, Eq, Structural)]
pub enum Awaits {
    /// The next unit.
    Unit,
    /// The answer of the stream decoder to the fragment handed out last.
    Decoded,
    /// The answer of storage to the batch offered last.
    Stored,
}

/// What came of letting a stream decoder take a fragment.
pub struct Decoded {
    /// The fragment as the decoder left it.
    pub rest: Fragment,
    /// The decoder's answer: a batch, no batch yet, or the cause of a
    /// failure.
    pub answer: Result<Option<DecodedBatch>, String>,
}

/// What the driver reports to the session.
pub enum Event {
    /// The next unit has arrived.
    Unit(Unit),
    /// The stream decoder has answered the fragment that was handed out
    /// last.
    Decoded(Decoded),
    /// Storage has answered the batch that was offered last.
    Stored(StorageResult),
    /// The inbound stream has ended.
    EndOfInput,
    /// Reading the inbound stream has failed for good.
    TransportError,
    /// The client has cancelled the call or the connection is lost.
    Cancelled,
}

/// A fragment for the stream decoder of one schema id.
pub struct Handout {
    pub schema_id: String,
    pub fragment: Fragment,
}

/// A batch for storage.
pub struct Offer {
    /// The signal of the session: it names where the batch goes.
    pub signal: SignalKind,
    pub schema_id: String,
    pub payload_type: PayloadType,
    pub batch: DecodedBatch,
}

/// What the session asks the driver to do next.
pub enum Action {
    /// Let the stream decoder of the schema id take the fragment, up to the
    /// end of the first batch that the bytes complete, and report what came
    /// of it. The decoder of a schema id is made when its first fragment is
    /// handed out and dropped when the call ends.
    Decode(Handout),
    /// Offer the batch to storage and report the answer.
    Route(Offer),
    /// Wait `delay_ms` milliseconds, offer the same batch again as attempt
    /// number `attempt`, and report the answer.
    Retry { attempt: u32, delay_ms: u64 },
    /// Send the status, then read the next unit.
    Emit(Status),
    /// Send the status and end the call.
    EmitLast(Status),
    /// End the call.
    Close,
}

/// Whether `status` is the one that ends unit `unit_id` when the input ends
/// before the unit is settled.
pub open spec fn cuts_short(status: Status, unit_id: i64) -> bool {
    &&& status.unit_id == unit_id
    &&& status.status_code == StatusCode::Error
    &&& status.message@ == "closed before completion"@
}

/// The statuses that `action` hands out: one or none.
pub open spec fn handed_out(action: Action) -> Seq<Status> {
    match action {
        Action::Emit(status) => seq![status],
        Action::EmitLast(status) => seq![status],
        _ => Seq::empty(),
    }
}

/// Whether every decoder that is poisoned in `before` is poisoned in `after`,
/// with the same text.
pub open spec fn keeps_poison(
    before: Map<Seq<char>, SchemaStreamDecoder>,
    after: Map<Seq<char>, SchemaStreamDecoder>,
) -> bool {
    forall|id: Seq<char>| #[trigger]
        before.contains_key(id) && before[id].poisoned() ==> after.contains_key(id)
            && after[id].poisoned() && after[id].poison_text() == before[id].poison_text()
}

/// The session of one call.
pub struct IngestSession {
    signal: SignalKind,
    policy: RetryPolicy,
    phase: Phase,
    awaits: Awaits,
    table: DecoderTable,
    /// The unit in work: its id, its payloads, and the outcomes of those
    /// before `cursor`.
    unit_id: i64,
    payloads: Vec<Payload>,
    cursor: usize,
    outcomes: Vec<PayloadOutcome>,
    /// The payload at `cursor`, while the session waits for its decoder or
    /// for storage: the table that it fills and its outcome so far.
    role: PayloadType,
    running: PayloadOutcome,
    /// What is left of that payload's record while a batch of it is with
    /// storage.
    fragment: Fragment,
    /// The bytes that are with the stream decoder.
    handed: Ghost<Seq<u8>>,
    /// The attempts made to store the batch that is with storage.
    attempt: u32,
    received: Ghost<Seq<i64>>,
    emitted: Ghost<Seq<Status>>,
}

impl IngestSession {
    /// The phase of the session.
    pub closed spec fn current_phase(&self) -> Phase {
        self.phase
    }

    /// What the session waits for.
    pub closed spec fn waiting_for(&self) -> Awaits {
        self.awaits
    }

    /// The ids of the units that the session has taken in, in order.
    pub closed spec fn received(&self) -> Seq<i64> {
        self.received@
    }

    /// The statuses that the session has handed out, in order.
    pub closed spec fn emitted(&self) -> Seq<Status> {
        self.emitted@
    }

    /// The decoder state of each schema id whose decoder has answered.
    pub closed spec fn decoders(&self) -> Map<Seq<char>, SchemaStreamDecoder> {
        self.table@
    }

    /// The id of the unit in work.
    pub closed spec fn unit_in_work(&self) -> i64 {
        self.unit_id
    }

    /// The payloads of the unit in work.
    pub closed spec fn payloads_in_work(&self) -> Seq<Payload> {
        self.payloads@
    }

    /// The outcomes of the payloads that are settled, in payload order.
    pub closed spec fn settled(&self) -> Seq<PayloadOutcome> {
        self.outcomes@
    }

    /// The place, among the payloads of the unit in work, of the payload
    /// that the session works on; the number of payloads once all are
    /// settled.
    pub closed spec fn position(&self) -> int {
        self.cursor as int
    }

    /// The outcome so far of the payload that the session works on.
    pub closed spec fn running(&self) -> (StatusCode, Seq<char>) {
        self.running@
    }

    /// The bytes that are with the stream decoder.
    pub closed spec fn handed(&self) -> Seq<u8> {
        self.handed@
    }

    /// What is left of the record of the payload in work while a batch of
    /// it is with storage.
    pub closed spec fn held(&self) -> Seq<u8> {
        self.fragment@
    }

    /// The number of attempts made for the batch that is with storage.
    pub closed spec fn attempts(&self) -> u32 {
        self.attempt
    }

    /// The signal that the session serves.
    pub closed spec fn signal_kind(&self) -> SignalKind {
        self.signal
    }

    /// The retry policy of the session.
    pub closed spec fn retry_policy(&self) -> RetryPolicy {
        self.policy
    }

    /// Whether the decoder of `id` is poisoned.
    pub open spec fn poisoned(&self, id: Seq<char>) -> bool {
        self.decoders().contains_key(id) && self.decoders()[id].poisoned()
    }

    /// The bytes that the decoder of `id` has taken in so far.
    pub open spec fn taken_by(&self, id: Seq<char>) -> Seq<u8> {
        if self.decoders().contains_key(id) {
            self.decoders()[id].taken()
        } else {
            Seq::empty()
        }
    }

    /// The outcomes of the payloads that are settled, each as its code and
    /// its diagnostic.
    pub open spec fn settled_views(&self) -> Seq<(StatusCode, Seq<char>)> {
        Seq::new(self.settled().len(), |i: int| self.settled()[i]@)
    }

    /// The schema id of the payload that the session works on.
    pub open spec fn stream_in_work(&self) -> Seq<char> {
        self.payloads_in_work()[self.position()].schema_id@
    }

    /// The outcome of a payload that is settled without its decoder, if it
    /// is one: a payload of unknown type is an error, a payload of a
    /// poisoned stream gets the error of that stream, and a payload without
    /// bytes is no data. Any other payload goes to its decoder.
    pub open spec fn ruling(&self, payload: Payload) -> Option<(StatusCode, Seq<char>)> {
        if PayloadType::of_code(payload.payload_type as int) is None {
            Some((StatusCode::Error, "unsupported payload type"@))
        } else if self.poisoned(payload.schema_id@) {
            Some((StatusCode::Error, self.decoders()[payload.schema_id@].poison_text()))
        } else if payload.record@.len() == 0 {
            Some((StatusCode::NoData, "no record decoded"@))
        } else {
            None
        }
    }

    /// Whether the session has moved on from payload number `from`, with
    /// the payloads before it settled as `base` says, as far as it can
    /// without its driver, and `action` is what it then asks for.
    ///
    /// Every payload from `from` up to the one at which the session stands
    /// is settled by its ruling. Where the session stands at a payload,
    /// that payload has no ruling: the decoder of its stream gets the whole
    /// record, and the payload counts as one without data until a batch of
    /// it is stored. Where the session stands behind the last payload, the
    /// status of the unit is handed out: the worst code of the outcomes and
    /// the message that goes with them.
    pub open spec fn moved_on(
        &self,
        from: int,
        base: Seq<(StatusCode, Seq<char>)>,
        action: Action,
    ) -> bool {
        let payloads = self.payloads_in_work();
        let stop = self.position();
        &&& base.len() == from
        &&& from <= stop <= payloads.len()
        &&& stop <= self.settled().len()
        &&& forall|i: int| 0 <= i < from ==> (#[trigger] self.settled()[i])@ == base[i]
        &&& forall|i: int|
            from <= i < stop ==> self.ruling(payloads[i]) == Some((#[trigger] self.settled()[i])@)
        &&& if stop < payloads.len() {
            &&& self.settled().len() == stop
            &&& self.ruling(payloads[stop]) is None
            &&& self.waiting_for() == Awaits::Decoded
            &&& self.running() == (StatusCode::NoData, "no record decoded"@)
            &&& self.handed() == payloads[stop].record@
            &&& action is Decode
            &&& action->Decode_0.schema_id@ == payloads[stop].schema_id@
            &&& action->Decode_0.fragment@ == payloads[stop].record@
        } else {
            &&& self.settled().len() == payloads.len()
            &&& self.waiting_for() == Awaits::Unit
            &&& action is Emit
            &&& action->Emit_0.unit_id == self.unit_in_work()
            &&& action->Emit_0.status_code == worst_of(self.settled())
            &&& action->Emit_0.message@ == status_message(self.settled())
        }
    }

    /// Whether the session answers `result` with one more attempt: the
    /// answer is retryable and the policy allows another attempt.
    pub open spec fn retries(&self, result: StorageResult) -> bool {
        result is Retryable && self.attempts() < self.retry_policy().max_attempts
    }

    /// The action that asks for the attempt after the current one.
    pub open spec fn next_attempt(&self) -> Action {
        Action::Retry {
            attempt: (self.attempts() + 1) as u32,
            delay_ms: retry_delay(self.retry_policy(), self.attempts()),
        }
    }

    /// The outcome of the payload in work once storage has answered
    /// `result` for good: a stored batch makes a payload without data so
    /// far `Okay`, and a refusal is its error unless it has one.
    pub open spec fn running_after(&self, result: StorageResult) -> (StatusCode, Seq<char>) {
        match result {
            StorageResult::Stored => after_stored(self.running()),
            StorageResult::Fatal(cause) => after_failure(self.running(), fatal_text(cause@)),
            StorageResult::Retryable(cause) => after_failure(
                self.running(),
                exhausted_text(cause@),
            ),
        }
    }

    /// Whether `event` ends the session at once and without a status: the
    /// session is not open any more, the call is cancelled, or the session
    /// waits for a unit and gets anything else.
    pub open spec fn closes_on(&self, event: Event) -> bool {
        ||| !(self.current_phase() is Open)
        ||| event is Cancelled
        ||| self.waiting_for() == Awaits::Unit && !(event is Unit)
    }

    /// Whether `event` is what an open session waits for.
    pub open spec fn works_on(&self, event: Event) -> bool {
        &&& self.current_phase() is Open
        &&& match self.waiting_for() {
            Awaits::Unit => event is Unit,
            Awaits::Decoded => event is Decoded,
            Awaits::Stored => event is Stored,
        }
    }

    /// Whether `event` cuts the unit in work short: the session waits for a
    /// decoder or for storage and gets anything else, but for the
    /// cancelling of the call.
    pub open spec fn cut_short_by(&self, event: Event) -> bool {
        &&& self.current_phase() is Open
        &&& self.waiting_for() != Awaits::Unit
        &&& !(event is Cancelled)
        &&& !self.works_on(event)
    }

    /// Whether nothing of the unit in work and of the decoders has changed
    /// from `before`.
    pub open spec fn same_work(&self, before: IngestSession) -> bool {
        &&& self.current_phase() is Open
        &&& self.received() == before.received()
        &&& self.unit_in_work() == before.unit_in_work()
        &&& self.payloads_in_work() == before.payloads_in_work()
        &&& self.decoders() == before.decoders()
    }

    /// Whether the session has taken in `unit` after `before` and `action`
    /// is what it then asks for: the unit is the unit in work, no decoder
    /// has changed, and the session has moved on from the first payload.
    pub open spec fn took_unit(&self, before: IngestSession, unit: Unit, action: Action) -> bool {
        &&& self.current_phase() is Open
        &&& self.received() == before.received().push(unit.id)
        &&& self.unit_in_work() == unit.id
        &&& self.payloads_in_work() == unit.payloads@
        &&& self.decoders() == before.decoders()
        &&& self.moved_on(0, Seq::empty(), action)
    }

    /// Whether the session has taken in the decoder's answer `decoded`
    /// after `before` and `action` is what it then asks for.
    ///
    /// The decoder of the stream in work has taken what left the fragment,
    /// and it is poisoned exactly by a failure, with the failure's text; no
    /// other decoder has changed. A batch is offered to storage for the
    /// session's signal, under the schema id and the table of the payload
    /// in work, as the first attempt, and the rest of the fragment is held.
    /// Without a batch the payload is settled as its outcome so far, after
    /// a failure as that outcome with the failure, and the session moves on
    /// from the next payload.
    pub open spec fn took_answer(
        &self,
        before: IngestSession,
        decoded: Decoded,
        action: Action,
    ) -> bool {
        let id = before.stream_in_work();
        let payload = before.payloads_in_work()[before.position()];
        &&& self.current_phase() is Open
        &&& self.received() == before.received()
        &&& self.unit_in_work() == before.unit_in_work()
        &&& self.payloads_in_work() == before.payloads_in_work()
        &&& self.decoders().dom() == before.decoders().dom().insert(id)
        &&& forall|other: Seq<char>|
            other != id && before.decoders().contains_key(other)
                ==> #[trigger] self.decoders()[other] == before.decoders()[other]
        &&& self.taken_by(id) == before.taken_by(id) + taken_from(before.handed(), decoded.rest@)
        &&& match decoded.answer {
            Ok(Some(batch)) => {
                &&& !self.poisoned(id)
                &&& self.waiting_for() == Awaits::Stored
                &&& self.attempts() == 1
                &&& self.position() == before.position()
                &&& self.settled() == before.settled()
                &&& self.running() == before.running()
                &&& self.held() == decoded.rest@
                &&& action is Route
                &&& action->Route_0.signal == self.signal_kind()
                &&& action->Route_0.schema_id@ == id
                &&& PayloadType::of_code(payload.payload_type as int) == Some(
                    action->Route_0.payload_type,
                )
                &&& action->Route_0.batch == batch
            },
            Ok(None) => {
                &&& !self.poisoned(id)
                &&& self.moved_on(
                    before.position() + 1,
                    before.settled_views().push(before.running()),
                    action,
                )
            },
            Err(cause) => {
                &&& self.poisoned(id)
                &&& self.decoders()[id].poison_text() == decode_error_text(cause@)
                &&& self.moved_on(
                    before.position() + 1,
                    before.settled_views().push(
                        after_failure(before.running(), decode_error_text(cause@)),
                    ),
                    action,
                )
            },
        }
    }

    /// Whether the session has taken in storage's answer `result` after
    /// `before` and `action` is what it then asks for.
    ///
    /// A retryable answer within the policy's bound asks for the next
    /// attempt and changes nothing else. Any other answer fixes the outcome
    /// of the payload in work. Where bytes of its record are held, they are
    /// handed to the decoder of its stream; where none are, the payload is
    /// settled and the session moves on from the next payload.
    pub open spec fn took_storage_answer(
        &self,
        before: IngestSession,
        result: StorageResult,
        action: Action,
    ) -> bool {
        &&& self.same_work(before)
        &&& if before.retries(result) {
            &&& action == before.next_attempt()
            &&& self.waiting_for() == Awaits::Stored
            &&& self.attempts() == before.attempts() + 1
            &&& self.position() == before.position()
            &&& self.settled() == before.settled()
            &&& self.running() == before.running()
            &&& self.held() == before.held()
        } else if before.held().len() > 0 {
            &&& self.waiting_for() == Awaits::Decoded
            &&& self.position() == before.position()
            &&& self.settled() == before.settled()
            &&& self.running() == before.running_after(result)
            &&& self.handed() == before.held()
            &&& action is Decode
            &&& action->Decode_0.schema_id@ == before.stream_in_work()
            &&& action->Decode_0.fragment@ == before.held()
        } else {
            self.moved_on(
                before.position() + 1,
                before.settled_views().push(before.running_after(result)),
                action,
            )
        }
    }

    /// The statuses follow the units, and the payload in work is one that
    /// the session can work on.
    closed spec fn coherent(&self) -> bool {
        &&& self.table.wf()
        &&& self.emitted@.len() <= self.received@.len() <= self.emitted@.len() + 1
        &&& forall|i: int|
            0 <= i < self.emitted@.len() ==> (#[trigger] self.emitted@[i]).unit_id
                == self.received@[i]
        &&& self.outcomes.len() <= self.payloads.len()
        &&& speaking(self.outcomes@)
        &&& self.awaits != Awaits::Unit ==> {
            &&& self.running.speaks()
            &&& self.cursor < self.payloads.len()
            &&& self.outcomes.len() == self.cursor
            &&& PayloadType::of_code(self.payloads[self.cursor as int].payload_type as int)
                == Some(self.role)
        }
    }

    /// A unit is in work, and the session stands at one of its payloads.
    closed spec fn busy(&self) -> bool {
        &&& self.coherent()
        &&& self.phase is Open
        &&& self.awaits != Awaits::Unit
        &&& self.received@.len() == self.emitted@.len() + 1
        &&& self.received@.last() == self.unit_id
    }

    /// A unit is in work, and the session stands between two of its
    /// payloads.
    closed spec fn in_work(&self) -> bool {
        &&& self.coherent()
        &&& self.phase is Open
        &&& self.awaits == Awaits::Unit
        &&& self.cursor <= self.payloads.len()
        &&& self.outcomes.len() == self.cursor
        &&& self.received@.len() == self.emitted@.len() + 1
        &&& self.received@.last() == self.unit_id
    }

    /// What holds of a session between any two steps.
    pub closed spec fn wf(&self) -> bool {
        &&& self.coherent()
        &&& self.awaits != Awaits::Unit ==> {
            &&& self.busy()
            &&& !self.table.poisoned(self.payloads[self.cursor as int].schema_id@)
        }
        &&& self.awaits == Awaits::Stored ==> 1 <= self.attempt
        &&& self.awaits == Awaits::Unit && !(self.phase is Closed) ==> self.received@.len()
            == self.emitted@.len()
        &&& self.phase is Closed ==> {
            &&& self.awaits == Awaits::Unit
            &&& self.table@.dom() == Set::<Seq<char>>::empty()
        }
    }

    /// A session for the signal `signal` that offers batches to storage as
    /// `policy` says. It is open, waits for a unit and has seen nothing.
    pub fn new(signal: SignalKind, policy: RetryPolicy) -> (session: IngestSession)
        ensures
            session.wf(),
            session.current_phase() is Open,
            session.waiting_for() == Awaits::Unit,
            session.signal_kind() == signal,
            session.retry_policy() == policy,
            session.received() == Seq::<i64>::empty(),
            session.emitted() == Seq::<Status>::empty(),
            session.decoders() == Map::<Seq<char>, SchemaStreamDecoder>::empty(),
    {
        IngestSession {
            signal,
            policy,
            phase: Phase::Open,
            awaits: Awaits::Unit,
            table: DecoderTable::new(),
            unit_id: 0,
            payloads: Vec::new(),
            cursor: 0,
            outcomes: Vec::new(),
            role: PayloadType::ResourceAttrs,
            running: PayloadOutcome::pending(),
            fragment: Fragment::empty(),
            handed: Ghost(Seq::empty()),
            attempt: 0,
            received: Ghost(Seq::empty()),
            emitted: Ghost(Seq::empty()),
        }
    }

    /// The phase of the session.
    pub fn phase(&self) -> (phase: Phase)
        ensures
            phase == self.current_phase(),
    {
        self.phase
    }

    /// What the session waits for.
    pub fn awaits(&self) -> (awaits: Awaits)
        ensures
            awaits == self.waiting_for(),
    {
        self.awaits
    }

    /// Whether the decoder of `schema_id` is poisoned.
    pub fn is_poisoned(&self, schema_id: &str) -> (poisoned: bool)
        requires
            self.wf(),
        ensures
            poisoned == self.poisoned(schema_id@),
    {
        self.table.is_poisoned(schema_id)
    }

    /// Ends the session: the decoders and the unit in work are dropped.
    fn shut(&mut self)
        requires
            old(self).wf(),
        ensures
            final(self).signal_kind() == old(self).signal_kind(),
            final(self).retry_policy() == old(self).retry_policy(),
            final(self).wf(),
            final(self).current_phase() is Closed,
            final(self).received() == old(self).received(),
            final(self).emitted() == old(self).emitted(),
            final(self).decoders().dom() == Set::<Seq<char>>::empty(),
    {
        self.phase = Phase::Closed;
        self.awaits = Awaits::Unit;
        self.table = DecoderTable::new();
        self.payloads = Vec::new();
        self.outcomes = Vec::new();
        self.cursor = 0;
        self.fragment = Fragment::empty();
    }

    /// Ends the unit in work with the status of a unit that was cut short.
    fn terminate(&mut self) -> (action: Action)
        requires
            old(self).wf(),
            old(self).waiting_for() != Awaits::Unit,
        ensures
            final(self).signal_kind() == old(self).signal_kind(),
            final(self).retry_policy() == old(self).retry_policy(),
            final(self).wf(),
            final(self).current_phase() is Closing,
            final(self).received() == old(self).received(),
            final(self).decoders() == old(self).decoders(),
            action is EmitLast,
            cuts_short(action->EmitLast_0, old(self).unit_in_work()),
            final(self).emitted() == old(self).emitted().push(action->EmitLast_0),
    {
        let status = Status {
            unit_id: self.unit_id,
            status_code: StatusCode::Error,
            message: String::from_str("closed before completion"),
        };
        self.phase = Phase::Closing;
        self.awaits = Awaits::Unit;
        self.fragment = Fragment::empty();
        proof {
            self.emitted@ = self.emitted@.push(status);
        }
        Action::EmitLast(status)
    }

    /// Takes in unit `unit` and makes it the unit in work.
    fn begin(&mut self, unit: Unit)
        requires
            old(self).wf(),
            old(self).current_phase() is Open,
            old(self).waiting_for() == Awaits::Unit,
        ensures
            final(self).signal_kind() == old(self).signal_kind(),
            final(self).retry_policy() == old(self).retry_policy(),
            final(self).in_work(),
            final(self).received() == old(self).received().push(unit.id),
            final(self).emitted() == old(self).emitted(),
            final(self).decoders() == old(self).decoders(),
            final(self).unit_in_work() == unit.id,
            final(self).payloads_in_work() == unit.payloads@,
            final(self).position() == 0,
            final(self).settled().len() == 0,
    {
        self.unit_id = unit.id;
        self.payloads = unit.payloads;
        self.cursor = 0;
        self.outcomes = Vec::new();
        proof {
            self.received@ = self.received@.push(unit.id);
        }
    }

    /// Settles the payload in work as its outcome so far.
    fn finish(&mut self)
        requires
            old(self).busy(),
        ensures
            final(self).signal_kind() == old(self).signal_kind(),
            final(self).retry_policy() == old(self).retry_policy(),
            final(self).in_work(),
            final(self).received() == old(self).received(),
            final(self).emitted() == old(self).emitted(),
            final(self).decoders() == old(self).decoders(),
            final(self).unit_in_work() == old(self).unit_in_work(),
            final(self).payloads_in_work() == old(self).payloads_in_work(),
            final(self).position() == old(self).position() + 1,
            final(self).settled_views() == old(self).settled_views().push(old(self).running()),
    {
        self.outcomes.push(self.running.copy());
        self.cursor = self.cursor + 1;
        self.awaits = Awaits::Unit;
        assert(self.settled_views() =~= old(self).settled_views().push(old(self).running()));
    }

    /// Works on the unit from the payload at the cursor on, until a
    /// fragment has to go to a decoder or every payload is settled.
    fn advance(&mut self) -> (action: Action)
        requires
            old(self).in_work(),
        ensures
            final(self).signal_kind() == old(self).signal_kind(),
            final(self).retry_policy() == old(self).retry_policy(),
            final(self).wf(),
            final(self).same_work(*old(self)),
            final(self).emitted() == old(self).emitted() + handed_out(action),
            final(self).moved_on(old(self).position(), old(self).settled_views(), action),
    {
        while self.cursor < self.payloads.len()
            invariant
                self.in_work(),
                self.signal == old(self).signal,
                self.policy == old(self).policy,
                self.received@ == old(self).received@,
                self.emitted@ == old(self).emitted@,
                self.unit_id == old(self).unit_id,
                self.payloads@ == old(self).payloads@,
                self.table == old(self).table,
                old(self).cursor <= self.cursor,
                old(self).outcomes.len() == old(self).cursor,
                forall|i: int|
                    0 <= i < old(self).cursor ==> #[trigger] self.outcomes@[i] == old(
                        self,
                    ).outcomes@[i],
                forall|i: int|
                    old(self).cursor <= i < self.cursor ==> self.ruling(self.payloads@[i]) == Some(
                        (#[trigger] self.outcomes@[i])@,
                    ),
            decreases self.payloads.len() - self.cursor,
        {
            match PayloadType::from_code(self.payloads[self.cursor].payload_type) {
                None => {
                    self.outcomes.push(PayloadOutcome::unsupported());
                },
                Some(table) => {
                    match self.table.poison_of(self.payloads[self.cursor].schema_id.as_str()) {
                        Some(text) => {
                            self.outcomes.push(
                                PayloadOutcome { code: StatusCode::Error, diagnostic: text },
                            );
                        },
                        None => {
                            if self.payloads[self.cursor].record.len() == 0 {
                                self.outcomes.push(PayloadOutcome::pending());
                            } else {
                                let fragment = Fragment::new(
                                    self.payloads[self.cursor].record.as_slice(),
                                );
                                self.role = table;
                                self.running = PayloadOutcome::pending();
                                self.awaits = Awaits::Decoded;
                                proof {
                                    self.handed@ = fragment@;
                                }
                                let action = Action::Decode(
                                    Handout {
                                        schema_id: self.payloads[self.cursor].schema_id.clone(),
                                        fragment,
                                    },
                                );
                                assert(self.emitted@ =~= old(self).emitted@ + handed_out(action));
                                return action;
                            }
                        },
                    }
                },
            }
            self.cursor = self.cursor + 1;
        }
        let status = aggregate(self.unit_id, &self.outcomes);
        proof {
            self.emitted@ = self.emitted@.push(status);
        }
        let action = Action::Emit(status);
        assert(self.emitted@ =~= old(self).emitted@ + handed_out(action));
        action
    }

    /// Goes on with the payload in work once storage has answered for
    /// good: what is left of its record goes to the decoder, and a payload
    /// of which nothing is left is settled.
    fn resume(&mut self) -> (action: Action)
        requires
            old(self).wf(),
            old(self).waiting_for() == Awaits::Stored,
        ensures
            final(self).signal_kind() == old(self).signal_kind(),
            final(self).retry_policy() == old(self).retry_policy(),
            final(self).wf(),
            final(self).same_work(*old(self)),
            final(self).emitted() == old(self).emitted() + handed_out(action),
            old(self).held().len() > 0 ==> {
                &&& final(self).waiting_for() == Awaits::Decoded
                &&& final(self).position() == old(self).position()
                &&& final(self).settled() == old(self).settled()
                &&& final(self).running() == old(self).running()
                &&& final(self).handed() == old(self).held()
                &&& action is Decode
                &&& action->Decode_0.schema_id@ == old(self).stream_in_work()
                &&& action->Decode_0.fragment@ == old(self).held()
            },
            old(self).held().len() == 0 ==> final(self).moved_on(
                old(self).position() + 1,
                old(self).settled_views().push(old(self).running()),
                action,
            ),
    {
        if self.fragment.is_empty() {
            self.finish();
            self.advance()
        } else {
            let mut fragment = Fragment::empty();
            std::mem::swap(&mut self.fragment, &mut fragment);
            self.awaits = Awaits::Decoded;
            proof {
                self.handed@ = fragment@;
            }
            let action = Action::Decode(
                Handout { schema_id: self.payloads[self.cursor].schema_id.clone(), fragment },
            );
            assert(self.emitted@ =~= old(self).emitted@ + handed_out(action));
            action
        }
    }

    /// Takes in the decoder's answer to the fragment that is with it.
    fn take_answer(&mut self, decoded: Decoded) -> (action: Action)
        requires
            old(self).wf(),
            old(self).waiting_for() == Awaits::Decoded,
        ensures
            final(self).signal_kind() == old(self).signal_kind(),
            final(self).retry_policy() == old(self).retry_policy(),
            final(self).wf(),
            final(self).emitted() == old(self).emitted() + handed_out(action),
            final(self).took_answer(*old(self), decoded, action),
    {
        let Decoded { rest, answer } = decoded;
        let ghost given = answer;
        let ghost bytes = taken_from(self.handed@, rest@);
        let outcome = self.table.absorb(
            self.payloads[self.cursor].schema_id.as_str(),
            Ghost(bytes),
            answer,
        );
        match outcome {
            DecodeOutcome::Produced(batch) => {
                self.fragment = rest;
                self.awaits = Awaits::Stored;
                self.attempt = 1;
                let action = Action::Route(
                    Offer {
                        signal: self.signal,
                        schema_id: self.payloads[self.cursor].schema_id.clone(),
                        payload_type: self.role,
                        batch,
                    },
                );
                assert(self.emitted@ =~= old(self).emitted@ + handed_out(action));
                action
            },
            DecodeOutcome::NoData => {
                self.finish();
                self.advance()
            },
            DecodeOutcome::Error(text) => {
                proof {
                    if given is Err {
                        lemma_decode_error_text_is_long(given->Err_0@);
                    }
                }
                self.running.note_failure(text);
                self.finish();
                self.advance()
            },
        }
    }

    /// Takes in storage's answer to the batch that is with it.
    fn take_storage_answer(&mut self, result: StorageResult) -> (action: Action)
        requires
            old(self).wf(),
            old(self).waiting_for() == Awaits::Stored,
        ensures
            final(self).signal_kind() == old(self).signal_kind(),
            final(self).retry_policy() == old(self).retry_policy(),
            final(self).wf(),
            final(self).emitted() == old(self).emitted() + handed_out(action),
            final(self).took_storage_answer(*old(self), result, action),
    {
        let ghost given = result;
        match route(self.policy, self.attempt, result) {
            RouteDecision::Retry { attempt, delay_ms } => {
                self.attempt = attempt;
                let action = Action::Retry { attempt, delay_ms };
                assert(self.emitted@ =~= old(self).emitted@ + handed_out(action));
                action
            },
            RouteDecision::Done => {
                self.running.note_stored();
                self.resume()
            },
            RouteDecision::Failed(text) => {
                proof {
                    match given {
                        StorageResult::Fatal(cause) => lemma_failure_texts_are_long(cause@),
                        StorageResult::Retryable(cause) => lemma_failure_texts_are_long(cause@),
                        StorageResult::Stored => {},
                    }
                }
                self.running.note_failure(text);
                self.resume()
            },
        }
    }

    /// Takes in what the driver reports and says what the driver is to do
    /// next.
    ///
    /// A closed session answers `Close` to everything, and so does a session
    /// whose last status is on the way out. A cancelled call is closed at
    /// once and without a status. An open session that waits for a unit
    /// takes in the unit it gets; anything else closes it. An open session
    /// that waits for a decoder or for storage takes in the answer it waits
    /// for; anything else cuts the unit in work short (`EmitLast`).
    pub fn step(&mut self, event: Event) -> (action: Action)
        requires
            old(self).wf(),
        ensures
            final(self).wf(),
            final(self).signal_kind() == old(self).signal_kind(),
            final(self).retry_policy() == old(self).retry_policy(),
            final(self).emitted() == old(self).emitted() + handed_out(action),
            final(self).current_phase() is Closed ==> final(self).decoders().dom() == Set::<
                Seq<char>,
            >::empty(),
            !(final(self).current_phase() is Closed) ==> keeps_poison(
                old(self).decoders(),
                final(self).decoders(),
            ),
            old(self).closes_on(event) ==> action is Close,
            old(self).closes_on(event) ==> final(self).current_phase() is Closed,
            old(self).closes_on(event) ==> final(self).received() == old(self).received(),
            old(self).cut_short_by(event) ==> final(self).current_phase() is Closing,
            old(self).cut_short_by(event) ==> final(self).decoders() == old(self).decoders(),
            old(self).cut_short_by(event) ==> final(self).received() == old(self).received(),
            old(self).cut_short_by(event) ==> action is EmitLast && cuts_short(
                action->EmitLast_0,
                old(self).unit_in_work(),
            ),
            old(self).works_on(event) && event is Unit ==> final(self).took_unit(
                *old(self),
                event->Unit_0,
                action,
            ),
            old(self).works_on(event) && event is Decoded ==> final(self).took_answer(
                *old(self),
                event->Decoded_0,
                action,
            ),
            old(self).works_on(event) && event is Stored ==> final(self).took_storage_answer(
                *old(self),
                event->Stored_0,
                action,
            ),
    {
        let action = match self.phase {
            Phase::Open => match event {
                Event::Cancelled => {
                    self.shut();
                    Action::Close
                },
                Event::Unit(unit) => match self.awaits {
                    Awaits::Unit => {
                        self.begin(unit);
                        self.advance()
                    },
                    _ => self.terminate(),
                },
                Event::Decoded(decoded) => match self.awaits {
                    Awaits::Decoded => self.take_answer(decoded),
                    Awaits::Stored => self.terminate(),
                    Awaits::Unit => {
                        self.shut();
                        Action::Close
                    },
                },
                Event::Stored(result) => match self.awaits {
                    Awaits::Stored => self.take_storage_answer(result),
                    Awaits::Decoded => self.terminate(),
                    Awaits::Unit => {
                        self.shut();
                        Action::Close
                    },
                },
                Event::EndOfInput | Event::TransportError => match self.awaits {
                    Awaits::Unit => {
                        self.shut();
                        Action::Close
                    },
                    _ => self.terminate(),
                },
            },
            _ => {
                self.shut();
                Action::Close
            },
        };
        assert(self.emitted@ =~= old(self).emitted@ + handed_out(action));
        action
    }
}

/// Every status answers a unit, in the order in which the units arrived: the
/// statuses handed out so far answer the first units received, one each. A
/// session that waits for a unit has answered every unit; one that waits for
/// a decoder or for storage has answered all but the unit in work.
pub proof fn lemma_statuses_follow_units(session: IngestSession)
    requires
        session.wf(),
    ensures
        session.emitted().len() <= session.received().len() <= session.emitted().len() + 1,
        forall|i: int|
            0 <= i < session.emitted().len() ==> (#[trigger] session.emitted()[i]).unit_id
                == session.received()[i],
        session.current_phase() is Open && session.waiting_for() == Awaits::Unit
            ==> session.emitted().len() == session.received().len(),
        session.waiting_for() != Awaits::Unit ==> session.received().len()
            == session.emitted().len() + 1,
        session.waiting_for() != Awaits::Unit ==> session.received().last()
            == session.unit_in_work(),
        session.waiting_for() != Awaits::Unit ==> session.current_phase() is Open,
{
}

/// While the session waits for a decoder or for storage, it stands at a
/// payload of the unit in work whose stream is not poisoned, and the
/// payloads before that one are settled.
pub proof fn lemma_payload_in_work_is_sound(session: IngestSession)
    requires
        session.wf(),
        session.waiting_for() != Awaits::Unit,
    ensures
        0 <= session.position() < session.payloads_in_work().len(),
        session.settled().len() == session.position(),
        !session.poisoned(session.stream_in_work()),
{
}

/// The message of a unit is `"ok"` exactly where its code is `Okay`: every
/// payload that is settled otherwise has a diagnostic that says why.
pub proof fn lemma_ok_means_okay(session: IngestSession)
    requires
        session.wf(),
    ensures
        status_message(session.settled()) == "ok"@ <==> worst_of(session.settled())
            == StatusCode::Okay,
{
    lemma_ok_only_when_okay(session.settled());
}

} // verus!
