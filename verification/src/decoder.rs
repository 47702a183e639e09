//! What a session knows of the decoder of one logical columnar stream, and
//! what it makes of each answer of that decoder.
//!
//! The stream decoder itself is run by the driver of the session: on bytes
//! that a client chooses it may fail in ways that no caller can rule out
//! beforehand, and nothing in this library may do that.

use arrow::record_batch::RecordBatch;
use vstd::prelude::*;
use vstd::string::StringExecFns;

verus! {

/// A decoded columnar batch, on its way from the decoder to storage: an
/// `arrow::record_batch::RecordBatch`, which the library carries and never
/// looks into. To the verifier it is a value of which nothing is known.
#[verifier::external_body]
pub struct DecodedBatch {
    pub batch: RecordBatch,
}

/// What the decoder of a stream reports for a fragment.
pub enum DecodeOutcome {
    /// A record-batch message was completed.
    Produced(DecodedBatch),
    /// The bytes were taken in and no batch is complete yet.
    NoData,
    /// The stream is corrupt; the text says how.
    Error(String),
}

impl DecodeOutcome {
    /// Whether this is an error whose text is `text`.
    pub open spec fn reports(&self, text: Seq<char>) -> bool {
        match self {
            DecodeOutcome::Error(own) => own@ == text,
            _ => false,
        }
    }
}

/// The text that a failed decode carries: a fixed prefix and the cause.
pub open spec fn decode_error_text(cause: Seq<char>) -> Seq<char> {
    "Error decoding record: "@ + cause
}

/// The text of a failed decode has more than two characters.
pub proof fn lemma_decode_error_text_is_long(cause: Seq<char>)
    ensures
        decode_error_text(cause).len() > 2,
{
    reveal_strlit("Error decoding record: ");
}

/// The state of the decoder of one schema id: whether an error has poisoned
/// it, and which bytes it has taken in. It is poisoned by the first error
/// and from then on reports that error for every fragment.
pub struct SchemaStreamDecoder {
    poison: Option<String>,
    /// Every byte that the stream decoder has taken, in order.
    taken: Ghost<Seq<u8>>,
}

impl SchemaStreamDecoder {
    /// Whether an error has been recorded.
    pub closed spec fn poisoned(&self) -> bool {
        self.poison is Some
    }

    /// The text of the recorded error.
    pub closed spec fn poison_text(&self) -> Seq<char>
        recommends
            self.poisoned(),
    {
        self.poison->0@
    }

    /// The bytes of the stream that the decoder has taken in so far, in the
    /// order in which it took them.
    pub closed spec fn taken(&self) -> Seq<u8> {
        self.taken@
    }

    /// Whether the recorded error, if there is one, has a text of more than
    /// two characters.
    pub open spec fn speaks(&self) -> bool {
        self.poisoned() ==> self.poison_text().len() > 2
    }

    /// A decoder at the start of its stream: it has taken in no byte and
    /// recorded no error.
    pub fn new() -> (decoder: SchemaStreamDecoder)
        ensures
            !decoder.poisoned(),
            decoder.taken() == Seq::<u8>::empty(),
    {
        SchemaStreamDecoder { poison: None, taken: Ghost(Seq::empty()) }
    }

    /// Whether an error has been recorded.
    pub fn is_poisoned(&self) -> (poisoned: bool)
        ensures
            poisoned == self.poisoned(),
    {
        self.poison.is_some()
    }

    /// The text of the recorded error, if there is one.
    pub fn poison(&self) -> (text: Option<String>)
        ensures
            text is Some <==> self.poisoned(),
            text matches Some(own) ==> own@ == self.poison_text(),
    {
        match &self.poison {
            Some(text) => Some(text.clone()),
            None => None,
        }
    }

    /// Turns what the stream decoder answered into an outcome, and records
    /// an error. A poisoned decoder keeps its error whatever the answer.
    pub fn settle(&mut self, answer: Result<Option<DecodedBatch>, String>) -> (outcome:
        DecodeOutcome)
        ensures
            final(self).taken() == old(self).taken(),
            old(self).speaks() ==> final(self).speaks(),
            old(self).poisoned() ==> *final(self) == *old(self),
            old(self).poisoned() ==> outcome.reports(old(self).poison_text()),
            !old(self).poisoned() ==> (match answer {
                Ok(Some(batch)) => outcome == DecodeOutcome::Produced(batch),
                Ok(None) => outcome is NoData,
                Err(cause) => outcome.reports(decode_error_text(cause@)),
            }),
            final(self).poisoned() <==> outcome is Error,
            outcome is Error ==> outcome.reports(final(self).poison_text()),
    {
        match &self.poison {
            Some(text) => DecodeOutcome::Error(text.clone()),
            None => match answer {
                Ok(Some(batch)) => DecodeOutcome::Produced(batch),
                Ok(None) => DecodeOutcome::NoData,
                Err(cause) => {
                    proof {
                        reveal_strlit("Error decoding record: ");
                    }
                    let text = String::from_str("Error decoding record: ").concat(cause.as_str());
                    self.poison = Some(text.clone());
                    DecodeOutcome::Error(text)
                },
            },
        }
    }

    /// Notes that the stream decoder has taken `bytes` and answered
    /// `answer`, and turns the answer into an outcome as `settle` does. A
    /// poisoned decoder is left as it is.
    pub fn absorb(
        &mut self,
        bytes: Ghost<Seq<u8>>,
        answer: Result<Option<DecodedBatch>, String>,
    ) -> (outcome: DecodeOutcome)
        ensures
            old(self).speaks() ==> final(self).speaks(),
            old(self).poisoned() ==> *final(self) == *old(self),
            old(self).poisoned() ==> outcome.reports(old(self).poison_text()),
            !old(self).poisoned() ==> final(self).taken() == old(self).taken() + bytes@,
            !old(self).poisoned() ==> (match answer {
                Ok(Some(batch)) => outcome == DecodeOutcome::Produced(batch),
                Ok(None) => outcome is NoData,
                Err(cause) => outcome.reports(decode_error_text(cause@)),
            }),
            final(self).poisoned() <==> outcome is Error,
            outcome is Error ==> outcome.reports(final(self).poison_text()),
    {
        if self.poison.is_none() {
            proof {
                self.taken@ = self.taken@ + bytes@;
            }
        }
        self.settle(answer)
    }
}

} // verus!
