//! The decoder states of one session, one for each schema id whose decoder
//! has answered.

use crate::decoder::{decode_error_text, DecodeOutcome, DecodedBatch, SchemaStreamDecoder};
use rustc_hash::{FxBuildHasher, FxHashMap};
use vstd::prelude::*;

verus! {

#[verifier::external_type_specification]
#[verifier::external_body]
pub struct ExFxBuildHasher(FxBuildHasher);

/// The entries of a map from schema ids to slots: each key that the map
/// holds, as its characters, with the slot stored under it.
pub uninterp spec fn slot_entries(slots: FxHashMap<String, usize>) -> Map<Seq<char>, usize>;

/// `FxHashMap::default`: a map without entries.
#[verifier::external_body]
fn slots_new() -> (slots: FxHashMap<String, usize>)
    ensures
        slot_entries(slots).dom() == Set::<Seq<char>>::empty(),
{
    FxHashMap::default()
}

/// `insert` on an `FxHashMap`: afterwards the map holds `slot` under `key`
/// and is otherwise as it was.
#[verifier::external_body]
fn slots_insert(slots: &mut FxHashMap<String, usize>, key: String, slot: usize)
    ensures
        slot_entries(*final(slots)) == slot_entries(*old(slots)).insert(key@, slot),
{
    slots.insert(key, slot);
}

/// `get` on an `FxHashMap`: the slot stored under `key`, if the map holds
/// `key`.
#[verifier::external_body]
fn slots_get(slots: &FxHashMap<String, usize>, key: &str) -> (slot: Option<usize>)
    ensures
        slot == (if slot_entries(*slots).contains_key(key@) {
            Some(slot_entries(*slots)[key@])
        } else {
            None
        }),
{
    match slots.get(key) {
        Some(slot) => Some(*slot),
        None => None,
    }
}

/// The decoders of one session. Each schema id has a slot of its own, and
/// the decoder in that slot sees the fragments of that schema id and no
/// others.
pub struct DecoderTable {
    slots: FxHashMap<String, usize>,
    decoders: Vec<SchemaStreamDecoder>,
}

impl View for DecoderTable {
    type V = Map<Seq<char>, SchemaStreamDecoder>;

    open spec fn view(&self) -> Map<Seq<char>, SchemaStreamDecoder> {
        self.decoders_by_id()
    }
}

impl DecoderTable {
    /// Every schema id has a slot that holds a decoder, and no two share one.
    pub closed spec fn wf(&self) -> bool {
        let slots = slot_entries(self.slots);
        &&& forall|id: Seq<char>| #[trigger]
            slots.contains_key(id) ==> slots[id] < self.decoders.len()
        &&& forall|a: Seq<char>, b: Seq<char>|
            #![trigger slots[a], slots[b]]
            slots.contains_key(a) && slots.contains_key(b) && slots[a] == slots[b] ==> a == b
        &&& forall|i: int| 0 <= i < self.decoders.len() ==> (#[trigger] self.decoders[i]).speaks()
    }

    /// In a table that is well formed, the error of a poisoned decoder has a
    /// text of more than two characters.
    pub proof fn lemma_poison_speaks(&self, id: Seq<char>)
        requires
            self.wf(),
            self.poisoned(id),
        ensures
            self@[id].poison_text().len() > 2,
    {
    }

    /// The decoder of each schema id that the session has seen.
    pub closed spec fn decoders_by_id(&self) -> Map<Seq<char>, SchemaStreamDecoder> {
        Map::new(
            |id: Seq<char>| slot_entries(self.slots).contains_key(id),
            |id: Seq<char>| self.decoders@[slot_entries(self.slots)[id] as int],
        )
    }

    /// Whether the decoder of `id` exists and is poisoned.
    pub open spec fn poisoned(&self, id: Seq<char>) -> bool {
        self@.contains_key(id) && self@[id].poisoned()
    }

    /// The bytes that the decoder of `id` has taken in so far; none where
    /// the table has no decoder of `id` yet.
    pub open spec fn taken_by(&self, id: Seq<char>) -> Seq<u8> {
        if self@.contains_key(id) {
            self@[id].taken()
        } else {
            Seq::empty()
        }
    }

    /// A table without decoders.
    pub fn new() -> (table: DecoderTable)
        ensures
            table.wf(),
            table@ == Map::<Seq<char>, SchemaStreamDecoder>::empty(),
    {
        let table = DecoderTable { slots: slots_new(), decoders: Vec::new() };
        assert(table@ =~= Map::<Seq<char>, SchemaStreamDecoder>::empty());
        table
    }

    /// Whether the decoder of `schema_id` exists and is poisoned.
    pub fn is_poisoned(&self, schema_id: &str) -> (poisoned: bool)
        requires
            self.wf(),
        ensures
            poisoned == self.poisoned(schema_id@),
    {
        match slots_get(&self.slots, schema_id) {
            Some(slot) => self.decoders[slot].is_poisoned(),
            None => false,
        }
    }

    /// The text of the error that poisons the decoder of `schema_id`, if it
    /// exists and is poisoned.
    pub fn poison_of(&self, schema_id: &str) -> (text: Option<String>)
        requires
            self.wf(),
        ensures
            text is Some <==> self.poisoned(schema_id@),
            text matches Some(own) ==> own@ == self@[schema_id@].poison_text(),
            text matches Some(own) ==> own@.len() > 2,
    {
        match slots_get(&self.slots, schema_id) {
            Some(slot) => self.decoders[slot].poison(),
            None => None,
        }
    }

    /// Notes that the stream decoder of `schema_id` has taken `bytes` and
    /// answered `answer`, and turns the answer into an outcome. The state
    /// of that decoder is created if this is its first answer. No other
    /// decoder is touched, and a poisoned one is left as it is.
    pub fn absorb(
        &mut self,
        schema_id: &str,
        bytes: Ghost<Seq<u8>>,
        answer: Result<Option<DecodedBatch>, String>,
    ) -> (outcome: DecodeOutcome)
        requires
            old(self).wf(),
        ensures
            final(self).wf(),
            final(self)@.dom() == old(self)@.dom().insert(schema_id@),
            forall|id: Seq<char>|
                id != schema_id@ && old(self)@.contains_key(id) ==> #[trigger] final(self)@[id]
                    == old(self)@[id],
            old(self).poisoned(schema_id@) ==> final(self)@ == old(self)@,
            old(self).poisoned(schema_id@) ==> outcome.reports(old(self)@[schema_id@].poison_text()),
            !old(self).poisoned(schema_id@) ==> final(self).taken_by(schema_id@) == old(
                self,
            ).taken_by(schema_id@) + bytes@,
            !old(self).poisoned(schema_id@) ==> (match answer {
                Ok(Some(batch)) => outcome == DecodeOutcome::Produced(batch),
                Ok(None) => outcome is NoData,
                Err(cause) => outcome.reports(decode_error_text(cause@)),
            }),
            final(self).poisoned(schema_id@) <==> outcome is Error,
            outcome is Error ==> outcome.reports(final(self)@[schema_id@].poison_text()),
    {
        let slot = match slots_get(&self.slots, schema_id) {
            Some(slot) => slot,
            None => {
                let fresh = self.decoders.len();
                slots_insert(&mut self.slots, schema_id.to_owned(), fresh);
                self.decoders.push(SchemaStreamDecoder::new());
                fresh
            },
        };
        let outcome = self.decoders[slot].absorb(bytes, answer);
        proof {
            assert(final(self)@.dom() =~= old(self)@.dom().insert(schema_id@));
            if old(self).poisoned(schema_id@) {
                assert(final(self).decoders@ =~= old(self).decoders@);
                assert(final(self)@ =~= old(self)@);
            }
        }
        outcome
    }

    /// Turns what the stream decoder of `schema_id` answered into an
    /// outcome, as `absorb` does, where the bytes that the decoder took are
    /// of no matter.
    pub fn settle(&mut self, schema_id: &str, answer: Result<Option<DecodedBatch>, String>) -> (outcome:
        DecodeOutcome)
        requires
            old(self).wf(),
        ensures
            final(self).wf(),
            final(self)@.dom() == old(self)@.dom().insert(schema_id@),
            forall|id: Seq<char>|
                id != schema_id@ && old(self)@.contains_key(id) ==> #[trigger] final(self)@[id]
                    == old(self)@[id],
            old(self).poisoned(schema_id@) ==> final(self)@ == old(self)@,
            old(self).poisoned(schema_id@) ==> outcome.reports(old(self)@[schema_id@].poison_text()),
            final(self).taken_by(schema_id@) == old(self).taken_by(schema_id@),
            !old(self).poisoned(schema_id@) ==> (match answer {
                Ok(Some(batch)) => outcome == DecodeOutcome::Produced(batch),
                Ok(None) => outcome is NoData,
                Err(cause) => outcome.reports(decode_error_text(cause@)),
            }),
            final(self).poisoned(schema_id@) <==> outcome is Error,
            outcome is Error ==> outcome.reports(final(self)@[schema_id@].poison_text()),
    {
        let outcome = self.absorb(schema_id, Ghost(Seq::empty()), answer);
        assert(old(self).taken_by(schema_id@) + Seq::<u8>::empty() =~= old(self).taken_by(
            schema_id@,
        ));
        outcome
    }
}

} // verus!
