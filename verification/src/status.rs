//! Status records and the worst-of rule that turns the outcomes of a unit's
//! payloads into the one status that acknowledges the unit.

use vstd::prelude::*;
use vstd::string::StringExecFns;

verus! {

/// How the processing of a payload, or of a whole unit, ended.
#[derive(Clone, Copy, Debug, PartialEq, Eq, Structural)]
pub enum StatusCode {
    Okay,
    NoData,
    Error,
}

impl StatusCode {
    /// Position in the order `Okay < NoData < Error`.
    pub open spec fn severity(self) -> nat {
        match self {
            StatusCode::Okay => 0,
            StatusCode::NoData => 1,
            StatusCode::Error => 2,
        }
    }

    /// The more severe of two codes.
    pub open spec fn worse(self, other: StatusCode) -> StatusCode {
        if other.severity() > self.severity() {
            other
        } else {
            self
        }
    }

    /// The number that stands for this code on the wire: 0, which the wire
    /// calls OK, for `Okay` and for `NoData`, since a fragment that completes
    /// no batch is no failure; 13, which the wire calls INTERNAL, for
    /// `Error`.
    pub open spec fn wire_number(self) -> int {
        match self {
            StatusCode::Okay => 0,
            StatusCode::NoData => 0,
            StatusCode::Error => 13,
        }
    }

    /// The number that stands for this code on the wire.
    pub fn wire_code(self) -> (code: i32)
        ensures
            code == self.wire_number(),
    {
        match self {
            StatusCode::Okay => 0,
            StatusCode::NoData => 0,
            StatusCode::Error => 13,
        }
    }

    /// Returns the more severe of two codes.
    pub fn worst(self, other: StatusCode) -> (code: StatusCode)
        ensures
            code == self.worse(other),
    {
        match (self, other) {
            (StatusCode::Error, _) => StatusCode::Error,
            (_, StatusCode::Error) => StatusCode::Error,
            (StatusCode::NoData, _) => StatusCode::NoData,
            (_, StatusCode::NoData) => StatusCode::NoData,
            _ => StatusCode::Okay,
        }
    }
}

/// What became of one payload: its code and, where that is not `Okay`, the
/// reason in words.
#[derive(Debug)]
pub struct PayloadOutcome {
    pub code: StatusCode,
    pub diagnostic: String,
}

/// An outcome once a batch of its payload is stored: a payload without
/// data so far is `Okay` from now on, and an error stays.
pub open spec fn after_stored(outcome: (StatusCode, Seq<char>)) -> (StatusCode, Seq<char>) {
    if outcome.0 == StatusCode::NoData {
        (StatusCode::Okay, Seq::empty())
    } else {
        outcome
    }
}

/// An outcome once something has failed because of `cause`: the first error
/// of a payload stays.
pub open spec fn after_failure(outcome: (StatusCode, Seq<char>), cause: Seq<char>) -> (
    StatusCode,
    Seq<char>,
) {
    if outcome.0 == StatusCode::Error {
        outcome
    } else {
        (StatusCode::Error, cause)
    }
}

impl View for PayloadOutcome {
    type V = (StatusCode, Seq<char>);

    open spec fn view(&self) -> (StatusCode, Seq<char>) {
        (self.code, self.diagnostic@)
    }
}

impl PayloadOutcome {
    /// Whether this outcome has the code `code` and the diagnostic `text`.
    pub open spec fn holds(&self, code: StatusCode, text: Seq<char>) -> bool {
        self.code == code && self.diagnostic@ == text
    }

    /// Whether this outcome says why it is not `Okay`: it is `Okay`, or its
    /// diagnostic has more than two characters.
    pub open spec fn speaks(&self) -> bool {
        self.code != StatusCode::Okay ==> self.diagnostic@.len() > 2
    }

    /// This outcome once a batch of the payload is stored.
    pub open spec fn with_stored(&self) -> (StatusCode, Seq<char>) {
        after_stored(self@)
    }

    /// This outcome once something has failed because of `cause`.
    pub open spec fn with_failure(&self, cause: Seq<char>) -> (StatusCode, Seq<char>) {
        after_failure(self@, cause)
    }

    /// The outcome of a payload of which nothing is known yet: no data.
    pub fn pending() -> (outcome: PayloadOutcome)
        ensures
            outcome.holds(StatusCode::NoData, "no record decoded"@),
            outcome.speaks(),
    {
        proof {
            reveal_strlit("no record decoded");
        }
        PayloadOutcome {
            code: StatusCode::NoData,
            diagnostic: String::from_str("no record decoded"),
        }
    }

    /// The outcome of a payload whose type the session does not take.
    pub fn unsupported() -> (outcome: PayloadOutcome)
        ensures
            outcome.holds(StatusCode::Error, "unsupported payload type"@),
            outcome.speaks(),
    {
        proof {
            reveal_strlit("unsupported payload type");
        }
        PayloadOutcome {
            code: StatusCode::Error,
            diagnostic: String::from_str("unsupported payload type"),
        }
    }

    /// Notes that a batch of the payload is stored.
    pub fn note_stored(&mut self)
        ensures
            final(self).holds(old(self).with_stored().0, old(self).with_stored().1),
            old(self).speaks() ==> final(self).speaks(),
    {
        match self.code {
            StatusCode::NoData => {
                self.code = StatusCode::Okay;
                self.diagnostic = String::new();
            },
            _ => {},
        }
    }

    /// Notes that decoding or storing has failed because of `cause`.
    pub fn note_failure(&mut self, cause: String)
        ensures
            final(self).holds(old(self).with_failure(cause@).0, old(self).with_failure(cause@).1),
            old(self).speaks() && cause@.len() > 2 ==> final(self).speaks(),
    {
        match self.code {
            StatusCode::Error => {},
            _ => {
                self.code = StatusCode::Error;
                self.diagnostic = cause;
            },
        }
    }

    /// A copy of this outcome.
    pub fn copy(&self) -> (outcome: PayloadOutcome)
        ensures
            outcome.holds(self.code, self.diagnostic@),
    {
        PayloadOutcome { code: self.code, diagnostic: self.diagnostic.clone() }
    }
}

/// The acknowledgment of one unit.
#[derive(Debug)]
pub struct Status {
    pub unit_id: i64,
    pub status_code: StatusCode,
    pub message: String,
}

/// The most severe code among `outcomes`; `Okay` where there is none.
pub open spec fn worst_of(outcomes: Seq<PayloadOutcome>) -> StatusCode
    decreases outcomes.len(),
{
    if outcomes.len() == 0 {
        StatusCode::Okay
    } else {
        worst_of(outcomes.drop_last()).worse(outcomes.last().code)
    }
}

/// The diagnostics of the outcomes that are not `Okay`, in payload order, with
/// `"; "` between one and the next.
pub open spec fn joined_diagnostics(outcomes: Seq<PayloadOutcome>) -> Seq<char>
    decreases outcomes.len(),
{
    if outcomes.len() == 0 {
        Seq::empty()
    } else {
        let before = outcomes.drop_last();
        let last = outcomes.last();
        if last.code == StatusCode::Okay {
            joined_diagnostics(before)
        } else if worst_of(before) == StatusCode::Okay {
            last.diagnostic@
        } else {
            joined_diagnostics(before) + "; "@ + last.diagnostic@
        }
    }
}

/// The message of a unit's status: `"ok"` where every payload was `Okay`, else
/// the joined diagnostics.
pub open spec fn status_message(outcomes: Seq<PayloadOutcome>) -> Seq<char> {
    if worst_of(outcomes) == StatusCode::Okay {
        "ok"@
    } else {
        joined_diagnostics(outcomes)
    }
}

/// Builds the status of unit `unit_id` from the outcomes of its payloads.
pub fn aggregate(unit_id: i64, outcomes: &Vec<PayloadOutcome>) -> (status: Status)
    ensures
        status.unit_id == unit_id,
        status.status_code == worst_of(outcomes@),
        status.message@ == status_message(outcomes@),
{
    let mut code = StatusCode::Okay;
    let mut text = String::new();
    let mut i: usize = 0;
    while i < outcomes.len()
        invariant
            i <= outcomes.len(),
            code == worst_of(outcomes@.take(i as int)),
            text@ == joined_diagnostics(outcomes@.take(i as int)),
        decreases outcomes.len() - i,
    {
        let outcome = &outcomes[i];
        proof {
            assert(outcomes@.take(i + 1).drop_last() == outcomes@.take(i as int));
            assert(outcomes@.take(i + 1).last() == outcomes@[i as int]);
            if code == StatusCode::Okay {
                lemma_no_diagnostics_when_okay(outcomes@.take(i as int));
            }
        }
        match outcome.code {
            StatusCode::Okay => {},
            _ => {
                match code {
                    StatusCode::Okay => {},
                    _ => {
                        text.append("; ");
                    },
                }
                text.append(outcome.diagnostic.as_str());
            },
        }
        code = code.worst(outcome.code);
        i = i + 1;
    }
    proof {
        assert(outcomes@.take(i as int) == outcomes@);
    }
    match code {
        StatusCode::Okay => {
            text = String::from_str("ok");
        },
        _ => {},
    }
    Status { unit_id, status_code: code, message: text }
}

/// Whether every outcome among `outcomes` says why it is not `Okay`.
pub open spec fn speaking(outcomes: Seq<PayloadOutcome>) -> bool {
    forall|i: int| 0 <= i < outcomes.len() ==> (#[trigger] outcomes[i]).speaks()
}

/// The joined diagnostics of outcomes that are not all `Okay`, and that say
/// why, are longer than two characters.
pub proof fn lemma_joined_is_long(outcomes: Seq<PayloadOutcome>)
    requires
        speaking(outcomes),
        worst_of(outcomes) != StatusCode::Okay,
    ensures
        joined_diagnostics(outcomes).len() > 2,
    decreases outcomes.len(),
{
    if outcomes.len() > 0 {
        let before = outcomes.drop_last();
        assert(outcomes.last().speaks());
        if outcomes.last().code == StatusCode::Okay {
            assert(speaking(before)) by {
                assert forall|i: int| 0 <= i < before.len() implies (#[trigger] before[i]).speaks() by {
                    assert(before[i] == outcomes[i]);
                }
            }
            lemma_joined_is_long(before);
        }
    }
}

/// The message of a unit is `"ok"` exactly where its code is `Okay`,
/// provided that every outcome says why it is not `Okay`.
pub proof fn lemma_ok_only_when_okay(outcomes: Seq<PayloadOutcome>)
    requires
        speaking(outcomes),
    ensures
        status_message(outcomes) == "ok"@ <==> worst_of(outcomes) == StatusCode::Okay,
{
    reveal_strlit("ok");
    if worst_of(outcomes) != StatusCode::Okay {
        lemma_joined_is_long(outcomes);
    }
}

/// Outcomes that are all `Okay` carry no diagnostic.
pub proof fn lemma_no_diagnostics_when_okay(outcomes: Seq<PayloadOutcome>)
    requires
        worst_of(outcomes) == StatusCode::Okay,
    ensures
        joined_diagnostics(outcomes) == Seq::<char>::empty(),
    decreases outcomes.len(),
{
    if outcomes.len() > 0 {
        lemma_no_diagnostics_when_okay(outcomes.drop_last());
    }
}

/// The worst-of rule read by cases: the code is `Error` exactly where some
/// outcome is `Error`, and `Okay` exactly where every outcome is `Okay`; in what
/// is left it is `NoData`.
pub proof fn lemma_worst_of_by_cases(outcomes: Seq<PayloadOutcome>)
    ensures
        worst_of(outcomes) == StatusCode::Error <==> exists|i: int|
            0 <= i < outcomes.len() && (#[trigger] outcomes[i]).code == StatusCode::Error,
        worst_of(outcomes) == StatusCode::Okay <==> forall|i: int|
            0 <= i < outcomes.len() ==> (#[trigger] outcomes[i]).code == StatusCode::Okay,
    decreases outcomes.len(),
{
    if outcomes.len() > 0 {
        let before = outcomes.drop_last();
        lemma_worst_of_by_cases(before);
        assert(forall|i: int| 0 <= i < before.len() ==> before[i] == outcomes[i]);
        if worst_of(before) == StatusCode::Error {
            let i = choose|i: int|
                0 <= i < before.len() && (#[trigger] before[i]).code == StatusCode::Error;
            assert(outcomes[i].code == StatusCode::Error);
        }
        if worst_of(before) != StatusCode::Okay {
            let i = choose|i: int|
                0 <= i < before.len() && (#[trigger] before[i]).code != StatusCode::Okay;
            assert(outcomes[i].code != StatusCode::Okay);
        }
        if exists|i: int|
            0 <= i < outcomes.len() && (#[trigger] outcomes[i]).code == StatusCode::Error {
            let i = choose|i: int|
                0 <= i < outcomes.len() && (#[trigger] outcomes[i]).code == StatusCode::Error;
            if i < before.len() {
                assert(before[i].code == StatusCode::Error);
            }
        }
    }
}

/// The code of a unit does not depend on the order of its payloads: two
/// sequences that hold the same outcomes, each as often, have one worst code.
pub proof fn lemma_worst_of_ignores_order(a: Seq<PayloadOutcome>, b: Seq<PayloadOutcome>)
    requires
        a.to_multiset() == b.to_multiset(),
    ensures
        worst_of(a) == worst_of(b),
{
    lemma_worst_of_by_cases(a);
    lemma_worst_of_by_cases(b);
    assert forall|x: PayloadOutcome| a.contains(x) <==> b.contains(x) by {
        vstd::seq_lib::to_multiset_contains(a, x);
        vstd::seq_lib::to_multiset_contains(b, x);
    }
    lemma_code_present(a, b, StatusCode::Error);
    lemma_code_present(b, a, StatusCode::Error);
    lemma_code_present(a, b, StatusCode::NoData);
    lemma_code_present(b, a, StatusCode::NoData);
    lemma_code_present(a, b, StatusCode::Okay);
    lemma_code_present(b, a, StatusCode::Okay);
    if worst_of(a) != StatusCode::Okay && worst_of(b) == StatusCode::Okay {
        let i = choose|i: int| 0 <= i < a.len() && (#[trigger] a[i]).code != StatusCode::Okay;
        assert(a[i].code == StatusCode::Error || a[i].code == StatusCode::NoData);
    }
    if worst_of(b) != StatusCode::Okay && worst_of(a) == StatusCode::Okay {
        let i = choose|i: int| 0 <= i < b.len() && (#[trigger] b[i]).code != StatusCode::Okay;
        assert(b[i].code == StatusCode::Error || b[i].code == StatusCode::NoData);
    }
}

/// A code that occurs in `a` occurs in every sequence that holds all of `a`'s
/// outcomes.
proof fn lemma_code_present(a: Seq<PayloadOutcome>, b: Seq<PayloadOutcome>, code: StatusCode)
    requires
        forall|x: PayloadOutcome| a.contains(x) ==> b.contains(x),
    ensures
        (exists|i: int| 0 <= i < a.len() && (#[trigger] a[i]).code == code) ==> (exists|j: int|
            0 <= j < b.len() && (#[trigger] b[j]).code == code),
{
    if exists|i: int| 0 <= i < a.len() && (#[trigger] a[i]).code == code {
        let i = choose|i: int| 0 <= i < a.len() && (#[trigger] a[i]).code == code;
        assert(a.contains(a[i]));
        assert(b.contains(a[i]));
        let j = choose|j: int| 0 <= j < b.len() && b[j] == a[i];
        assert(b[j].code == code);
    }
}

} // verus!
