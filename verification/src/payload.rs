//! Inbound units and their payloads, and the tables that a payload can
//! fill.

use vstd::prelude::*;

verus! {

/// The signal that a session serves. It names where the batches of the
/// session go, and decides nothing else.
#[derive(Clone, Copy, Debug, PartialEq, Eq, Structural)]
pub enum SignalKind {
    Logs,
    Metrics,
    Traces,
}

/// The table that a columnar stream fills.
#[derive(Clone, Copy, Debug, PartialEq, Eq, Structural)]
pub enum PayloadType {
    ResourceAttrs,
    ScopeAttrs,
    UnivariateMetrics,
    NumberDataPoints,
    SummaryDataPoints,
    HistogramDataPoints,
    ExpHistogramDataPoints,
    NumberDpAttrs,
    SummaryDpAttrs,
    HistogramDpAttrs,
    ExpHistogramDpAttrs,
    NumberDpExemplars,
    HistogramDpExemplars,
    ExpHistogramDpExemplars,
    NumberDpExemplarAttrs,
    HistogramDpExemplarAttrs,
    ExpHistogramDpExemplarAttrs,
    MultivariateMetrics,
    Logs,
    LogAttrs,
    Spans,
    SpanAttrs,
    SpanEvents,
    SpanLinks,
    SpanEventAttrs,
    SpanLinkAttrs,
}

impl PayloadType {
    /// The number that stands for this table on the wire.
    pub open spec fn code(self) -> int {
        match self {
            PayloadType::ResourceAttrs => 1,
            PayloadType::ScopeAttrs => 2,
            PayloadType::UnivariateMetrics => 10,
            PayloadType::NumberDataPoints => 11,
            PayloadType::SummaryDataPoints => 12,
            PayloadType::HistogramDataPoints => 13,
            PayloadType::ExpHistogramDataPoints => 14,
            PayloadType::NumberDpAttrs => 15,
            PayloadType::SummaryDpAttrs => 16,
            PayloadType::HistogramDpAttrs => 17,
            PayloadType::ExpHistogramDpAttrs => 18,
            PayloadType::NumberDpExemplars => 19,
            PayloadType::HistogramDpExemplars => 20,
            PayloadType::ExpHistogramDpExemplars => 21,
            PayloadType::NumberDpExemplarAttrs => 22,
            PayloadType::HistogramDpExemplarAttrs => 23,
            PayloadType::ExpHistogramDpExemplarAttrs => 24,
            PayloadType::MultivariateMetrics => 25,
            PayloadType::Logs => 30,
            PayloadType::LogAttrs => 31,
            PayloadType::Spans => 40,
            PayloadType::SpanAttrs => 41,
            PayloadType::SpanEvents => 42,
            PayloadType::SpanLinks => 43,
            PayloadType::SpanEventAttrs => 44,
            PayloadType::SpanLinkAttrs => 45,
        }
    }

    /// The table that `code` stands for, if any.
    pub open spec fn of_code(code: int) -> Option<PayloadType> {
        if code == 1 {
            Some(PayloadType::ResourceAttrs)
        } else if code == 2 {
            Some(PayloadType::ScopeAttrs)
        } else if code == 10 {
            Some(PayloadType::UnivariateMetrics)
        } else if code == 11 {
            Some(PayloadType::NumberDataPoints)
        } else if code == 12 {
            Some(PayloadType::SummaryDataPoints)
        } else if code == 13 {
            Some(PayloadType::HistogramDataPoints)
        } else if code == 14 {
            Some(PayloadType::ExpHistogramDataPoints)
        } else if code == 15 {
            Some(PayloadType::NumberDpAttrs)
        } else if code == 16 {
            Some(PayloadType::SummaryDpAttrs)
        } else if code == 17 {
            Some(PayloadType::HistogramDpAttrs)
        } else if code == 18 {
            Some(PayloadType::ExpHistogramDpAttrs)
        } else if code == 19 {
            Some(PayloadType::NumberDpExemplars)
        } else if code == 20 {
            Some(PayloadType::HistogramDpExemplars)
        } else if code == 21 {
            Some(PayloadType::ExpHistogramDpExemplars)
        } else if code == 22 {
            Some(PayloadType::NumberDpExemplarAttrs)
        } else if code == 23 {
            Some(PayloadType::HistogramDpExemplarAttrs)
        } else if code == 24 {
            Some(PayloadType::ExpHistogramDpExemplarAttrs)
        } else if code == 25 {
            Some(PayloadType::MultivariateMetrics)
        } else if code == 30 {
            Some(PayloadType::Logs)
        } else if code == 31 {
            Some(PayloadType::LogAttrs)
        } else if code == 40 {
            Some(PayloadType::Spans)
        } else if code == 41 {
            Some(PayloadType::SpanAttrs)
        } else if code == 42 {
            Some(PayloadType::SpanEvents)
        } else if code == 43 {
            Some(PayloadType::SpanLinks)
        } else if code == 44 {
            Some(PayloadType::SpanEventAttrs)
        } else if code == 45 {
            Some(PayloadType::SpanLinkAttrs)
        } else {
            None
        }
    }

    /// Reads a table from its number on the wire.
    pub fn from_code(code: i32) -> (table: Option<PayloadType>)
        ensures
            table == PayloadType::of_code(code as int),
    {
        match code {
            1 => Some(PayloadType::ResourceAttrs),
            2 => Some(PayloadType::ScopeAttrs),
            10 => Some(PayloadType::UnivariateMetrics),
            11 => Some(PayloadType::NumberDataPoints),
            12 => Some(PayloadType::SummaryDataPoints),
            13 => Some(PayloadType::HistogramDataPoints),
            14 => Some(PayloadType::ExpHistogramDataPoints),
            15 => Some(PayloadType::NumberDpAttrs),
            16 => Some(PayloadType::SummaryDpAttrs),
            17 => Some(PayloadType::HistogramDpAttrs),
            18 => Some(PayloadType::ExpHistogramDpAttrs),
            19 => Some(PayloadType::NumberDpExemplars),
            20 => Some(PayloadType::HistogramDpExemplars),
            21 => Some(PayloadType::ExpHistogramDpExemplars),
            22 => Some(PayloadType::NumberDpExemplarAttrs),
            23 => Some(PayloadType::HistogramDpExemplarAttrs),
            24 => Some(PayloadType::ExpHistogramDpExemplarAttrs),
            25 => Some(PayloadType::MultivariateMetrics),
            30 => Some(PayloadType::Logs),
            31 => Some(PayloadType::LogAttrs),
            40 => Some(PayloadType::Spans),
            41 => Some(PayloadType::SpanAttrs),
            42 => Some(PayloadType::SpanEvents),
            43 => Some(PayloadType::SpanLinks),
            44 => Some(PayloadType::SpanEventAttrs),
            45 => Some(PayloadType::SpanLinkAttrs),
            _ => None,
        }
    }

    /// The number that stands for this table on the wire.
    pub fn to_code(self) -> (code: i32)
        ensures
            code == self.code(),
    {
        match self {
            PayloadType::ResourceAttrs => 1,
            PayloadType::ScopeAttrs => 2,
            PayloadType::UnivariateMetrics => 10,
            PayloadType::NumberDataPoints => 11,
            PayloadType::SummaryDataPoints => 12,
            PayloadType::HistogramDataPoints => 13,
            PayloadType::ExpHistogramDataPoints => 14,
            PayloadType::NumberDpAttrs => 15,
            PayloadType::SummaryDpAttrs => 16,
            PayloadType::HistogramDpAttrs => 17,
            PayloadType::ExpHistogramDpAttrs => 18,
            PayloadType::NumberDpExemplars => 19,
            PayloadType::HistogramDpExemplars => 20,
            PayloadType::ExpHistogramDpExemplars => 21,
            PayloadType::NumberDpExemplarAttrs => 22,
            PayloadType::HistogramDpExemplarAttrs => 23,
            PayloadType::ExpHistogramDpExemplarAttrs => 24,
            PayloadType::MultivariateMetrics => 25,
            PayloadType::Logs => 30,
            PayloadType::LogAttrs => 31,
            PayloadType::Spans => 40,
            PayloadType::SpanAttrs => 41,
            PayloadType::SpanEvents => 42,
            PayloadType::SpanLinks => 43,
            PayloadType::SpanEventAttrs => 44,
            PayloadType::SpanLinkAttrs => 45,
        }
    }
}

/// One fragment of a columnar stream, as it arrives.
#[derive(Debug)]
pub struct Payload {
    /// Names the stream that the fragment belongs to.
    pub schema_id: String,
    /// The table that the stream fills, as written on the wire.
    pub payload_type: i32,
    /// The bytes of the fragment.
    pub record: Vec<u8>,
}

/// One inbound message. It is acknowledged by exactly one status.
#[derive(Debug)]
pub struct Unit {
    pub id: i64,
    pub payloads: Vec<Payload>,
}

/// Writing a table's number down and reading it again gives the table back,
/// and no two tables share a number.
pub proof fn lemma_code_round_trip(table: PayloadType, code: int)
    ensures
        PayloadType::of_code(table.code()) == Some(table),
        PayloadType::of_code(code) == Some(table) ==> table.code() == code,
{
}

} // verus!
