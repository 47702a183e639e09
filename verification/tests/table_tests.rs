use std::sync::Arc;

use arrow::array::{ArrayRef, Int64Array};
use arrow::datatypes::{DataType, Field, Schema};
use arrow::record_batch::RecordBatch;
use std::collections::HashMap;

use arrow_ipc::reader::StreamDecoder;
use arrow_ipc::writer::StreamWriter;
use treasury_ingest::decoder::{DecodeOutcome, DecodedBatch};
use treasury_ingest::fragment::Fragment;
use treasury_ingest::table::DecoderTable;

/// The decoders of one call as a driver runs them: the stream decoder of a
/// schema id takes the bytes, and the table makes an outcome of its answer.
/// A poisoned stream gets no byte.
struct Streams {
    table: DecoderTable,
    engines: HashMap<String, StreamDecoder>,
}

fn new_streams() -> Streams {
    Streams { table: DecoderTable::new(), engines: HashMap::new() }
}

fn decode(streams: &mut Streams, schema_id: &str, fragment: &mut Fragment) -> DecodeOutcome {
    if streams.table.is_poisoned(schema_id) {
        return streams.table.settle(schema_id, Ok(None));
    }
    let engine = streams.engines.entry(schema_id.to_string()).or_default();
    let answer = match engine.decode(&mut fragment.buffer) {
        Ok(Some(batch)) => Ok(Some(DecodedBatch { batch })),
        Ok(None) => Ok(None),
        Err(error) => Err(format!("{:?}", error)),
    };
    streams.table.settle(schema_id, answer)
}

fn numbers(values: Vec<i64>) -> RecordBatch {
    let schema = Arc::new(Schema::new(vec![Field::new("n", DataType::Int64, false)]));
    let column: ArrayRef = Arc::new(Int64Array::from(values));
    RecordBatch::try_new(schema, vec![column]).unwrap()
}

fn stream_of(batch: &RecordBatch) -> (Vec<u8>, usize) {
    let mut writer = StreamWriter::try_new(Vec::new(), &batch.schema()).unwrap();
    let schema_end = writer.get_ref().len();
    writer.write(batch).unwrap();
    writer.finish().unwrap();
    (writer.into_inner().unwrap(), schema_end)
}

fn garbage() -> Vec<u8> {
    let mut bytes = vec![0xFF, 0xFF, 0xFF, 0xFF, 8, 0, 0, 0];
    bytes.extend_from_slice(&[0xFF; 16]);
    bytes
}

fn batch_of(outcome: DecodeOutcome) -> RecordBatch {
    match outcome {
        DecodeOutcome::Produced(decoded) => decoded.batch,
        DecodeOutcome::NoData => panic!("a batch was expected, not NoData"),
        DecodeOutcome::Error(text) => panic!("a batch was expected, not {}", text),
    }
}

#[test]
fn new_table_has_no_poisoned_decoder() {
    let table = DecoderTable::new();
    assert!(!table.is_poisoned("s1"));
    assert!(!table.is_poisoned(""));
    assert_eq!(table.poison_of("s1"), None);
}

#[test]
fn settle_keeps_the_first_error_of_each_stream() {
    let mut table = DecoderTable::new();
    assert!(matches!(table.settle("a", Ok(None)), DecodeOutcome::NoData));
    assert_eq!(table.poison_of("a"), None);
    match table.settle("a", Err("cut".to_string())) {
        DecodeOutcome::Error(text) => assert_eq!(text, "Error decoding record: cut"),
        _ => panic!("an error was expected"),
    }
    match table.settle("b", Err("torn".to_string())) {
        DecodeOutcome::Error(text) => assert_eq!(text, "Error decoding record: torn"),
        _ => panic!("an error was expected"),
    }
    match table.settle("a", Ok(None)) {
        DecodeOutcome::Error(text) => assert_eq!(text, "Error decoding record: cut"),
        _ => panic!("an error was expected"),
    }
    assert_eq!(table.poison_of("a"), Some("Error decoding record: cut".to_string()));
    assert_eq!(table.poison_of("b"), Some("Error decoding record: torn".to_string()));
    assert_eq!(table.poison_of("c"), None);
}

#[test]
fn each_schema_id_has_a_decoder_of_its_own() {
    let first = numbers(vec![1, 2, 3]);
    let second = numbers(vec![40, 50]);
    let (a_bytes, a_schema) = stream_of(&first);
    let (b_bytes, b_schema) = stream_of(&second);
    let mut table = new_streams();

    // The two streams are interleaved piece by piece.
    let mut a_head = Fragment::new(&a_bytes[..a_schema]);
    assert!(matches!(decode(&mut table, "a", &mut a_head), DecodeOutcome::NoData));
    let mut b_head = Fragment::new(&b_bytes[..b_schema]);
    assert!(matches!(decode(&mut table, "b", &mut b_head), DecodeOutcome::NoData));
    let mut a_rest = Fragment::new(&a_bytes[a_schema..]);
    assert_eq!(batch_of(decode(&mut table, "a", &mut a_rest)), first);
    let mut b_rest = Fragment::new(&b_bytes[b_schema..]);
    assert_eq!(batch_of(decode(&mut table, "b", &mut b_rest)), second);
}

#[test]
fn malformed_payload_leaves_other_streams_alone() {
    let batch = numbers(vec![7, 8]);
    let (bytes, schema_end) = stream_of(&batch);
    let mut table = new_streams();

    let mut head = Fragment::new(&bytes[..schema_end]);
    assert!(matches!(decode(&mut table, "b", &mut head), DecodeOutcome::NoData));

    let mut bad = Fragment::new(&garbage());
    assert!(matches!(decode(&mut table, "a", &mut bad), DecodeOutcome::Error(_)));
    assert!(table.table.is_poisoned("a"));
    assert!(!table.table.is_poisoned("b"));

    // Stream b goes on where it stood, and a third stream starts afresh.
    let mut rest = Fragment::new(&bytes[schema_end..]);
    assert_eq!(batch_of(decode(&mut table, "b", &mut rest)), batch);
    let mut whole = Fragment::new(&bytes);
    assert_eq!(batch_of(decode(&mut table, "c", &mut whole)), batch);
    assert!(table.table.is_poisoned("a"));
    assert!(!table.table.is_poisoned("b"));
    assert!(!table.table.is_poisoned("c"));
}

#[test]
fn poisoned_stream_reports_its_error_for_every_later_fragment() {
    let batch = numbers(vec![7, 8]);
    let (bytes, _) = stream_of(&batch);
    let mut table = new_streams();
    let mut bad = Fragment::new(&garbage());
    let first = match decode(&mut table, "a", &mut bad) {
        DecodeOutcome::Error(text) => text,
        _ => panic!("an error was expected"),
    };
    for _ in 0..3 {
        let mut sound = Fragment::new(&bytes);
        match decode(&mut table, "a", &mut sound) {
            DecodeOutcome::Error(text) => assert_eq!(text, first),
            _ => panic!("an error was expected"),
        }
        assert_eq!(sound.len(), bytes.len());
        assert!(table.table.is_poisoned("a"));
    }
}

#[test]
fn schema_ids_are_told_apart_exactly() {
    let batch = numbers(vec![1]);
    let (bytes, _) = stream_of(&batch);
    let mut table = new_streams();
    let mut bad = Fragment::new(&garbage());
    assert!(matches!(decode(&mut table, "s1", &mut bad), DecodeOutcome::Error(_)));
    for id in ["s", "s11", "S1", "", " s1"] {
        assert!(!table.table.is_poisoned(id));
        let mut whole = Fragment::new(&bytes);
        assert_eq!(batch_of(decode(&mut table, id, &mut whole)), batch);
    }
    assert!(table.table.is_poisoned("s1"));
}
