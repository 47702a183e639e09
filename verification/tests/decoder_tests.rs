use std::sync::Arc;

use arrow::array::{ArrayRef, Int64Array, StringArray};
use arrow::datatypes::{DataType, Field, Schema};
use arrow::record_batch::RecordBatch;
use arrow_ipc::reader::StreamDecoder;
use arrow_ipc::writer::StreamWriter;
use treasury_ingest::decoder::{DecodeOutcome, DecodedBatch, SchemaStreamDecoder};
use treasury_ingest::fragment::Fragment;

/// The decoder of one stream as a driver runs it: the stream decoder takes
/// the bytes, and the state makes an outcome of its answer. A poisoned
/// stream gets no byte.
struct Stream {
    state: SchemaStreamDecoder,
    engine: StreamDecoder,
}

fn new_stream() -> Stream {
    Stream { state: SchemaStreamDecoder::new(), engine: StreamDecoder::new() }
}

fn decode(stream: &mut Stream, fragment: &mut Fragment) -> DecodeOutcome {
    if stream.state.is_poisoned() {
        return stream.state.settle(Ok(None));
    }
    let answer = match stream.engine.decode(&mut fragment.buffer) {
        Ok(Some(batch)) => Ok(Some(DecodedBatch { batch })),
        Ok(None) => Ok(None),
        Err(error) => Err(format!("{:?}", error)),
    };
    stream.state.settle(answer)
}

fn sample_batch(first: i64) -> RecordBatch {
    let schema = Arc::new(Schema::new(vec![
        Field::new("id", DataType::Int64, false),
        Field::new("body", DataType::Utf8, true),
    ]));
    let ids: ArrayRef = Arc::new(Int64Array::from(vec![first, first + 1, first + 2]));
    let bodies: ArrayRef = Arc::new(StringArray::from(vec![Some("a"), None, Some("c")]));
    RecordBatch::try_new(schema, vec![ids, bodies]).unwrap()
}

/// The bytes of a whole stream, and the places where the schema message and
/// each batch message end.
fn encode(batches: &[RecordBatch]) -> (Vec<u8>, Vec<usize>) {
    let mut writer = StreamWriter::try_new(Vec::new(), &batches[0].schema()).unwrap();
    let mut ends = vec![writer.get_ref().len()];
    for batch in batches {
        writer.write(batch).unwrap();
        ends.push(writer.get_ref().len());
    }
    writer.finish().unwrap();
    (writer.into_inner().unwrap(), ends)
}

/// Feeds the pieces one after the other and collects every batch.
fn decode_all(decoder: &mut Stream, pieces: &[&[u8]]) -> Vec<RecordBatch> {
    let mut batches = Vec::new();
    for piece in pieces {
        let mut fragment = Fragment::new(piece);
        loop {
            match decode(decoder, &mut fragment) {
                DecodeOutcome::Produced(decoded) => batches.push(decoded.batch),
                DecodeOutcome::NoData => break,
                DecodeOutcome::Error(text) => panic!("unexpected error: {}", text),
            }
        }
        assert!(fragment.is_empty());
    }
    batches
}

fn error_text(outcome: DecodeOutcome) -> String {
    match outcome {
        DecodeOutcome::Error(text) => text,
        DecodeOutcome::NoData => panic!("an error was expected, not NoData"),
        DecodeOutcome::Produced(_) => panic!("an error was expected, not a batch"),
    }
}

#[test]
fn round_trip_in_one_fragment() {
    let batch = sample_batch(7);
    let (bytes, _) = encode(&[batch.clone()]);
    let mut decoder = new_stream();
    let mut fragment = Fragment::new(&bytes);
    match decode(&mut decoder, &mut fragment) {
        DecodeOutcome::Produced(decoded) => {
            assert_eq!(decoded.batch.schema(), batch.schema());
            assert_eq!(decoded.batch.num_rows(), 3);
            assert_eq!(decoded.batch, batch);
        }
        _ => panic!("a batch was expected"),
    }
    assert!(!decoder.state.is_poisoned());
    // Only the end-of-stream marker is left.
    assert_eq!(fragment.len(), 8);
    assert!(matches!(decode(&mut decoder, &mut fragment), DecodeOutcome::NoData));
    assert!(fragment.is_empty());
}

#[test]
fn fragment_holds_the_bytes_it_was_made_of() {
    let fragment = Fragment::new(&[1, 2, 3, 250]);
    assert_eq!(fragment.len(), 4);
    assert!(!fragment.is_empty());
    assert_eq!(fragment.to_vec(), vec![1, 2, 3, 250]);
    for empty in [Fragment::new(&[]), Fragment::empty()] {
        assert_eq!(empty.len(), 0);
        assert!(empty.is_empty());
        assert_eq!(empty.to_vec(), Vec::<u8>::new());
    }
}

#[test]
fn decode_takes_bytes_from_the_front_only() {
    let (bytes, ends) = encode(&[sample_batch(1), sample_batch(10)]);
    let mut decoder = new_stream();
    let mut fragment = Fragment::new(&bytes);
    assert!(matches!(decode(&mut decoder, &mut fragment), DecodeOutcome::Produced(_)));
    // The first batch ends where the writer said; the rest is untouched.
    assert_eq!(fragment.to_vec(), bytes[ends[1]..].to_vec());
}

#[test]
fn empty_fragment_is_no_data() {
    let mut decoder = new_stream();
    let mut fragment = Fragment::new(&[]);
    assert!(matches!(decode(&mut decoder, &mut fragment), DecodeOutcome::NoData));
    assert!(!decoder.state.is_poisoned());
}

#[test]
fn schema_alone_is_no_data() {
    let (bytes, ends) = encode(&[sample_batch(1)]);
    let mut decoder = new_stream();
    let mut fragment = Fragment::new(&bytes[..ends[0]]);
    assert!(matches!(decode(&mut decoder, &mut fragment), DecodeOutcome::NoData));
    assert!(fragment.is_empty());
    let mut fragment = Fragment::new(&bytes[ends[0]..ends[1]]);
    match decode(&mut decoder, &mut fragment) {
        DecodeOutcome::Produced(decoded) => assert_eq!(decoded.batch, sample_batch(1)),
        _ => panic!("a batch was expected"),
    }
}

#[test]
fn fragmentation_does_not_change_the_batches() {
    let batches = vec![sample_batch(1), sample_batch(10), sample_batch(100)];
    let (bytes, _) = encode(&batches);
    let whole = decode_all(&mut new_stream(), &[&bytes]);
    assert_eq!(whole, batches);
    for size in [1usize, 3, 7, 64, 191, 192, 193, 500, 1000] {
        let pieces: Vec<&[u8]> = bytes.chunks(size).collect();
        let split = decode_all(&mut new_stream(), &pieces);
        assert_eq!(split, whole, "pieces of {} bytes", size);
    }
}

#[test]
fn truncated_batch_waits_for_the_rest() {
    let (bytes, ends) = encode(&[sample_batch(1)]);
    let cut = ends[1] - 10;
    let mut decoder = new_stream();
    let mut fragment = Fragment::new(&bytes[..cut]);
    assert!(matches!(decode(&mut decoder, &mut fragment), DecodeOutcome::NoData));
    assert!(!decoder.state.is_poisoned());
    let mut fragment = Fragment::new(&bytes[cut..]);
    match decode(&mut decoder, &mut fragment) {
        DecodeOutcome::Produced(decoded) => assert_eq!(decoded.batch, sample_batch(1)),
        _ => panic!("a batch was expected"),
    }
}

#[test]
fn corrupt_framing_poisons_the_decoder() {
    let (bytes, ends) = encode(&[sample_batch(1)]);
    // The batch message is cut inside its header and other bytes follow.
    let mut corrupt = bytes[..ends[0] + 20].to_vec();
    corrupt.extend(std::iter::repeat(0xFFu8).take(600));
    let mut decoder = new_stream();
    let mut fragment = Fragment::new(&corrupt);
    let first = error_text(decode(&mut decoder, &mut fragment));
    assert!(first.starts_with("Error decoding record: "));
    assert!(decoder.state.is_poisoned());

    // A sound stream does not bring the decoder back.
    let mut fragment = Fragment::new(&bytes);
    let second = error_text(decode(&mut decoder, &mut fragment));
    assert_eq!(second, first);
    assert_eq!(fragment.len(), bytes.len());
    let mut fragment = Fragment::new(&[]);
    assert_eq!(error_text(decode(&mut decoder, &mut fragment)), first);
    assert!(decoder.state.is_poisoned());
}

#[test]
fn batch_without_schema_is_an_error() {
    let (bytes, ends) = encode(&[sample_batch(1)]);
    let mut decoder = new_stream();
    let mut fragment = Fragment::new(&bytes[ends[0]..ends[1]]);
    let text = error_text(decode(&mut decoder, &mut fragment));
    assert_eq!(text, "Error decoding record: IpcError(\"Missing schema\")");
    assert!(decoder.state.is_poisoned());
}

#[test]
fn second_schema_is_an_error() {
    let (bytes, ends) = encode(&[sample_batch(1)]);
    let mut twice = bytes[..ends[0]].to_vec();
    twice.extend_from_slice(&bytes[..ends[1]]);
    let mut decoder = new_stream();
    let mut fragment = Fragment::new(&twice);
    let text = error_text(decode(&mut decoder, &mut fragment));
    assert_eq!(
        text,
        "Error decoding record: IpcError(\"Not expecting a schema when messages are read\")"
    );
    assert!(decoder.state.is_poisoned());
}

#[test]
fn bytes_after_the_end_of_the_stream_are_an_error() {
    let (bytes, _) = encode(&[sample_batch(1)]);
    let mut decoder = new_stream();
    assert_eq!(decode_all(&mut decoder, &[&bytes]).len(), 1);
    let mut fragment = Fragment::new(&bytes);
    let text = error_text(decode(&mut decoder, &mut fragment));
    assert_eq!(text, "Error decoding record: IpcError(\"Unexpected EOS\")");
}

#[test]
fn settle_passes_a_batch_on() {
    let mut decoder = SchemaStreamDecoder::new();
    let outcome = decoder.settle(Ok(Some(DecodedBatch { batch: sample_batch(4) })));
    match outcome {
        DecodeOutcome::Produced(decoded) => assert_eq!(decoded.batch, sample_batch(4)),
        _ => panic!("a batch was expected"),
    }
    assert!(!decoder.is_poisoned());
}

#[test]
fn settle_reports_no_data() {
    let mut decoder = SchemaStreamDecoder::new();
    assert!(matches!(decoder.settle(Ok(None)), DecodeOutcome::NoData));
    assert!(!decoder.is_poisoned());
}

#[test]
fn settle_records_the_first_error_only() {
    let mut decoder = SchemaStreamDecoder::new();
    let first = error_text(decoder.settle(Err("bad frame".to_string())));
    assert_eq!(first, "Error decoding record: bad frame");
    assert!(decoder.is_poisoned());
    assert_eq!(error_text(decoder.settle(Err("other".to_string()))), first);
    assert_eq!(error_text(decoder.settle(Ok(None))), first);
    let batch = DecodedBatch { batch: sample_batch(4) };
    assert_eq!(error_text(decoder.settle(Ok(Some(batch)))), first);
}

#[test]
fn new_decoder_has_no_error() {
    let decoder = SchemaStreamDecoder::new();
    assert!(!decoder.is_poisoned());
    assert_eq!(decoder.poison(), None);
}

#[test]
fn poison_gives_the_recorded_text() {
    let mut decoder = SchemaStreamDecoder::new();
    decoder.settle(Err("bad frame".to_string()));
    assert_eq!(decoder.poison(), Some("Error decoding record: bad frame".to_string()));
    decoder.settle(Err("other".to_string()));
    assert_eq!(decoder.poison(), Some("Error decoding record: bad frame".to_string()));
}
