use docker_client::errors::Error;
use docker_client::request::{accumulate_chunks, ResponseAccumulator};

#[test]
fn chunks_reassemble_into_the_exact_byte_sequence() {
    let chunks: Vec<Vec<u8>> = vec![b"{\"a\":".to_vec(), b"1".to_vec(), b"}".to_vec()];
    let body = accumulate_chunks(&chunks);
    assert_eq!(body, b"{\"a\":1}".to_vec());
}

#[test]
fn accumulator_reassembles_streamed_chunks_in_order() {
    let mut acc = ResponseAccumulator::begin(200).unwrap();
    acc.push_chunk(b"{\"a\":");
    acc.push_chunk(b"1");
    acc.push_chunk(b"}");
    assert_eq!(acc.finish(), b"{\"a\":1}".to_vec());
}

#[test]
fn empty_chunk_list_yields_an_empty_body() {
    let chunks: Vec<Vec<u8>> = vec![];
    assert_eq!(accumulate_chunks(&chunks), Vec::<u8>::new());
}

#[test]
fn not_found_status_rejects_the_response_before_the_body() {
    let err = match ResponseAccumulator::begin(404) {
        Err(e) => e,
        Ok(_) => panic!("a 404 response must be rejected"),
    };
    assert_eq!(err, Error::HttpStatus { status: 404 });
    assert!(err.message().contains("404"));
    assert_eq!(err.message(), "HTTP request failed: 404");
}

#[test]
fn success_statuses_admit_a_body() {
    assert!(ResponseAccumulator::begin(200).is_ok());
    assert!(ResponseAccumulator::begin(204).is_ok());
    assert!(ResponseAccumulator::begin(299).is_ok());
    assert!(ResponseAccumulator::begin(199).is_err());
    assert!(ResponseAccumulator::begin(300).is_err());
    assert!(ResponseAccumulator::begin(500).is_err());
}

#[test]
fn chunk_failure_aborts_and_discards_the_buffer() {
    let mut acc = ResponseAccumulator::begin(200).unwrap();
    acc.push_chunk(b"partial");
    let err = acc.abort(String::from("connection reset"));
    assert_eq!(
        err,
        Error::Stream {
            detail: String::from("connection reset")
        }
    );
    assert_eq!(err.message(), "connection reset");
}
