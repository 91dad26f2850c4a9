use regex_oracle::evaluate::{
    judge_compiled, process_request, PatTestErr, UntrustedInput, INPUT_PREFIX, PATTERN_PREFIX,
};
use regex_oracle::reader::{absorb, INPUT_LIMIT};
use regex_oracle::response::{respond, PatternTestResult};

fn request(pattern: &str, text: &str) -> UntrustedInput {
    UntrustedInput { pattern: pattern.to_string(), text: text.to_string() }
}

fn answer(parsed: Result<UntrustedInput, String>) -> PatternTestResult {
    match respond(process_request(parsed)) {
        Ok(r) => r,
        Err(e) => panic!("a decoded request was not answered: {e}"),
    }
}

fn json_diag(bytes: &[u8]) -> String {
    match serde_json::from_slice::<serde_json::Value>(bytes) {
        Ok(_) => panic!("the bytes decoded"),
        Err(e) => e.to_string(),
    }
}

#[test]
fn matching_pattern_is_reported() {
    let r = answer(Ok(request("a+", "baaab")));
    assert!(r.is_match);
    assert_eq!(r.error, "");
}

#[test]
fn non_matching_pattern_is_reported() {
    let r = answer(Ok(request("a+", "bbb")));
    assert!(!r.is_match);
    assert_eq!(r.error, "");
}

#[test]
fn match_is_searched_anywhere_in_the_text() {
    assert!(answer(Ok(request("^b.*b$", "baaab"))).is_match);
    assert!(!answer(Ok(request("^a", "baaab"))).is_match);
    assert!(answer(Ok(request("", ""))).is_match);
}

#[test]
fn to_result_gives_the_match_outcome() {
    assert!(matches!(request("a+", "baaab").to_result(), Ok(true)));
    assert!(matches!(request("x{2}", "x").to_result(), Ok(false)));
}

#[test]
fn invalid_pattern_is_reported_as_data() {
    let r = answer(Ok(request("[", "x")));
    assert!(!r.is_match);
    assert!(r.error.starts_with("invalid regular expression: "));
    assert!(r.error.len() > "invalid regular expression: ".len());
}

#[test]
fn invalid_pattern_carries_the_engine_diagnostic() {
    let diag = regex::Regex::new("(a").unwrap_err().to_string();
    match request("(a", "a").to_result() {
        Err(PatTestErr::InvalidPattern(m)) => {
            assert_eq!(m, format!("invalid regular expression: {diag}"))
        }
        _ => panic!("the pattern was accepted"),
    }
}

#[test]
fn judge_compiled_maps_each_engine_outcome() {
    assert!(matches!(judge_compiled(Ok(true)), Ok(true)));
    assert!(matches!(judge_compiled(Ok(false)), Ok(false)));
    match judge_compiled(Err("bad".to_string())) {
        Err(PatTestErr::InvalidPattern(m)) => assert_eq!(m, "invalid regular expression: bad"),
        _ => panic!("the error was not kept"),
    }
}

#[test]
fn non_json_input_is_reported_as_data() {
    let diag = json_diag(b"not json");
    let r = answer(Err(diag.clone()));
    assert!(!r.is_match);
    assert_eq!(r.error, format!("unable to parse the input json: {diag}"));
}

#[test]
fn decode_diagnostics_are_kept() {
    for diag in ["missing field `text` at line 1 column 15", "invalid type: integer `3`, expected a string", ""] {
        match process_request(Err(diag.to_string())) {
            Err(PatTestErr::InvalidInput(m)) => assert_eq!(m, format!("{INPUT_PREFIX}{diag}")),
            _ => panic!("the decode failure was not kept"),
        }
        let r = answer(Err(diag.to_string()));
        assert!(!r.is_match);
        assert!(!r.error.is_empty());
    }
}

#[test]
fn prefixes_are_distinct() {
    assert_eq!(INPUT_PREFIX, "unable to parse the input json: ");
    assert_eq!(PATTERN_PREFIX, "invalid regular expression: ");
}

#[test]
fn io_failure_gets_no_reply() {
    let e = std::io::Error::new(std::io::ErrorKind::UnexpectedEof, "stream closed");
    match respond(Err(PatTestErr::IoError(e))) {
        Err(e) => assert_eq!(e.kind(), std::io::ErrorKind::UnexpectedEof),
        Ok(_) => panic!("a transport failure got a reply"),
    }
}

#[test]
fn same_request_gets_the_same_reply() {
    for (p, t) in [("a+", "baaab"), ("[", "x"), ("(?i)AB", "xaby")] {
        let a = answer(Ok(request(p, t)));
        let b = answer(Ok(request(p, t)));
        assert_eq!(a.is_match, b.is_match);
        assert_eq!(a.error, b.error);
    }
}

#[test]
fn input_of_exactly_the_limit_is_kept_whole() {
    let mut buf: Vec<u8> = Vec::new();
    let data = vec![b'x'; INPUT_LIMIT];
    let more = absorb(&mut buf, &data);
    assert_eq!(buf.len(), INPUT_LIMIT);
    assert!(!more);
    assert_eq!(buf, data);
}

#[test]
fn input_over_the_limit_is_truncated() {
    let mut buf: Vec<u8> = Vec::new();
    let mut data = vec![b'a'; INPUT_LIMIT];
    data.push(b'z');
    let more = absorb(&mut buf, &data);
    assert!(!more);
    assert_eq!(buf.len(), INPUT_LIMIT);
    assert_eq!(buf[..], data[..INPUT_LIMIT]);
}

#[test]
fn chunks_accumulate_up_to_the_limit() {
    let mut buf: Vec<u8> = Vec::new();
    assert!(absorb(&mut buf, b"{\"pat"));
    assert!(absorb(&mut buf, b"tern\""));
    assert_eq!(buf, b"{\"pattern\"".to_vec());
    let big = vec![b' '; INPUT_LIMIT];
    assert!(!absorb(&mut buf, &big));
    assert_eq!(buf.len(), INPUT_LIMIT);
    assert_eq!(&buf[..10], b"{\"pattern\"");
}

#[test]
fn empty_chunk_ends_the_read() {
    let mut buf: Vec<u8> = b"abc".to_vec();
    assert!(!absorb(&mut buf, b""));
    assert_eq!(buf, b"abc".to_vec());
}

#[test]
fn truncated_document_still_gets_a_reply() {
    let mut buf: Vec<u8> = Vec::new();
    let mut doc = b"{\"pattern\":\"a\",\"text\":\"".to_vec();
    doc.extend(vec![b'a'; INPUT_LIMIT]);
    doc.extend(b"\"}");
    absorb(&mut buf, &doc);
    let diag = json_diag(&buf);
    let r = answer(Err(diag));
    assert!(!r.is_match);
    assert!(r.error.starts_with("unable to parse the input json: "));
}
