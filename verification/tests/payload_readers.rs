use web_extract::body::{collect_payload, BodyLimit};
use web_extract::config::{PayloadConfig, DEFAULT_LIMIT};
use web_extract::media::MediaType;
use web_extract::error::{BadRequest, ContentTypeError, ExtractError, PayloadError};
use web_extract::payload::{bytes_from_request, string_from_request, read_payload, Payload, ReadFailure};
use web_extract::request::RequestHead;

fn head(ct: Option<&[u8]>, cl: Option<&[u8]>) -> RequestHead {
    RequestHead {
        content_type: ct.map(|b| b.to_vec()),
        content_length: cl.map(|b| b.to_vec()),
        query: String::new(),
    }
}

fn payload(chunks: &[&[u8]]) -> Payload {
    Payload { chunks: chunks.iter().map(|c| c.to_vec()).collect(), error: None }
}

#[test]
fn test_bytes() {
    let cfg = PayloadConfig::default();
    let req = head(None, Some(b"11"));
    let body = bytes_from_request(&cfg, &req, &payload(&[b"hello=world"])).unwrap();
    assert_eq!(body, b"hello=world".to_vec());
}

#[test]
fn test_string() {
    let cfg = PayloadConfig::default();
    let req = head(None, Some(b"11"));
    let body = string_from_request(&cfg, &req, &payload(&[b"hello=world"])).unwrap();
    assert_eq!(body, "hello=world");
}

#[test]
fn test_payload_config() {
    let req = head(None, None);
    let mut cfg = PayloadConfig::default();
    cfg.mimetype(MediaType::from_mime(mime::APPLICATION_JSON));
    assert!(cfg.check_mimetype(&req).is_err());

    let req = head(Some(b"application/x-www-form-urlencoded"), None);
    assert!(cfg.check_mimetype(&req).is_err());

    let req = head(Some(b"application/json"), None);
    assert!(cfg.check_mimetype(&req).is_ok());
}

#[test]
fn mimetype_check_errors() {
    let mut cfg = PayloadConfig::default();
    cfg.mimetype(MediaType::from_mime(mime::APPLICATION_JSON));
    match cfg.check_mimetype(&head(None, None)) {
        Err(ExtractError::BadRequest(b)) => {
            assert_eq!(b, BadRequest::ContentTypeExpected);
            assert_eq!(b.message(), "Content-Type is expected");
        }
        _ => panic!("expected a bad request"),
    }
    match cfg.check_mimetype(&head(Some(b"text/plain"), None)) {
        Err(ExtractError::BadRequest(b)) => {
            assert_eq!(b, BadRequest::UnexpectedContentType);
            assert_eq!(b.message(), "Unexpected Content-Type");
        }
        _ => panic!("expected a bad request"),
    }
    match cfg.check_mimetype(&head(Some(b"???"), None)) {
        Err(ExtractError::ContentType(e)) => assert_eq!(e, ContentTypeError::ParseError),
        _ => panic!("expected a content type error"),
    }
    assert!(cfg.check_mimetype(&head(Some(b"APPLICATION/JSON"), None)).is_ok());
}

#[test]
fn default_configuration_does_not_check_mimetype() {
    let cfg = PayloadConfig::default();
    assert_eq!(cfg.get_limit(), 262_144);
    assert_eq!(DEFAULT_LIMIT, 262_144);
    for ct in [None, Some(&b"text/plain"[..]), Some(&b"\x01"[..]), Some(&b"nonsense"[..])] {
        assert!(cfg.check_mimetype(&head(ct, None)).is_ok());
    }
}

#[test]
fn payload_limit_setter() {
    let mut cfg = PayloadConfig::default();
    cfg.limit(4096).limit(10);
    assert_eq!(cfg.get_limit(), 10);
    let err = bytes_from_request(&cfg, &head(None, None), &payload(&[b"0123456", b"789", b"x"])).unwrap_err();
    assert!(matches!(err, ExtractError::Payload(PayloadError::Overflow)));
    assert_eq!(err.status(), 413);
    let ok = bytes_from_request(&cfg, &head(None, None), &payload(&[b"0123456", b"789"])).unwrap();
    assert_eq!(ok, b"0123456789".to_vec());
}

#[test]
fn declared_length_over_limit_is_refused() {
    let mut cfg = PayloadConfig::default();
    cfg.limit(5);
    let err = bytes_from_request(&cfg, &head(None, Some(b"6")), &payload(&[])).unwrap_err();
    assert!(matches!(err, ExtractError::Payload(PayloadError::Overflow)));
}

#[test]
fn malformed_length_is_unknown() {
    let cfg = PayloadConfig::default();
    let err = bytes_from_request(&cfg, &head(None, Some(b"abc")), &payload(&[b"x"])).unwrap_err();
    assert!(matches!(err, ExtractError::Payload(PayloadError::UnknownLength)));
    assert_eq!(err.status(), 400);
}

#[test]
fn stream_error_is_reported() {
    let cfg = PayloadConfig::default();
    let p = Payload { chunks: vec![b"ab".to_vec()], error: Some(PayloadError::Incomplete) };
    let err = bytes_from_request(&cfg, &head(None, None), &p).unwrap_err();
    assert!(matches!(err, ExtractError::Payload(PayloadError::Incomplete)));
}

#[test]
fn overflow_wins_over_stream_error() {
    let mut cfg = PayloadConfig::default();
    cfg.limit(1);
    let p = Payload { chunks: vec![b"ab".to_vec()], error: Some(PayloadError::Io) };
    let err = bytes_from_request(&cfg, &head(None, None), &p).unwrap_err();
    assert!(matches!(err, ExtractError::Payload(PayloadError::Overflow)));
}

#[test]
fn string_in_other_charset() {
    let cfg = PayloadConfig::default();
    let req = head(Some(b"text/plain; charset=iso-8859-2"), None);
    let s = string_from_request(&cfg, &req, &payload(&[&[0x4c, 0xb1, 0x6b, 0x61]])).unwrap();
    assert_eq!(s, "L\u{105}ka");
}

#[test]
fn string_undecodable_is_bad_request() {
    let cfg = PayloadConfig::default();
    let err = string_from_request(&cfg, &head(None, None), &payload(&[&[0xff, 0xfe]])).unwrap_err();
    match err {
        ExtractError::BadRequest(b) => assert_eq!(b.message(), "Can not decode body"),
        _ => panic!("expected a bad request"),
    }
}

#[test]
fn string_unknown_charset() {
    let cfg = PayloadConfig::default();
    let err = string_from_request(&cfg, &head(Some(b"text/plain; charset=nope"), None), &payload(&[b"x"])).unwrap_err();
    assert!(matches!(err, ExtractError::ContentType(ContentTypeError::UnknownEncoding)));
}

#[test]
fn body_limit_machine() {
    let mut b = BodyLimit::start(4, Some(4)).unwrap();
    assert!(b.push(b"ab").is_ok());
    assert!(b.push(b"cde").is_err());
    assert!(b.push(b"cd").is_ok());
    assert!(b.push(b"").is_ok());
    assert!(b.push(b"e").is_err());
    assert_eq!(b.finish(), b"abcd".to_vec());
    assert!(BodyLimit::start(4, Some(5)).is_none());
}

#[test]
fn chunking_does_not_change_the_answer() {
    let a = vec![b"hello".to_vec(), b" world".to_vec()];
    let b = vec![b"h".to_vec(), b"ello w".to_vec(), Vec::new(), b"orld".to_vec()];
    for limit in 0..14 {
        assert_eq!(collect_payload(limit, None, &a), collect_payload(limit, None, &b));
    }
    assert_eq!(collect_payload(11, None, &a), Some(b"hello world".to_vec()));
    assert_eq!(collect_payload(10, None, &a), None);
}

#[test]
fn read_payload_results() {
    let p = payload(&[b"abc"]);
    assert_eq!(read_payload(3, Some(3), &p), Ok(b"abc".to_vec()));
    assert_eq!(read_payload(2, None, &p), Err(ReadFailure::Overflow));
    let p = Payload { chunks: vec![], error: Some(PayloadError::EncodingCorrupted) };
    assert_eq!(read_payload(2, None, &p), Err(ReadFailure::Stream(PayloadError::EncodingCorrupted)));
}

#[test]
fn text_is_the_decoded_bytes() {
    let cfg = PayloadConfig::default();
    let req = head(Some(b"text/plain; charset=windows-1252"), None);
    let p = payload(&[&[0x63, 0x61, 0x66], &[0xe9]]);
    let bytes = bytes_from_request(&cfg, &req, &p).unwrap();
    let text = string_from_request(&cfg, &req, &p).unwrap();
    assert_eq!(bytes, vec![0x63, 0x61, 0x66, 0xe9]);
    assert_eq!(text, "caf\u{e9}");
    assert_eq!(req.encoding().ok().unwrap().decode(&bytes).unwrap(), text);
}

#[test]
fn mimetype_from_parsed_text() {
    let mut cfg = PayloadConfig::default();
    cfg.mimetype(MediaType::parse("Application/JSON").unwrap());
    assert!(cfg.check_mimetype(&head(Some(b"application/json"), None)).is_ok());
    assert!(cfg.check_mimetype(&head(Some(b"application/x-www-form-urlencoded"), None)).is_err());
    cfg.mimetype(MediaType::parse("text/plain").unwrap());
    assert!(cfg.check_mimetype(&head(Some(b"text/plain"), None)).is_ok());
    assert!(cfg.check_mimetype(&head(Some(b"application/json"), None)).is_err());
    assert!(MediaType::parse("no slash").is_none());
}

#[test]
fn mimetype_against_non_ascii_parameters() {
    let mut cfg = PayloadConfig::default();
    cfg.mimetype(MediaType::parse("ab/c; x=\"\u{e9}\u{e9}\"").unwrap());
    assert!(cfg.check_mimetype(&head(Some(b"text/plain; a=b"), None)).is_err());
    let mut cfg = PayloadConfig::default();
    cfg.mimetype(MediaType::parse("text/plain; a=b").unwrap());
    assert!(cfg.check_mimetype(&head(Some(b"ab/c; x=\"yy\""), None)).is_err());
}

#[test]
fn plain_content_type_reads_utf8_text() {
    let cfg = PayloadConfig::default();
    let text = "h\u{e9}llo \u{1f600}";
    for ct in [&b"text/plain"[..], b"Text/Plain", b"application/octet-stream", b"text/plain; charset=UTF-8"] {
        let len = text.len().to_string();
        let req = head(Some(ct), Some(len.as_bytes()));
        let bytes = text.as_bytes();
        let body = string_from_request(&cfg, &req, &payload(&[&bytes[..2], &bytes[2..]])).unwrap();
        assert_eq!(body, text);
    }
}
