use std::collections::BTreeMap;

use web_extract::combine::{option_from_request, result_from_request, unit_from_request, Poll, TupleRead};
use web_extract::config::{FormConfig, JsonConfig};
use web_extract::error::{ExtractError, JsonPayloadError, PayloadError, UrlencodedError};
use web_extract::form::{form_body, form_error, FormBody};
use web_extract::json::{json_body, json_response, JsonResponse, OK};
use web_extract::payload::Payload;
use web_extract::request::RequestHead;
use web_extract::wrappers::{Form, Json, Path, Query};

type Pairs = Vec<(String, String)>;

fn head(ct: Option<&[u8]>, cl: Option<&[u8]>, query: &str) -> RequestHead {
    RequestHead {
        content_type: ct.map(|b| b.to_vec()),
        content_length: cl.map(|b| b.to_vec()),
        query: query.to_string(),
    }
}

fn payload(chunks: &[&[u8]]) -> Payload {
    Payload { chunks: chunks.iter().map(|c| c.to_vec()).collect(), error: None }
}

fn pairs(items: &[(&str, &str)]) -> Pairs {
    items.iter().map(|(k, v)| (k.to_string(), v.to_string())).collect()
}

fn de_error(msg: &str) -> serde::de::value::Error {
    <serde::de::value::Error as serde::de::Error>::custom(msg)
}

#[test]
fn test_form() {
    let req = head(Some(b"application/x-www-form-urlencoded"), Some(b"11"), "");
    let mut cfg = FormConfig::default();
    cfg.limit(4096);
    let form = Form::<Pairs>::from_request(&cfg, &req, &payload(&[b"hello=world"])).unwrap();
    assert_eq!(form.into_inner(), pairs(&[("hello", "world")]));
}

/// A form with one required field, read by hand (no derive macro).
#[derive(Debug, PartialEq)]
struct Info {
    hello: String,
}

struct InfoVisitor;

impl<'de> serde::de::Visitor<'de> for InfoVisitor {
    type Value = Info;

    fn expecting(&self, f: &mut std::fmt::Formatter) -> std::fmt::Result {
        f.write_str("a map with a `hello` entry")
    }

    fn visit_map<A: serde::de::MapAccess<'de>>(self, mut map: A) -> Result<Info, A::Error> {
        let mut hello = None;
        while let Some((k, v)) = map.next_entry::<String, String>()? {
            if k == "hello" {
                hello = Some(v);
            }
        }
        match hello {
            Some(hello) => Ok(Info { hello }),
            None => Err(<A::Error as serde::de::Error>::missing_field("hello")),
        }
    }
}

impl<'de> serde::Deserialize<'de> for Info {
    fn deserialize<D: serde::Deserializer<'de>>(d: D) -> Result<Info, D::Error> {
        d.deserialize_map(InfoVisitor)
    }
}

#[test]
fn test_option() {
    let req = head(Some(b"application/x-www-form-urlencoded"), None, "");
    let mut cfg = FormConfig::default();
    cfg.limit(4096);

    let r = option_from_request(Form::<Info>::from_request(&cfg, &req, &payload(&[])));
    assert_eq!(r.unwrap(), None);

    let req = head(Some(b"application/x-www-form-urlencoded"), Some(b"9"), "");
    let r = option_from_request(Form::<Info>::from_request(&cfg, &req, &payload(&[b"hello=world"])));
    assert_eq!(r.unwrap(), Some(Form(Info { hello: "world".into() })));

    let req = head(Some(b"application/x-www-form-urlencoded"), Some(b"9"), "");
    let r = option_from_request(Form::<Info>::from_request(&cfg, &req, &payload(&[b"bye=world"])));
    assert_eq!(r.unwrap(), None);
}

#[test]
fn option_reads_a_map() {
    let req = head(Some(b"application/x-www-form-urlencoded"), Some(b"11"), "");
    let r = option_from_request(Form::<BTreeMap<String, String>>::from_request(
        &FormConfig::default(),
        &req,
        &payload(&[b"hello=world"]),
    ));
    let form = r.unwrap().unwrap();
    assert_eq!(form.0.get("hello").map(|s| s.as_str()), Some("world"));
}

#[test]
fn test_result() {
    let req = head(Some(b"application/x-www-form-urlencoded"), Some(b"11"), "");
    let r = result_from_request(Form::<Info>::from_request(&FormConfig::default(), &req, &payload(&[b"hello=world"])));
    assert_eq!(r.unwrap().unwrap(), Form(Info { hello: "world".into() }));

    let req = head(Some(b"application/x-www-form-urlencoded"), Some(b"9"), "");
    let r = result_from_request(Form::<Info>::from_request(&FormConfig::default(), &req, &payload(&[b"bye=world"])));
    assert!(r.unwrap().is_err());
}

#[test]
fn form_errors_and_statuses() {
    let cfg = FormConfig::default();
    let req = head(Some(b"application/x-www-form-urlencoded"), Some(b"x"), "");
    let e = Form::<Pairs>::from_request(&cfg, &req, &payload(&[b"a=b"])).unwrap_err();
    assert!(matches!(e, ExtractError::Urlencoded(UrlencodedError::UnknownLength)));
    assert_eq!(e.status(), 411);

    let mut small = FormConfig::default();
    small.limit(2);
    let req = head(Some(b"application/x-www-form-urlencoded"), None, "");
    let e = Form::<Pairs>::from_request(&small, &req, &payload(&[b"a=b"])).unwrap_err();
    assert!(matches!(e, ExtractError::Urlencoded(UrlencodedError::Overflow)));
    assert_eq!(e.status(), 413);

    let req = head(Some(b"application/x-www-form-urlencoded; charset=unknown-thing"), None, "");
    let e = Form::<Pairs>::from_request(&cfg, &req, &payload(&[b"a=b"])).unwrap_err();
    assert!(matches!(e, ExtractError::Urlencoded(UrlencodedError::ContentType)));
    assert_eq!(e.status(), 400);

    let p = Payload { chunks: vec![b"a".to_vec()], error: Some(PayloadError::Io) };
    let e = Form::<Pairs>::from_request(&cfg, &req_form(), &p).unwrap_err();
    assert!(matches!(e, ExtractError::Urlencoded(UrlencodedError::Payload(PayloadError::Io))));
}

fn req_form() -> RequestHead {
    head(Some(b"application/x-www-form-urlencoded"), None, "")
}

#[test]
fn form_body_in_other_charset() {
    let req = head(Some(b"application/x-www-form-urlencoded; charset=iso-8859-2"), None, "");
    let cfg = FormConfig::default();
    match form_body(&cfg, &req, &payload(&[&[0x6b, 0x3d, 0xb1]])).unwrap() {
        FormBody::Decoded(t) => assert_eq!(t, "k=\u{105}"),
        FormBody::Raw(_) => panic!("expected decoded text"),
    }
    let form = Form::<Pairs>::from_request(&cfg, &req, &payload(&[&[0x6b, 0x3d, 0xb1]])).unwrap();
    assert_eq!(form.0, pairs(&[("k", "\u{105}")]));
    match form_body(&cfg, &req_form(), &payload(&[b"a=", b"b"])).unwrap() {
        FormBody::Raw(b) => assert_eq!(b, b"a=b".to_vec()),
        FormBody::Decoded(_) => panic!("expected raw bytes"),
    }
}

#[test]
fn form_default_error_handler() {
    assert!(matches!(form_error(UrlencodedError::Parse, &req_form()), ExtractError::Urlencoded(UrlencodedError::Parse)));
    assert!(Form::<u8>::from_parsed(Err(de_error("no"))).is_err());
    assert_eq!(Form::<u8>::from_parsed(Ok(3)).unwrap().0, 3);
}

#[test]
fn json_body_reading() {
    let cfg = JsonConfig::default();
    let req = head(Some(b"application/json"), Some(b"7"), "");
    let j = Json::<Vec<u32>>::from_request(&cfg, &req, &payload(&[b"[1,", b"2,3]"])).unwrap();
    assert_eq!(j.into_inner(), vec![1, 2, 3]);

    let req = head(Some(b"application/problem+json"), None, "");
    let v = Json::<serde_json::Value>::from_request(&cfg, &req, &payload(&[b"{\"a\":1}"])).unwrap();
    assert_eq!(v.0["a"], serde_json::Value::from(1));
    assert_eq!(json_body(&cfg, &req, &payload(&[b"{}"])).unwrap(), b"{}".to_vec());
}

#[test]
fn json_errors_and_statuses() {
    let cfg = JsonConfig::default();
    let e = Json::<Vec<u32>>::from_request(&cfg, &head(Some(b"text/plain"), None, ""), &payload(&[b"[]"])).unwrap_err();
    assert!(matches!(e, ExtractError::Json(JsonPayloadError::ContentType)));
    assert_eq!(e.status(), 400);
    let e = Json::<Vec<u32>>::from_request(&cfg, &head(None, None, ""), &payload(&[b"[]"])).unwrap_err();
    assert!(matches!(e, ExtractError::Json(JsonPayloadError::ContentType)));

    let mut small = JsonConfig::default();
    small.limit(3);
    let e = Json::<Vec<u32>>::from_request(&small, &head(Some(b"application/json"), None, ""), &payload(&[b"[1,2]"])).unwrap_err();
    assert!(matches!(e, ExtractError::Json(JsonPayloadError::Overflow)));
    assert_eq!(e.status(), 413);

    // A malformed length is ignored by the JSON reader.
    let j = Json::<Vec<u32>>::from_request(&cfg, &head(Some(b"application/json"), Some(b"zz"), ""), &payload(&[b"[]"])).unwrap();
    assert!(j.0.is_empty());

    let e = Json::<Vec<u32>>::from_request(&cfg, &head(Some(b"application/json"), None, ""), &payload(&[b"[true]"])).unwrap_err();
    assert!(matches!(e, ExtractError::Json(JsonPayloadError::Deserialize(_))));
    assert_eq!(e.status(), 400);
}

#[test]
fn json_responder() {
    let resp: JsonResponse = Json(vec![1u8, 2]).respond_to().unwrap();
    assert_eq!(resp.status, OK);
    assert_eq!(resp.status, 200);
    assert_eq!(resp.content_type, "application/json");
    assert_eq!(resp.body, "[1,2]");

    let mut bad: BTreeMap<Vec<u8>, u8> = BTreeMap::new();
    bad.insert(vec![1], 2);
    let e = Json(bad).respond_to().unwrap_err();
    assert!(matches!(e, ExtractError::Serialize(_)));
    assert_eq!(e.status(), 500);

    let r = json_response(Ok("\"x\"".to_string())).unwrap();
    assert_eq!(r.body, "\"x\"");
}

#[test]
fn query_reading() {
    let req = head(None, None, "id=test");
    let q = Query::<Pairs>::from_request(&req).unwrap();
    assert_eq!(*q, pairs(&[("id", "test")]));
    assert_eq!(q.into_inner(), pairs(&[("id", "test")]));

    let req = head(None, None, "id=test");
    let e = Query::<BTreeMap<String, u32>>::from_request(&req).unwrap_err();
    assert!(matches!(e, ExtractError::Deserialize(_)));
    assert_eq!(e.status(), 400);
}

#[test]
fn path_values() {
    let p = Path::from((String::from("name"), 32u8));
    assert_eq!(p.as_ref().0, "name");
    assert_eq!((*p).1, 32);
    let mut p = p;
    p.1 = 33;
    assert_eq!(p.into_inner(), (String::from("name"), 33));

    let p = Path::from_deserialized(Ok(32i8)).unwrap();
    assert_eq!(*p, 32);
    let e = Path::<i8>::from_deserialized(Err(de_error("bad"))).unwrap_err();
    assert!(matches!(e, ExtractError::NotFound(_)));
    assert_eq!(e.status(), 404);
}

#[test]
fn wrappers_compare_like_their_values() {
    assert!(Path::from(1) < Path::from(2));
    assert!(Form(1) == Form(1));
    let mut f = Form(String::from("a"));
    f.push('b');
    assert_eq!(f.into_inner(), "ab");
    let mut j = Json(5);
    *j += 1;
    assert_eq!(*j, 6);
}

#[test]
fn optional_and_result_never_fail() {
    let r: Result<u8, ()> = Err(());
    assert_eq!(option_from_request(r).unwrap(), None);
    assert_eq!(option_from_request::<u8, ()>(Ok(4)).unwrap(), Some(4));
    assert_eq!(result_from_request::<u8, ()>(Err(())).unwrap(), Err(()));
    assert_eq!(result_from_request::<u8, ()>(Ok(1)).unwrap(), Ok(1));
}

#[test]
fn tuple_read_keeps_values_and_waits() {
    let mut t: TupleRead<u32> = TupleRead::new(3);
    // First pass: slot 0 done, slot 1 waits, slot 2 done.
    let mut round = t.start_round();
    assert_eq!(t.next_pending(&round), Some(0));
    t.record(&mut round, 0, Ok(Poll::Ready(10))).unwrap();
    assert_eq!(t.next_pending(&round), Some(1));
    t.record(&mut round, 1, Ok(Poll::NotReady)).unwrap();
    assert_eq!(t.next_pending(&round), Some(2));
    t.record(&mut round, 2, Ok(Poll::Ready(30))).unwrap();
    assert_eq!(t.next_pending(&round), None);
    assert!(t.finish_round(&round).is_none());
    // Second pass: only slot 1 is polled again.
    let mut round = t.start_round();
    assert_eq!(t.next_pending(&round), Some(1));
    t.record(&mut round, 1, Ok(Poll::Ready(20))).unwrap();
    assert_eq!(t.next_pending(&round), None);
    assert_eq!(t.finish_round(&round), Some(vec![10, 20, 30]));
}

#[test]
fn tuple_read_stops_on_failure() {
    let mut t: TupleRead<u32> = TupleRead::new(2);
    let mut round = t.start_round();
    let i = t.next_pending(&round).unwrap();
    let e = t.record(&mut round, i, Err(ExtractError::Payload(PayloadError::Overflow))).unwrap_err();
    assert_eq!(e.status(), 413);
}

#[test]
fn empty_tuple_is_ready_at_once() {
    let mut t: TupleRead<u32> = TupleRead::new(0);
    let round = t.start_round();
    assert_eq!(t.next_pending(&round), None);
    assert_eq!(t.finish_round(&round), Some(vec![]));
}

#[test]
fn form_custom_error_handler() {
    let req = head(Some(b"text/plain"), None, "");
    let handler = |e: UrlencodedError, _h: &RequestHead| match e {
        UrlencodedError::ContentType => ExtractError::Payload(PayloadError::Io),
        other => ExtractError::Urlencoded(other),
    };
    let e = Form::<Pairs>::from_request_with(&FormConfig::default(), &req, &payload(&[b"a=b"]), handler).unwrap_err();
    assert!(matches!(e, ExtractError::Payload(PayloadError::Io)));
}

#[test]
fn json_custom_error_handler() {
    let mut small = JsonConfig::default();
    small.limit(1);
    let handler = |_e: JsonPayloadError, _h: &RequestHead| ExtractError::Payload(PayloadError::Incomplete);
    let e = Json::<Vec<u8>>::from_request_with(&small, &head(Some(b"application/json"), None, ""), &payload(&[b"[]"]), handler)
        .unwrap_err();
    assert!(matches!(e, ExtractError::Payload(PayloadError::Incomplete)));
}

#[test]
fn remaining_error_variants() {
    let p = Payload { chunks: vec![b"[1".to_vec()], error: Some(PayloadError::Http2Payload) };
    let e = Json::<Vec<u8>>::from_request(&JsonConfig::default(), &head(Some(b"application/json"), None, ""), &p).unwrap_err();
    assert!(matches!(e, ExtractError::Json(JsonPayloadError::Payload(PayloadError::Http2Payload))));
    assert_eq!(e.status(), 400);
    assert_eq!(ExtractError::Urlencoded(UrlencodedError::Chunked).status(), 400);
    assert_eq!(ExtractError::Urlencoded(UrlencodedError::Payload(PayloadError::Overflow)).status(), 400);
    assert_eq!(ExtractError::Payload(PayloadError::Http2Payload).status(), 400);
    assert_eq!(ExtractError::ContentType(web_extract::error::ContentTypeError::UnknownEncoding).status(), 400);
}

#[test]
fn form_parse_failure_is_parse_error() {
    let e = Form::<(String,)>::from_request(&FormConfig::default(), &req_form(), &payload(&[b"a=1&b=2"])).unwrap_err();
    assert!(matches!(e, ExtractError::Urlencoded(UrlencodedError::Parse)));
    assert_eq!(e.status(), 400);
}

#[test]
fn json_handler_answers_conflict() {
    let mut cfg = JsonConfig::default();
    cfg.limit(4096);
    let big = format!("[{}0]", "0,".repeat(2500));
    let handler = |_e: JsonPayloadError, _h: &RequestHead| ExtractError::Status(409);
    let e = Json::<Vec<u8>>::from_request_with(&cfg, &head(Some(b"application/json"), None, ""), &payload(&[big.as_bytes()]), handler)
        .unwrap_err();
    assert_eq!(e.status(), 409);
}

#[test]
fn unit_reads_nothing() {
    assert!(unit_from_request().is_ok());
}

#[test]
fn json_media_types_by_subtype_or_suffix() {
    let cfg = JsonConfig::default();
    for ct in [&b"application/json"[..], b"Application/JSON", b"text/json", b"application/x+json", b"application/json+x", b"application/json; charset=utf-8"] {
        let j = Json::<Vec<u32>>::from_request(&cfg, &head(Some(ct), None, ""), &payload(&[b"[4]"])).unwrap();
        assert_eq!(j.0, vec![4]);
    }
    for ct in [&b"application/jsonx"[..], b"json/plain", b"application/x-json"] {
        let e = Json::<Vec<u32>>::from_request(&cfg, &head(Some(ct), None, ""), &payload(&[b"[4]"])).unwrap_err();
        assert!(matches!(e, ExtractError::Json(JsonPayloadError::ContentType)));
    }
}
