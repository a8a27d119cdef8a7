use little_walk_api_gateway::account::{
    ExistsUserResp, LoginByPasswordParams, SignupParams, VerifyCodeResp, VerifyTokenResp,
};
use little_walk_api_gateway::auth::{AuthMW, AuthStep};
use little_walk_api_gateway::config::Config;
use little_walk_api_gateway::entities::{
    Breed, Dog, DogCreateIncome, Timestamp, UpdateDogPortraitReq, UpstreamWalkRequest,
};
use little_walk_api_gateway::error::Error;
use little_walk_api_gateway::headers::{vec_eq, Headers};
use little_walk_api_gateway::pass_through::{
    decimal_bytes, pass_through, RequestBodyProcessor, ResponseProcessor,
};
use little_walk_api_gateway::request::{forward_method, Method, RequestContext};
use little_walk_api_gateway::restful::{extract_user_id, header_text, is_success, parse_url, request, Reply};
use little_walk_api_gateway::service::{DogCall, Service};
use little_walk_api_gateway::stream::{stream_to_bytes, Collector};
use little_walk_api_gateway::uploads::UPLOAD_SIZE_LIMIT;
use little_walk_api_gateway::entities::{DogQuery, Pagination};
use little_walk_api_gateway::query::{int_text, join_ids};
use utoipa::openapi::path::{OperationBuilder, ParameterBuilder, ParameterIn, PathItemType};
use utoipa::openapi::{Info, OpenApiBuilder, PathItem, PathsBuilder, Response};

fn err(status: u16, cause: &str) -> Error {
    Error::new(status, cause.to_string())
}

fn ts(secs: i64) -> Timestamp {
    Timestamp { secs, nanos: 0 }
}

fn dog(id: &str) -> Dog {
    Dog {
        id: id.to_string(),
        name: format!("dog {}", id),
        gender: "female".to_string(),
        breed: Breed {
            id: "b1".to_string(),
            category: "terrier".to_string(),
            name: "jack russell".to_string(),
            created_at: ts(1),
            updated_at: ts(2),
        },
        birthday: ts(3),
        is_sterilized: false,
        introduction: String::new(),
        owner_id: "u1".to_string(),
        tags: vec![],
        portrait_id: None,
        created_at: ts(4),
        updated_at: ts(5),
    }
}

fn walk(id: &str, dog_ids: &[&str], geo: u32) -> UpstreamWalkRequest<u32> {
    UpstreamWalkRequest {
        id: id.to_string(),
        dog_ids: dog_ids.iter().map(|d| d.to_string()).collect(),
        geo,
        canceled_at: None,
        accepted_by: None,
        accepted_at: None,
        started_at: None,
        finished_at: None,
        status: "waiting".to_string(),
        created_at: Some(ts(10)),
        updated_at: None,
    }
}

fn headers(pairs: &[(&str, &[u8])]) -> Headers {
    let mut h = Headers::new();
    for (n, v) in pairs {
        h.append(n, v.to_vec());
    }
    h
}

fn context(method: Method, path: &str, query: &str, hs: Headers, body: &[u8]) -> RequestContext {
    RequestContext {
        method,
        path: path.to_string(),
        query: query.to_string(),
        headers: hs,
        body: body.to_vec(),
    }
}

fn values(h: &Headers, name: &str) -> Vec<Vec<u8>> {
    let key = name.to_ascii_lowercase().into_bytes();
    h.entries().iter().filter(|(k, _)| *k == key).map(|(_, v)| v.clone()).collect()
}

#[test]
fn generate_api_doc() {
    let operation = OperationBuilder::new()
        .response("200", Response::new("successfully login"))
        .response("403", Response::new("failed to login"))
        .parameter(
            ParameterBuilder::new()
                .name("phone")
                .parameter_in(ParameterIn::Query)
                .description(Some("phone number")),
        )
        .parameter(
            ParameterBuilder::new()
                .name("code")
                .parameter_in(ParameterIn::Query)
                .description(Some("verification code")),
        );
    let doc = OpenApiBuilder::new()
        .info(Info::new("little-walk-api-gateway", "0.1.0"))
        .paths(PathsBuilder::new().path(
            "/login/by_sms_verification_code",
            PathItem::new(PathItemType::Put, operation),
        ))
        .build()
        .to_pretty_json()
        .unwrap();
    println!("{}", doc);
    assert!(doc.contains("/login/by_sms_verification_code"));
}

#[test]
fn error_keeps_status_and_cause() {
    let e = Error::new(418, String::from("teapot"));
    assert_eq!(e.status_code, 418);
    assert_eq!(e.cause, "teapot");
    let w = Error::wrap(500, "connection refused");
    assert_eq!(w.status_code, 500);
    assert_eq!(w.cause, "connection refused");
}

#[test]
fn stream_concatenates_chunks() {
    let items = vec![Ok(b"ab".to_vec()), Ok(Vec::new()), Ok(b"cde".to_vec())];
    assert_eq!(stream_to_bytes(items).unwrap(), b"abcde".to_vec());
    assert_eq!(stream_to_bytes(vec![]).unwrap(), Vec::<u8>::new());
}

#[test]
fn stream_stops_at_first_error() {
    let items = vec![
        Ok(b"ab".to_vec()),
        Err(err(500, "first")),
        Ok(b"cd".to_vec()),
        Err(err(502, "second")),
    ];
    let e = stream_to_bytes(items).unwrap_err();
    assert_eq!((e.status_code, e.cause.as_str()), (500, "first"));
}

#[test]
fn collector_is_terminal_after_error() {
    let mut c = Collector::new();
    c.push(Ok(b"x".to_vec()));
    assert!(!c.is_closed());
    c.push(Err(err(500, "broken")));
    assert!(c.is_closed());
    c.push(Ok(b"y".to_vec()));
    assert_eq!(c.finish().unwrap_err().cause, "broken");
}

#[test]
fn headers_match_names_without_case() {
    let h = headers(&[("X-Auth-Token", b"t1"), ("x-auth-token", b"t2"), ("Accept", b"*/*")]);
    assert_eq!(h.get("x-AUTH-token"), Some(&b"t1".to_vec()));
    assert_eq!(h.get("accept"), Some(&b"*/*".to_vec()));
    assert_eq!(h.get("missing"), None);
    assert_eq!(values(&h, "x-auth-token").len(), 2);
}

#[test]
fn headers_insert_replaces_every_value() {
    let mut h = headers(&[("X-User-ID", b"a"), ("Accept", b"*/*"), ("x-user-id", b"b")]);
    h.insert("X-User-Id", b"c".to_vec());
    assert_eq!(values(&h, "x-user-id"), vec![b"c".to_vec()]);
    assert_eq!(values(&h, "accept"), vec![b"*/*".to_vec()]);
}

#[test]
fn header_text_rules() {
    assert_eq!(header_text(&b"abc 1\t".to_vec()), Some("abc 1\t".to_string()));
    assert_eq!(header_text(&vec![0x61, 0x01]), None);
    assert_eq!(header_text(&vec![0xc3, 0xa9]), None);
    assert!(vec_eq(&b"ab".to_vec(), &b"ab".to_vec()));
    assert!(!vec_eq(&b"ab".to_vec(), &b"abc".to_vec()));
}

#[test]
fn methods_outside_the_forwarded_set_are_405() {
    for m in [
        Method::Get,
        Method::Post,
        Method::Put,
        Method::Delete,
        Method::Head,
        Method::Patch,
        Method::Options,
        Method::Trace,
    ] {
        assert_eq!(forward_method(m).unwrap(), m);
    }
    for m in [Method::Connect, Method::Other] {
        let e = forward_method(m).unwrap_err();
        assert_eq!((e.status_code, e.cause.as_str()), (405, "unsupported method"));
    }
}

#[test]
fn parse_url_builds_backend_urls() {
    assert_eq!(
        parse_url("localhost:8080", "/apis/dogs", Some("a=1&b=2")).unwrap(),
        "http://localhost:8080/apis/dogs?a=1&b=2"
    );
    assert_eq!(parse_url("dog:80", "/breeds", None).unwrap(), "http://dog/breeds");
    let e = parse_url("localhost:99999", "/x", None).unwrap_err();
    assert_eq!(e.status_code, 500);
}

#[test]
fn backend_replies_map_to_bodies_or_errors() {
    assert!(is_success(200) && is_success(204) && !is_success(301) && !is_success(404));
    let e = request(Reply::Unreachable("timed out".to_string())).unwrap_err();
    assert_eq!((e.status_code, e.cause.as_str()), (500, "timed out"));
    let e = request(Reply::Rejected(404, Ok("no such dog".to_string()))).unwrap_err();
    assert_eq!((e.status_code, e.cause.as_str()), (404, "no such dog"));
    let e = request(Reply::Rejected(401, Err("bad body".to_string()))).unwrap_err();
    assert_eq!((e.status_code, e.cause.as_str()), (500, "bad body"));
    let body = request(Reply::Accepted(vec![Ok(b"[1,".to_vec()), Ok(b"2]".to_vec())])).unwrap();
    assert_eq!(body, b"[1,2]".to_vec());
}

#[test]
fn pass_through_keeps_query_byte_for_byte() {
    let h = pass_through(
        "backend:9000",
        None,
        RequestBodyProcessor::Identity,
        ResponseProcessor::Identity,
    );
    let req = context(Method::Get, "/apis/dogs", "a=1&b=2", Headers::new(), b"");
    let out = h.prepare(req).unwrap();
    assert_eq!(out.method, Method::Get);
    assert_eq!(out.url, "http://backend:9000/apis/dogs?a=1&b=2");
    assert!(out.url.ends_with("?a=1&b=2"));
}

#[test]
fn pass_through_omits_empty_query_and_uses_fixed_path() {
    let h = pass_through(
        "backend:9000",
        Some("/fixed"),
        RequestBodyProcessor::Identity,
        ResponseProcessor::Identity,
    );
    let req = context(Method::Post, "/apis/dogs", "", Headers::new(), b"{}");
    let out = h.prepare(req).unwrap();
    assert_eq!(out.url, "http://backend:9000/fixed");
    assert!(!out.url.contains('?'));
    assert_eq!(out.body, b"{}".to_vec());
}

#[test]
fn pass_through_copies_headers_and_sizes_body() {
    let h = pass_through("b:1", None, RequestBodyProcessor::Identity, ResponseProcessor::Identity);
    let hs = headers(&[("Accept", b"*/*"), ("Content-Length", b"999"), ("X-Trace", b"t")]);
    let mut out = h.prepare(context(Method::Put, "/p", "", hs, b"hello")).unwrap();
    assert_eq!(values(&out.headers, "content-length"), vec![b"5".to_vec()]);
    assert_eq!(values(&out.headers, "accept"), vec![b"*/*".to_vec()]);
    assert_eq!(values(&out.headers, "x-trace"), vec![b"t".to_vec()]);
    out.set_body(vec![b'x'; 1234]);
    assert_eq!(values(&out.headers, "content-length"), vec![b"1234".to_vec()]);
    assert_eq!(out.body.len(), 1234);
    assert_eq!(decimal_bytes(0), b"0".to_vec());
    assert_eq!(decimal_bytes(1048576), b"1048576".to_vec());
}

#[test]
fn pass_through_refuses_other_methods_and_bad_backends() {
    let h = pass_through("b:1", None, RequestBodyProcessor::Identity, ResponseProcessor::Identity);
    let e = h.prepare(context(Method::Connect, "/p", "", Headers::new(), b"")).unwrap_err();
    assert_eq!(e.status_code, 405);
    let bad = pass_through("b:99999", None, RequestBodyProcessor::Identity, ResponseProcessor::Identity);
    let e = bad.prepare(context(Method::Get, "/p", "", Headers::new(), b"")).unwrap_err();
    assert_eq!(e.status_code, 400);
    let e = bad.prepare(context(Method::Other, "/p", "", Headers::new(), b"")).unwrap_err();
    assert_eq!(e.status_code, 405);
}

#[test]
fn pass_through_relays_with_200_and_json() {
    let h = pass_through("b:1", None, RequestBodyProcessor::Identity, ResponseProcessor::Identity);
    let r = h.relay(b"[]".to_vec());
    assert_eq!(r.status, 200);
    assert_eq!(r.content_type, "application/json");
    assert_eq!(r.body, b"[]".to_vec());
}

#[test]
fn same_breeds_query_twice_gives_identical_responses() {
    let svc = Service::new();
    let h = pass_through(
        "dog:8000",
        None,
        svc.no_op_request_body_processor(),
        svc.no_op_processor(),
    );
    let mut answers = Vec::new();
    for _ in 0..2 {
        let hs = headers(&[("X-Auth-Token", b"tok")]);
        let out = h
            .prepare(context(Method::Get, "/apis/dogs/breeds", "category_eq=X", hs, b""))
            .unwrap();
        let reply = Reply::Accepted(vec![Ok(b"[{\"id\":\"b1\"}]".to_vec())]);
        let body = request(reply).unwrap();
        let resp = h.relay(body);
        answers.push((out.method, out.url, out.headers.entries().clone(), resp.status, resp.body));
    }
    assert_eq!(answers[0], answers[1]);
    assert_eq!(answers[0].1, "http://dog:8000/apis/dogs/breeds?category_eq=X");
}

#[test]
fn missing_token_is_401_without_verification() {
    let mw = AuthMW::new("auth:80".to_string()).new_transform();
    let req = context(Method::Get, "/apis/dogs", "", Headers::new(), b"");
    match mw.call(&req) {
        AuthStep::Reject(e) => {
            assert_eq!((e.status_code, e.cause.as_str()), (401, "auth token not exists"))
        }
        AuthStep::Verify(_) => panic!("a request without a token was sent on"),
    }
}

#[test]
fn unreadable_token_is_401() {
    let mw = AuthMW::new("auth:80".to_string()).new_transform();
    let req = context(Method::Get, "/", "", headers(&[("X-Auth-Token", &[0x74, 0x7f])]), b"");
    assert!(matches!(mw.call(&req), AuthStep::Reject(e) if e.status_code == 401));
}

#[test]
fn readable_token_goes_to_verification() {
    let mw = AuthMW::new("auth:80".to_string()).new_transform();
    let req = context(Method::Get, "/", "", headers(&[("x-auth-token", b"abc.def")]), b"");
    match mw.call(&req) {
        AuthStep::Verify(t) => assert_eq!(t, "abc.def"),
        AuthStep::Reject(_) => panic!("token refused"),
    }
    assert_eq!(
        mw.verification_url("abc.def").unwrap(),
        "http://auth/tokens/abc.def/verification"
    );
}

#[test]
fn identity_overrides_client_user_id() {
    let mw = AuthMW::new("auth:80".to_string()).new_transform();
    let hs = headers(&[("X-Auth-Token", b"tok"), ("X-User-ID", b"intruder"), ("x-user-id", b"x2")]);
    let mut req = context(Method::Put, "/apis/dogs/d1", "q=1", hs, b"{}");
    mw.verified(&mut req, Ok("user-42".to_string())).unwrap();
    assert_eq!(values(&req.headers, "x-user-id"), vec![b"user-42".to_vec()]);
    assert_eq!(values(&req.headers, "x-auth-token"), vec![b"tok".to_vec()]);
    assert_eq!(extract_user_id(&req.headers).unwrap(), "user-42");
    assert_eq!((req.path.as_str(), req.query.as_str()), ("/apis/dogs/d1", "q=1"));
}

#[test]
fn failed_verification_keeps_its_error() {
    let mw = AuthMW::new("auth:80".to_string()).new_transform();
    let hs = headers(&[("X-User-ID", b"intruder")]);
    let mut req = context(Method::Get, "/", "", hs, b"");
    let e = mw.verified(&mut req, Err(err(401, "token expired"))).unwrap_err();
    assert_eq!((e.status_code, e.cause.as_str()), (401, "token expired"));
    let e = mw.verified(&mut req, Err(err(500, "network failure"))).unwrap_err();
    assert_eq!(e.status_code, 500);
    assert_eq!(values(&req.headers, "x-user-id"), vec![b"intruder".to_vec()]);
    let e = mw.verified(&mut req, Ok("bad\nid".to_string())).unwrap_err();
    assert_eq!(e.status_code, 500);
}

#[test]
fn extract_user_id_needs_the_header() {
    let e = extract_user_id(&Headers::new()).unwrap_err();
    assert_eq!((e.status_code, e.cause.as_str()), (401, "no user id"));
    let e = extract_user_id(&headers(&[("X-User-ID", &[0x01])])).unwrap_err();
    assert_eq!(e.status_code, 401);
}

#[test]
fn aggregation_keeps_primary_order() {
    let svc = Service::new();
    let results = vec![
        (walk("R1", &["d1"], 1), Ok(vec![dog("d1")])),
        (walk("R2", &["d2", "d3"], 2), Ok(vec![dog("d3"), dog("d2")])),
        (walk("R3", &[], 3), Ok(vec![])),
    ];
    let ws = svc.nearby_requests(results).unwrap();
    let ids: Vec<&str> = ws.iter().map(|w| w.id.as_str()).collect();
    assert_eq!(ids, vec!["R1", "R2", "R3"]);
    assert_eq!(ws.iter().map(|w| w.geo).collect::<Vec<_>>(), vec![1, 2, 3]);
    assert_eq!(ws[0].dogs.iter().map(|d| d.id.as_str()).collect::<Vec<_>>(), vec!["d1"]);
    let mut w2: Vec<&str> = ws[1].dogs.iter().map(|d| d.id.as_str()).collect();
    w2.sort();
    assert_eq!(w2, vec!["d2", "d3"]);
    assert!(ws[2].dogs.is_empty());
    assert_eq!(ws[0].status, "waiting");
    assert_eq!(ws[0].created_at, Some(ts(10)));
}

#[test]
fn aggregation_fails_fast_on_a_failed_lookup() {
    let svc = Service::new();
    let results = vec![
        (walk("R1", &["d1"], 1), Ok(vec![dog("d1")])),
        (walk("R2", &["d2", "d3"], 2), Err(err(503, "dog service down"))),
        (walk("R3", &[], 3), Ok(vec![])),
    ];
    let e = svc.nearby_requests(results).unwrap_err();
    assert_eq!((e.status_code, e.cause.as_str()), (503, "dog service down"));
}

#[test]
fn aggregation_refuses_unresolved_dogs() {
    let svc = Service::new();
    let results = vec![(walk("R1", &["d1", "d2"], 1), Ok(vec![dog("d1")]))];
    let e = svc.nearby_requests(results).unwrap_err();
    assert_eq!((e.status_code, e.cause.as_str()), (500, "dogs do not match the dog ids"));
    let results = vec![(walk("R1", &["d1"], 1), Ok(vec![dog("d9")]))];
    assert_eq!(svc.nearby_requests(results).unwrap_err().status_code, 500);
    let empty: Vec<(UpstreamWalkRequest<u32>, Result<Vec<Dog>, Error>)> = vec![];
    assert!(svc.nearby_requests(empty).unwrap().is_empty());
}

#[test]
fn fill_dogs_joins_one_record() {
    let svc = Service::new();
    let w = svc.fill_dogs(walk("R9", &["d4"], 7), Ok(vec![dog("d4")])).unwrap();
    assert_eq!((w.id.as_str(), w.dogs.len(), w.geo), ("R9", 1, 7));
    assert_eq!(w.dogs[0].id, "d4");
    let e = svc.fill_dogs(walk("R9", &["d4"], 7), Err(err(404, "gone"))).unwrap_err();
    assert_eq!((e.status_code, e.cause.as_str()), (404, "gone"));
    let q = svc.dog_query(&walk("R2", &["d2", "d3"], 0));
    assert_eq!(q.id_in, Some(vec!["d2".to_string(), "d3".to_string()]));
    assert!(q.id.is_none() && q.owner_id.is_none() && q.pagination.is_none());
}

#[test]
fn non_owner_update_is_403_without_update_call() {
    let svc = Service::new();
    let e = svc.update_dog("d1".to_string(), b"{}".to_vec(), Ok(false)).unwrap_err();
    assert_eq!((e.status_code, e.cause.as_str()), (403, "no permission"));
    match svc.update_dog("d1".to_string(), b"{\"n\":1}".to_vec(), Ok(true)).unwrap() {
        DogCall::Update { dog_id, body } => {
            assert_eq!(dog_id, "d1");
            assert_eq!(body, b"{\"n\":1}".to_vec());
        }
        DogCall::Portrait { .. } => panic!("wrong call"),
    }
    let e = svc.update_dog("d1".to_string(), vec![], Err(err(500, "down"))).unwrap_err();
    assert_eq!((e.status_code, e.cause.as_str()), (500, "down"));
    let q = svc.ownership_query("u1", "d1");
    assert_eq!((q.id.as_deref(), q.owner_id.as_deref()), (Some("d1"), Some("u1")));
}

#[test]
fn portrait_change_needs_ownership() {
    let svc = Service::new();
    let req = || UpdateDogPortraitReq { portrait_id: "pic-a".to_string() };
    assert_eq!(svc.update_dog_portrait("d1".to_string(), req(), Ok(false)).unwrap_err().status_code, 403);
    match svc.update_dog_portrait("d1".to_string(), req(), Ok(true)).unwrap() {
        DogCall::Portrait { dog_id, update } => {
            assert_eq!((dog_id.as_str(), update.portrait_id.as_str()), ("d1", "pic-a"))
        }
        DogCall::Update { .. } => panic!("wrong call"),
    }
}

#[test]
fn create_dog_adds_the_owner() {
    let svc = Service::new();
    let income = || DogCreateIncome {
        name: "rex".to_string(),
        gender: "male".to_string(),
        breed: 17u32,
        birthday: ts(99),
        tags: vec!["calm".to_string()],
        portrait_id: None,
    };
    let hs = headers(&[("X-User-ID", b"u5")]);
    let d = svc.create_dog(Ok(income()), &hs).unwrap();
    assert_eq!((d.owner_id.as_str(), d.name.as_str(), d.breed), ("u5", "rex", 17));
    assert_eq!(d.tags, vec!["calm".to_string()]);
    let e = svc.create_dog(Ok(income()), &Headers::new()).unwrap_err();
    assert_eq!(e.status_code, 401);
    let e = svc.create_dog::<u32>(Err("expected value".to_string()), &hs).unwrap_err();
    assert_eq!((e.status_code, e.cause.as_str()), (400, "expected value"));
}

#[test]
fn processors_are_named_by_the_service() {
    let svc = Service::new();
    assert_eq!(svc.no_op_processor(), ResponseProcessor::Identity);
    assert_eq!(svc.fill_dogs_processor(), ResponseProcessor::FillDogs);
    assert_eq!(svc.no_op_request_body_processor(), RequestBodyProcessor::Identity);
    assert_eq!(svc.create_dog_request_body_processor(), RequestBodyProcessor::CreateDog);
}

#[test]
fn upload_call_reads_identity_and_type() {
    let svc = Service::new();
    let ok = headers(&[("X-User-ID", b"u1"), ("Content-Type", b"image/png")]);
    let call = svc.upload_call(&ok).unwrap();
    assert_eq!((call.user_id.as_str(), call.content_type.as_str()), ("u1", "image/png"));
    assert_eq!(call.size_limit, 1024 * 1024);
    assert_eq!(UPLOAD_SIZE_LIMIT, 1048576);
    let e = svc.upload_call(&headers(&[("Content-Type", b"image/png")])).unwrap_err();
    assert_eq!((e.status_code, e.cause.as_str()), (403, "no X-User-ID"));
    let e = svc.upload_call(&headers(&[("X-User-ID", b"u1")])).unwrap_err();
    assert_eq!((e.status_code, e.cause.as_str()), (400, "Content-Type header is required"));
    let e = svc.upload_call(&headers(&[("X-User-ID", &[0x02])])).unwrap_err();
    assert_eq!(e.status_code, 400);
    let e = svc.upload_call(&headers(&[("X-User-ID", b"u1"), ("Content-Type", &[0x7f])])).unwrap_err();
    assert_eq!(e.status_code, 500);
}

#[test]
fn add_dog_owner_needs_identity() {
    let svc = Service::new();
    assert_eq!(svc.add_dog_owner(&headers(&[("X-User-ID", b"u3")])).unwrap(), "u3");
    let e = svc.add_dog_owner(&Headers::new()).unwrap_err();
    assert_eq!((e.status_code, e.cause.as_str()), (401, "no X-User-ID"));
    assert_eq!(svc.add_dog_owner(&headers(&[("X-User-ID", &[0x00])])).unwrap_err().status_code, 400);
}

#[test]
fn account_checks_and_calls() {
    let svc = Service::new();
    assert!(svc.check_user_exists(Ok(ExistsUserResp { exists: true })).is_ok());
    let e = svc.check_user_exists(Ok(ExistsUserResp { exists: false })).unwrap_err();
    assert_eq!((e.status_code, e.cause.as_str()), (404, "user not exists"));
    let e = svc.check_verification_code(Ok(VerifyCodeResp { is_ok: false })).unwrap_err();
    assert_eq!((e.status_code, e.cause.as_str()), (400, "invalid sms verification code"));
    let e = svc.check_verification_code(Err(err(502, "sms down"))).unwrap_err();
    assert_eq!(e.status_code, 502);
    let params = || SignupParams {
        phone: "123".to_string(),
        password: "pw".to_string(),
        verification_code: "0000".to_string(),
    };
    let req = svc.signup(params(), Ok(VerifyCodeResp { is_ok: true })).unwrap();
    assert_eq!((req.phone.as_str(), req.password.as_str()), ("123", "pw"));
    assert_eq!(svc.signup(params(), Ok(VerifyCodeResp { is_ok: false })).unwrap_err().status_code, 400);
    let login = svc.login_by_password(LoginByPasswordParams {
        phone: "1".to_string(),
        password: "p".to_string(),
    });
    assert_eq!((login.phone.as_str(), login.password.as_str()), ("1", "p"));
    let a = svc.verify_auth_token(Ok(VerifyTokenResp { id: "u9".to_string() })).unwrap();
    assert_eq!(a.id, "u9");
    assert_eq!(svc.verify_auth_token(Err(err(401, "bad token"))).unwrap_err().status_code, 401);
    let e = svc.check_owner(Ok(false)).unwrap_err();
    assert_eq!(e.status_code, 403);
}

#[test]
fn config_defaults() {
    let c = Config::new(
        "0.0.0.0:8000".to_string(),
        None,
        None,
        "auth:1".to_string(),
        "upload:1".to_string(),
        "sms:1".to_string(),
        "dog:1".to_string(),
        "walk:1".to_string(),
    );
    assert_eq!((c.log_level.as_str(), c.log_format.as_str()), ("info", "%t %s %r %a %D"));
    assert_eq!(c.dog_service_address, "dog:1");
    let c = Config::new(
        "a".to_string(),
        Some("debug".to_string()),
        Some("%r".to_string()),
        String::new(),
        String::new(),
        String::new(),
        String::new(),
        String::new(),
    );
    assert_eq!((c.log_level.as_str(), c.log_format.as_str()), ("debug", "%r"));
}

#[test]
fn aggregation_counts_repeated_ids() {
    let svc = Service::new();
    let results = vec![(walk("R1", &["a", "a", "b"], 1), Ok(vec![dog("a"), dog("b"), dog("b")]))];
    let e = svc.nearby_requests(results).unwrap_err();
    assert_eq!((e.status_code, e.cause.as_str()), (500, "dogs do not match the dog ids"));
    let results = vec![(walk("R1", &["a", "a", "b"], 1), Ok(vec![dog("b"), dog("a"), dog("a")]))];
    let ws = svc.nearby_requests(results).unwrap();
    assert_eq!(ws[0].dogs.len(), 3);
    let results = vec![(walk("R1", &["a"], 1), Ok(vec![dog("a"), dog("a")]))];
    assert_eq!(svc.nearby_requests(results).unwrap_err().status_code, 500);
}

#[test]
fn pass_through_errors_carry_their_causes() {
    let h = pass_through("b:1", None, RequestBodyProcessor::Identity, ResponseProcessor::Identity);
    let e = h.prepare(context(Method::Other, "/p", "", Headers::new(), b"")).unwrap_err();
    assert_eq!((e.status_code, e.cause.as_str()), (405, "unsupported method"));
    let bad = pass_through("b:99999", None, RequestBodyProcessor::Identity, ResponseProcessor::Identity);
    let first = bad.prepare(context(Method::Get, "/p", "", Headers::new(), b"")).unwrap_err();
    let second = bad.prepare(context(Method::Get, "/p", "", Headers::new(), b"")).unwrap_err();
    assert_eq!(first.status_code, 400);
    assert!(!first.cause.is_empty());
    assert_eq!((first.status_code, first.cause), (second.status_code, second.cause));
}

#[test]
fn create_dog_without_identity_says_so() {
    let svc = Service::new();
    let income = DogCreateIncome {
        name: "rex".to_string(),
        gender: "male".to_string(),
        breed: (),
        birthday: ts(1),
        tags: vec![],
        portrait_id: None,
    };
    let e = svc.create_dog(Ok(income), &Headers::new()).unwrap_err();
    assert_eq!((e.status_code, e.cause.as_str()), (401, "no user id"));
}

#[test]
fn dog_query_pairs_in_order() {
    let q = DogQuery {
        id: Some("d1".to_string()),
        id_in: Some(vec!["a".to_string(), "b".to_string(), "c".to_string()]),
        owner_id: Some("u1".to_string()),
        pagination: Some(Pagination { page: -3, size: 20 }),
    };
    let pairs: Vec<(String, String)> = q.query_pairs();
    let expected: Vec<(String, String)> = [
        ("id", "d1"),
        ("id_in", "a,b,c"),
        ("owner_id", "u1"),
        ("page", "-3"),
        ("size", "20"),
    ]
    .iter()
    .map(|(k, v)| (k.to_string(), v.to_string()))
    .collect();
    assert_eq!(pairs, expected);
    let empty = DogQuery { id: None, id_in: None, owner_id: None, pagination: None };
    assert!(empty.query_pairs().is_empty());
    assert_eq!(join_ids(&vec![]), "");
    assert_eq!(join_ids(&vec!["x".to_string()]), "x");
    assert_eq!(int_text(i32::MIN), "-2147483648");
    assert_eq!(int_text(0), "0");
    assert_eq!(int_text(1048576), "1048576");
}
