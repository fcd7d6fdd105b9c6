use typed_routes::client::{receive, Client, ClientError, Encoding, TransportFailure};
use typed_routes::contract::{Branch, OutcomeDecl, VariantDecl};
use typed_routes::handler::{DispatchEntry, TypedHandler};
use typed_routes::route::{typed_result, ContractError, DecodeError, Outcome, Route, TypedResponse, WireOutcome};
use typed_routes::status::{HttpMethod, MappingError, StatusMapping};

fn s(x: &str) -> String {
    x.to_string()
}

fn variant(name: &str, fields: &[&str]) -> VariantDecl {
    VariantDecl { name: s(name), fields: fields.iter().map(|f| s(f)).collect() }
}

fn msg_route(method: HttpMethod, path: &str) -> Route {
    let success = OutcomeDecl::declare(
        vec![variant("Done", &["new_msg"]), variant("SuperGood", &[])],
        &vec![(s("Done"), 201), (s("SuperGood"), 202)],
    )
    .unwrap();
    let error = OutcomeDecl::declare(
        vec![variant("NotFound", &[]), variant("OtherError", &[])],
        &vec![(s("NotFound"), 404), (s("OtherError"), 500)],
    )
    .unwrap();
    Route::new(method, s(path), success, error)
}

fn done(msg: &str) -> Outcome {
    Outcome { branch: Branch::Success, tag: s("Done"), values: vec![s(msg)] }
}

fn not_found() -> Outcome {
    Outcome { branch: Branch::Failure, tag: s("NotFound"), values: vec![] }
}

struct GetMsgQueryArgs {
    num: u32,
    prefix: String,
}

fn get_msg_handler(input: ((), GetMsgQueryArgs)) -> Outcome {
    let (_, args) = input;
    if args.num == 0 {
        return not_found();
    }
    let unit = format!("{}{}", args.prefix, args.num);
    done(&unit.repeat(args.num as usize))
}

fn not_found_handler(_input: ((), GetMsgQueryArgs)) -> Outcome {
    not_found()
}

fn same_outcome(a: &Outcome, b: &Outcome) -> bool {
    a.branch == b.branch && a.tag == b.tag && a.values == b.values
}

#[test]
fn mapping_builds_when_total() {
    let m = StatusMapping::build(vec![s("A"), s("B")], &vec![(s("B"), 202), (s("A"), 201)]).unwrap();
    assert_eq!(m.len(), 2);
    assert_eq!(m.index_of(&s("A")), Some(0));
    assert_eq!(m.index_of(&s("B")), Some(1));
    assert_eq!(m.index_of(&s("C")), None);
    assert_eq!(m.tag(1), "B");
    assert_eq!(m.code_for(0), 201);
    assert_eq!(m.code_for(1), 202);
}

#[test]
fn mapping_empty_outcome_type() {
    let m = StatusMapping::build(vec![], &vec![]).unwrap();
    assert_eq!(m.len(), 0);
}

#[test]
fn mapping_rejects_duplicate_variant() {
    let r = StatusMapping::build(vec![s("A"), s("A")], &vec![(s("A"), 201)]);
    assert_eq!(r.err(), Some(MappingError::DuplicateVariant));
}

#[test]
fn mapping_rejects_duplicate_entry() {
    let r = StatusMapping::build(vec![s("A")], &vec![(s("A"), 201), (s("A"), 202)]);
    assert_eq!(r.err(), Some(MappingError::DuplicateEntry));
}

#[test]
fn mapping_rejects_invalid_status() {
    let r = StatusMapping::build(vec![s("A")], &vec![(s("A"), 1000)]);
    assert_eq!(r.err(), Some(MappingError::InvalidStatus));
    let r = StatusMapping::build(vec![s("A")], &vec![(s("A"), 99)]);
    assert_eq!(r.err(), Some(MappingError::InvalidStatus));
    assert!(StatusMapping::build(vec![s("A")], &vec![(s("A"), 100)]).is_ok());
    assert!(StatusMapping::build(vec![s("A")], &vec![(s("A"), 999)]).is_ok());
}

#[test]
fn mapping_rejects_unmapped_variant() {
    let r = StatusMapping::build(vec![s("A"), s("B")], &vec![(s("A"), 201)]);
    assert_eq!(r.err(), Some(MappingError::UnmappedVariant));
}

#[test]
fn mapping_rejects_unknown_variant() {
    let r = StatusMapping::build(vec![s("A")], &vec![(s("A"), 201), (s("Z"), 404)]);
    assert_eq!(r.err(), Some(MappingError::UnknownVariant));
}

#[test]
fn declare_reports_mapping_error() {
    let r = OutcomeDecl::declare(vec![variant("Done", &["new_msg"])], &vec![]);
    assert_eq!(r.err(), Some(MappingError::UnmappedVariant));
}

#[test]
fn declare_keeps_fields_and_codes() {
    let d = OutcomeDecl::declare(
        vec![variant("Done", &["new_msg"]), variant("SuperGood", &[])],
        &vec![(s("SuperGood"), 202), (s("Done"), 201)],
    )
    .unwrap();
    assert_eq!(d.find(&s("SuperGood")), Some(1));
    assert_eq!(d.find(&s("Missing")), None);
    assert_eq!(d.code_at(0), 201);
    assert_eq!(d.code_at(1), 202);
    assert_eq!(d.fields_at(0), &vec![s("new_msg")]);
    assert!(d.fields_at(1).is_empty());
}

#[test]
fn route_exposes_method_and_path() {
    let r = msg_route(HttpMethod::Get, "/get_msg");
    assert_eq!(r.method(), HttpMethod::Get);
    assert_eq!(r.route(), "/get_msg");
}

#[test]
fn typed_uses_variant_status() {
    let r = msg_route(HttpMethod::Get, "/get_msg");
    let t = r.typed(&done("hi")).unwrap();
    assert_eq!(t.status_code, 201);
    assert_eq!(t.payload.branch, Branch::Success);
    assert_eq!(t.payload.tag, "Done");
    assert_eq!(t.payload.fields, vec![(s("new_msg"), s("hi"))]);
    let t = r.typed(&not_found()).unwrap();
    assert_eq!(t.status_code, 404);
    assert_eq!(t.payload.branch, Branch::Failure);
    assert!(t.payload.fields.is_empty());
    let other = Outcome { branch: Branch::Failure, tag: s("OtherError"), values: vec![] };
    assert_eq!(r.typed(&other).unwrap().status_code, 500);
    let good = Outcome { branch: Branch::Success, tag: s("SuperGood"), values: vec![] };
    assert_eq!(r.typed(&good).unwrap().status_code, 202);
}

#[test]
fn typed_rejects_undeclared_outcome() {
    let r = msg_route(HttpMethod::Get, "/get_msg");
    let wrong_branch = Outcome { branch: Branch::Failure, tag: s("Done"), values: vec![s("x")] };
    assert_eq!(r.typed(&wrong_branch).err(), Some(ContractError::UnknownVariant));
    let wrong_count = Outcome { branch: Branch::Success, tag: s("Done"), values: vec![] };
    assert_eq!(r.typed(&wrong_count).err(), Some(ContractError::FieldCount));
    assert_eq!(r.encode(&wrong_count).err(), Some(ContractError::FieldCount));
}

#[test]
fn encode_then_decode_gives_outcome_back() {
    let r = msg_route(HttpMethod::Post, "/set_msg");
    for o in [done("x3x3x3"), done(""), not_found()] {
        let w = r.encode(&o).unwrap();
        let back = r.decode(&w).unwrap();
        assert!(same_outcome(&o, &back));
    }
}

#[test]
fn decode_rejects_unknown_tag_and_fields() {
    let r = msg_route(HttpMethod::Get, "/get_msg");
    let w = WireOutcome { branch: Branch::Success, tag: s("NotFound"), fields: vec![] };
    assert_eq!(r.decode(&w).err(), Some(DecodeError::UnknownVariant));
    let w = WireOutcome { branch: Branch::Success, tag: s("Done"), fields: vec![(s("msg"), s("a"))] };
    assert_eq!(r.decode(&w).err(), Some(DecodeError::FieldMismatch));
    let w = WireOutcome { branch: Branch::Success, tag: s("Done"), fields: vec![] };
    assert_eq!(r.decode(&w).err(), Some(DecodeError::FieldMismatch));
}

#[test]
fn typed_result_fallback_codes() {
    let ok: Result<u32, u32> = Ok(7);
    let t = typed_result(ok);
    assert_eq!(t.status_code, 200);
    assert_eq!(t.payload, Ok(7));
    let err: Result<u32, u32> = Err(9);
    let t = typed_result(err);
    assert_eq!(t.status_code, 500);
    assert_eq!(t.payload, Err(9));
}

#[test]
fn client_builds_url_from_base_and_path() {
    let c = Client::new("127.0.0.1:3000");
    assert_eq!(c.base_url(), "http://127.0.0.1:3000");
    let r = msg_route(HttpMethod::Get, "/get_msg");
    let out = c.request_for(&r).with_args(5u8).send();
    assert_eq!(out.url, "http://127.0.0.1:3000/get_msg");
    assert_eq!(out.method, HttpMethod::Get);
    assert_eq!(out.args, 5u8);
}

#[test]
fn get_sends_query_and_post_sends_body() {
    let c = Client::new("localhost:8080");
    let get = msg_route(HttpMethod::Get, "/get_msg");
    let post = msg_route(HttpMethod::Post, "/set_msg");
    let q = c.request_for(&get).with_args(GetMsgQueryArgs { num: 3, prefix: s("x") }).send();
    assert_eq!(q.encoding, Encoding::Query);
    assert_eq!(q.args.num, 3);
    assert_eq!(q.args.prefix, "x");
    let b = c.request_for(&post).with_args(s("hello")).send();
    assert_eq!(b.encoding, Encoding::Body);
    assert_eq!(b.method, HttpMethod::Post);
    assert_eq!(b.args, "hello");
}

fn assert_handler<I, H: TypedHandler<I, Outcome>>(_h: &H) {}

#[test]
fn handlers_of_many_arities_bind() {
    let r = msg_route(HttpMethod::Get, "/get_msg");
    let h0 = |_: ()| done("zero");
    assert_handler::<(), _>(&h0);
    let e0 = DispatchEntry::bind::<()>(&r, h0);
    assert_eq!(e0.dispatch(()).unwrap().status_code, 201);
    let h1 = |(a,): (u8,)| done(&a.to_string());
    let e1 = DispatchEntry::bind::<(u8,)>(&r, h1);
    assert_eq!(e1.dispatch((4,)).unwrap().payload.fields[0].1, "4");
    let h3 = |(a, b, c): (u8, String, bool)| if c { done(&format!("{a}{b}")) } else { not_found() };
    let e3 = DispatchEntry::bind::<(u8, String, bool)>(&r, h3);
    assert_eq!(e3.dispatch((1, s("z"), true)).unwrap().payload.fields[0].1, "1z");
    assert_eq!(e3.dispatch((1, s("z"), false)).unwrap().status_code, 404);
    type Sixteen = (u8, u8, u8, u8, u8, u8, u8, u8, u8, u8, u8, u8, u8, u8, u8, u8);
    let h16 = |t: Sixteen| done(&(t.0 as u32 + t.15 as u32).to_string());
    let e16 = DispatchEntry::bind::<Sixteen>(&r, h16);
    let t: Sixteen = (1, 0, 0, 0, 0, 0, 0, 0, 0, 0, 0, 0, 0, 0, 0, 2);
    assert_eq!(e16.dispatch(t).unwrap().payload.fields[0].1, "3");
}

#[test]
fn dispatch_reports_undeclared_outcome() {
    let r = msg_route(HttpMethod::Get, "/get_msg");
    let e = DispatchEntry::bind::<()>(&r, |_: ()| Outcome { branch: Branch::Success, tag: s("Nope"), values: vec![] });
    assert_eq!(e.dispatch(()).err(), Some(ContractError::UnknownVariant));
    assert_eq!(e.method(), HttpMethod::Get);
    assert_eq!(e.path(), "/get_msg");
}

fn exchange(route: &Route, response: TypedResponse<WireOutcome>) -> Result<TypedResponse<Outcome>, ClientError> {
    receive(route, Ok(response))
}

#[test]
fn scenario_get_not_found() {
    let r = msg_route(HttpMethod::Get, "/get_msg");
    let out = Client::new("localhost:3000").request_for(&r).with_args(GetMsgQueryArgs { num: 3, prefix: s("x") }).send();
    assert_eq!(out.encoding, Encoding::Query);
    let entry = DispatchEntry::bind::<((), GetMsgQueryArgs)>(&r, not_found_handler);
    let response = entry.dispatch(((), out.args)).unwrap();
    let got = exchange(&r, response).unwrap();
    assert_eq!(got.status_code, 404);
    assert!(same_outcome(&got.payload, &not_found()));
}

#[test]
fn scenario_get_done() {
    let r = msg_route(HttpMethod::Get, "/get_msg");
    let out = Client::new("localhost:3000").request_for(&r).with_args(GetMsgQueryArgs { num: 3, prefix: s("x") }).send();
    let entry = DispatchEntry::bind::<((), GetMsgQueryArgs)>(&r, get_msg_handler);
    let response = entry.dispatch(((), out.args)).unwrap();
    let got = exchange(&r, response).unwrap();
    assert_eq!(got.status_code, 201);
    assert_eq!(got.payload.tag, "Done");
    assert_eq!(got.payload.values, vec![s("x3x3x3")]);
}

#[test]
fn scenario_post_body_echo() {
    let r = msg_route(HttpMethod::Post, "/set_msg");
    let out = Client::new("localhost:3000").request_for(&r).with_args(s("hello")).send();
    assert_eq!(out.encoding, Encoding::Body);
    assert_eq!(out.url, "http://localhost:3000/set_msg");
    let entry = DispatchEntry::bind::<((), String)>(&r, |(_, msg): ((), String)| done(&msg));
    let response = entry.dispatch(((), out.args)).unwrap();
    let got = exchange(&r, response).unwrap();
    assert_eq!(got.status_code, 201);
    assert_eq!(got.payload.values, vec![s("hello")]);
}

#[test]
fn scenario_server_error_still_decodes() {
    let r = msg_route(HttpMethod::Get, "/get_msg");
    let other = Outcome { branch: Branch::Failure, tag: s("OtherError"), values: vec![] };
    let got = exchange(&r, r.typed(&other).unwrap()).unwrap();
    assert_eq!(got.status_code, 500);
    assert_eq!(got.payload.tag, "OtherError");
}

#[test]
fn scenario_transport_failure() {
    let r = msg_route(HttpMethod::Get, "/get_msg");
    let got = receive(&r, Err(TransportFailure));
    assert_eq!(got.err(), Some(ClientError::Transport));
}

#[test]
fn receive_reports_undecodable_payload() {
    let r = msg_route(HttpMethod::Get, "/get_msg");
    let w = WireOutcome { branch: Branch::Failure, tag: s("Gone"), fields: vec![] };
    let got = receive(&r, Ok(TypedResponse { status_code: 410, payload: w }));
    assert_eq!(got.err(), Some(ClientError::Decode(DecodeError::UnknownVariant)));
}

#[test]
fn decode_then_encode_gives_payload_back() {
    let r = msg_route(HttpMethod::Get, "/get_msg");
    let w = WireOutcome { branch: Branch::Success, tag: s("Done"), fields: vec![(s("new_msg"), s("abc"))] };
    let o = r.decode(&w).unwrap();
    assert_eq!(o.values, vec![s("abc")]);
    let again = r.encode(&o).unwrap();
    assert_eq!(again.branch, w.branch);
    assert_eq!(again.tag, w.tag);
    assert_eq!(again.fields, w.fields);
}

#[test]
fn client_with_empty_base() {
    let c = Client::new("");
    assert_eq!(c.base_url(), "http://");
}
