use multi_rpc::contract::Contract;
use multi_rpc::contract::HttpVerb;
use multi_rpc::contract::MethodSignature;
use multi_rpc::contract::ParamMapping;
use multi_rpc::contract::Parameter;
use multi_rpc::error::RpcError;
use multi_rpc::protocols::jsonrpsee::JsonRpSee;
use multi_rpc::protocols::jsonrpsee::JsonRpcCall;
use multi_rpc::protocols::jsonrpsee::RpcErrorObject;
use multi_rpc::protocols::multi_rpc_impl;
use multi_rpc::protocols::multi_rpc_trait;
use multi_rpc::protocols::rest;
use multi_rpc::protocols::rest_axum::ArgSource;
use multi_rpc::protocols::rest_axum::ResponseBody;
use multi_rpc::protocols::rest_axum::RestAxum;
use multi_rpc::protocols::rest_axum::RestDecision;
use multi_rpc::protocols::rest_axum::RestRequest;
use multi_rpc::protocols::rest_axum::RestResponse;
use multi_rpc::protocols::tarpc::FramePayload;
use multi_rpc::protocols::tarpc::RequestFrame;
use multi_rpc::protocols::tarpc::ResponseFrame;
use multi_rpc::protocols::tarpc::Tarpc;
use multi_rpc::protocols::tarpc::WorkerAction;
use multi_rpc::protocols::tarpc::WorkerEvent;
use multi_rpc::protocols::Adapter;
use multi_rpc::protocols::Adapters;
use multi_rpc::protocols::CallParams;
use multi_rpc::protocols::MethodOutcome;
use multi_rpc::protocols::Protocol;
use multi_rpc::protocols::WireReturn;

fn param(name: &str, ty: &str) -> Parameter {
    Parameter { name: name.to_string(), ty: ty.to_string() }
}

fn strings(items: &[&str]) -> Vec<String> {
    items.iter().map(|s| s.to_string()).collect()
}

fn pairs(items: &[(&str, &str)]) -> Vec<(String, String)> {
    items.iter().map(|(k, v)| (k.to_string(), v.to_string())).collect()
}

fn greeter_contract() -> Contract {
    let mut contract = Contract::new();
    let greet = MethodSignature {
        name: "greet".to_string(),
        parameters: vec![param("name", "String")],
        return_type: "Result<String, RpcError>".to_string(),
        is_fallible: true,
        requires_exclusive_access: false,
    };
    let route = rest(HttpVerb::Get, "/greet/{name}".to_string(), vec![], vec![]);
    assert_eq!(contract.register_method(greet, Some(route)), Ok(()));
    let update = MethodSignature {
        name: "update_settings".to_string(),
        parameters: vec![param("theme", "String"), param("user_id", "u64"), param("brightness", "u32")],
        return_type: "String".to_string(),
        is_fallible: false,
        requires_exclusive_access: true,
    };
    let route = rest(
        HttpVerb::Post,
        "/users/{user_id}/settings".to_string(),
        vec![],
        vec![
            ParamMapping::shorthand("brightness".to_string()),
            ParamMapping::renamed("colour".to_string(), "theme".to_string()),
        ],
    );
    assert_eq!(contract.register_method(update, Some(route)), Ok(()));
    let ping = MethodSignature {
        name: "ping".to_string(),
        parameters: vec![],
        return_type: "u32".to_string(),
        is_fallible: false,
        requires_exclusive_access: false,
    };
    assert_eq!(contract.register_method(ping, None), Ok(()));
    let search = MethodSignature {
        name: "search".to_string(),
        parameters: vec![param("search_query", "String"), param("limit", "u32")],
        return_type: "Result<Vec<String>, RpcError>".to_string(),
        is_fallible: true,
        requires_exclusive_access: false,
    };
    let route = rest(
        HttpVerb::Get,
        "/search".to_string(),
        vec![
            ParamMapping::shorthand("limit".to_string()),
            ParamMapping::renamed("q".to_string(), "search_query".to_string()),
        ],
        vec![],
    );
    assert_eq!(contract.register_method(search, Some(route)), Ok(()));
    contract
}

fn adapters() -> Adapters {
    multi_rpc_impl(&greeter_contract())
}

fn greet(name: &str) -> MethodOutcome {
    if name.is_empty() {
        MethodOutcome::Failure(RpcError::InternalError("Name cannot be empty".to_string()))
    } else {
        MethodOutcome::Success(Ok(format!("\"Hello, {}! My name is Chauncey.\"", name)))
    }
}

fn get(path: &str, query: &[(&str, &str)]) -> RestRequest {
    RestRequest { verb: HttpVerb::Get, path: path.to_string(), query: pairs(query), body: None }
}

fn post(path: &str, body: Option<&str>) -> RestRequest {
    RestRequest {
        verb: HttpVerb::Post,
        path: path.to_string(),
        query: vec![],
        body: body.map(|b| b.to_string()),
    }
}

#[test]
fn route_table_has_one_entry_per_method() {
    let rest = adapters().rest;
    assert!(rest.well_formed());
    assert_eq!(rest.routes.len(), 4);
    assert!(rest.routes[2].is_none());
    let greet = rest.routes[0].as_ref().unwrap();
    assert_eq!(greet.verb, HttpVerb::Get);
    assert_eq!(greet.template, strings(&["", "greet", "{name}"]));
    assert_eq!(greet.sources, vec![ArgSource::Path(0)]);
    assert!(greet.is_fallible);
    let update = rest.routes[1].as_ref().unwrap();
    assert_eq!(update.sources, vec![ArgSource::Body(1), ArgSource::Path(0), ArgSource::Body(0)]);
    assert_eq!(update.body_fields[1].wire_name, "colour");
    assert_eq!(update.body_fields[1].name, "theme");
    assert_eq!(update.body_fields[1].ty, "String");
    assert_eq!(update.body_fields[0].wire_name, "brightness");
    assert_eq!(update.body_fields[0].ty, "u32");
    assert!(update.query_fields.is_empty());
    assert!(!update.is_fallible);
    let search = rest.routes[3].as_ref().unwrap();
    assert_eq!(search.query_fields[1].wire_name, "q");
    assert_eq!(search.query_fields[1].name, "search_query");
    assert_eq!(search.query_fields[1].ty, "String");
    assert_eq!(search.sources, vec![ArgSource::Query(1), ArgSource::Query(0)]);
}

#[test]
fn rest_greets_sammy() {
    let rest = adapters().rest;
    let decision = rest.handle(&get("/greet/sammy", &[]));
    assert_eq!(decision, RestDecision::Invoke { method: 0, arguments: strings(&["sammy"]) });
    let response = RestAxum.respond(greet("sammy"));
    assert_eq!(
        response,
        RestResponse {
            status: 200,
            body: ResponseBody::Json("\"Hello, sammy! My name is Chauncey.\"".to_string()),
        }
    );
    assert_eq!(RestAxum.read_response(response), Ok("\"Hello, sammy! My name is Chauncey.\"".to_string()));
}

#[test]
fn rest_reports_the_error_of_the_method_as_500() {
    let response = RestAxum.respond(greet(""));
    assert_eq!(
        response,
        RestResponse {
            status: 500,
            body: ResponseBody::Text("Internal server error: Name cannot be empty".to_string()),
        }
    );
    assert_eq!(
        RestAxum.read_response(response),
        Err("Internal server error: Name cannot be empty".to_string())
    );
}

#[test]
fn rest_reports_an_unencodable_value_as_500() {
    let response = RestAxum.respond(MethodOutcome::Success(Err("key must be a string".to_string())));
    assert_eq!(response.status, 500);
    assert_eq!(response.body, ResponseBody::Text("key must be a string".to_string()));
    let response = RestAxum.respond(MethodOutcome::Plain(Err("key must be a string".to_string())));
    assert_eq!(response.status, 500);
    let response = RestAxum.respond(MethodOutcome::Plain(Ok("7".to_string())));
    assert_eq!(response, RestResponse { status: 200, body: ResponseBody::Json("7".to_string()) });
}

#[test]
fn rest_puts_arguments_in_declared_order() {
    let rest = adapters().rest;
    let request = post("/users/101/settings", Some("{\"brightness\": 85, \"colour\": \"dark\", \"more\": [1, 2]}"));
    let decision = rest.handle(&request);
    assert_eq!(
        decision,
        RestDecision::Invoke { method: 1, arguments: strings(&["\"dark\"", "101", "85"]) }
    );
}

#[test]
fn rest_reads_query_fields_by_their_wire_names() {
    let rest = adapters().rest;
    let decision = rest.handle(&get("/search", &[("limit", "5"), ("q", "rust"), ("limit", "9")]));
    assert_eq!(decision, RestDecision::Invoke { method: 3, arguments: strings(&["rust", "5"]) });
    let decision = rest.handle(&get("/search", &[("limit", "5"), ("search_query", "rust")]));
    assert_eq!(decision, RestDecision::Reject { status: 400 });
    let decision = rest.handle(&get("/search", &[]));
    assert_eq!(decision, RestDecision::Reject { status: 400 });
}

#[test]
fn rest_turns_down_what_does_not_decode() {
    let rest = adapters().rest;
    assert_eq!(rest.handle(&post("/users/101/settings", None)), RestDecision::Reject { status: 400 });
    assert_eq!(
        rest.handle(&post("/users/101/settings", Some("{\"brightness\": 85"))),
        RestDecision::Reject { status: 400 }
    );
    assert_eq!(
        rest.handle(&post("/users/101/settings", Some("[85, \"dark\"]"))),
        RestDecision::Reject { status: 400 }
    );
    assert_eq!(
        rest.handle(&post("/users/101/settings", Some("{\"brightness\": 85, \"theme\": \"dark\"}"))),
        RestDecision::Reject { status: 422 }
    );
    assert_eq!(rest.handle(&get("/nowhere", &[])), RestDecision::Reject { status: 404 });
    assert_eq!(rest.handle(&post("/greet/sammy", None)), RestDecision::Reject { status: 404 });
    assert_eq!(rest.handle(&get("/greet/", &[])), RestDecision::Reject { status: 404 });
    assert_eq!(rest.handle(&get("/ping", &[])), RestDecision::Reject { status: 404 });
    let refused = RestAxum.refuse(404);
    assert_eq!(refused, RestResponse { status: 404, body: ResponseBody::Text(String::new()) });
}

#[test]
fn rest_ignores_the_body_where_no_field_comes_from_it() {
    let rest = adapters().rest;
    let mut request = get("/greet/sammy", &[("unused", "1")]);
    request.body = Some("this is no JSON".to_string());
    assert_eq!(
        rest.handle(&request),
        RestDecision::Invoke { method: 0, arguments: strings(&["sammy"]) }
    );
}

#[test]
fn rest_decides_on_a_body_that_was_read_before() {
    let rest = adapters().rest;
    let body = Some(pairs(&[("colour", "\"dark\""), ("brightness", "85")]));
    let decision = rest.decide(HttpVerb::Post, "/users/7/settings", &vec![], &body);
    assert_eq!(
        decision,
        RestDecision::Invoke { method: 1, arguments: strings(&["\"dark\"", "7", "85"]) }
    );
    let decision = rest.decide(HttpVerb::Post, "/users/7/settings", &vec![], &None);
    assert_eq!(decision, RestDecision::Reject { status: 400 });
}

#[test]
fn json_rpc_greets_sammy() {
    let json_rpc = adapters().json_rpc;
    let call = json_rpc.dispatch("greet", CallParams::Positional(strings(&["\"sammy\""])));
    assert_eq!(call, Ok(JsonRpcCall { method: 0, arguments: strings(&["\"sammy\""]) }));
    let reply = JsonRpSee.reply(greet("sammy"));
    assert_eq!(reply, Ok("\"Hello, sammy! My name is Chauncey.\"".to_string()));
    assert_eq!(JsonRpSee.read_reply(reply), Ok("\"Hello, sammy! My name is Chauncey.\"".to_string()));
}

#[test]
fn json_rpc_turns_down_unknown_methods_and_wrong_arity() {
    let json_rpc = adapters().json_rpc;
    assert_eq!(
        json_rpc.dispatch("Greet", CallParams::Positional(strings(&["\"sammy\""]))),
        Err(RpcErrorObject { code: -32601, message: "Method not found".to_string(), data: None })
    );
    assert_eq!(
        json_rpc.dispatch("greet", CallParams::Positional(vec![])),
        Err(RpcErrorObject { code: -32602, message: "Invalid params".to_string(), data: None })
    );
    assert_eq!(
        json_rpc.dispatch("ping", CallParams::Positional(vec![])),
        Ok(JsonRpcCall { method: 2, arguments: vec![] })
    );
    assert_eq!(
        json_rpc.dispatch("ping", CallParams::Named(pairs(&[("extra", "1")]))),
        Ok(JsonRpcCall { method: 2, arguments: vec![] })
    );
}

#[test]
fn json_rpc_puts_named_arguments_in_declared_order() {
    let json_rpc = adapters().json_rpc;
    let named = CallParams::Named(pairs(&[
        ("brightness", "85"),
        ("user_id", "101"),
        ("theme", "\"dark\""),
        ("user_id", "102"),
    ]));
    assert_eq!(
        json_rpc.dispatch("update_settings", named),
        Ok(JsonRpcCall { method: 1, arguments: strings(&["\"dark\"", "101", "85"]) })
    );
    let missing = CallParams::Named(pairs(&[("brightness", "85"), ("colour", "\"dark\""), ("user_id", "1")]));
    assert_eq!(
        json_rpc.dispatch("update_settings", missing),
        Err(RpcErrorObject { code: -32602, message: "Invalid params".to_string(), data: None })
    );
    assert_eq!(
        json_rpc.dispatch("nothing", CallParams::Named(vec![])),
        Err(RpcErrorObject { code: -32601, message: "Method not found".to_string(), data: None })
    );
}

#[test]
fn json_rpc_reports_every_failure_as_internal_error() {
    assert_eq!(
        JsonRpSee.reply(greet("")),
        Err(RpcErrorObject {
            code: -32603,
            message: "Internal server error: Name cannot be empty".to_string(),
            data: None,
        })
    );
    assert_eq!(
        JsonRpSee.reply(MethodOutcome::Success(Err("boom".to_string()))),
        Err(RpcErrorObject { code: -32603, message: "boom".to_string(), data: None })
    );
    assert_eq!(
        JsonRpSee.reply(MethodOutcome::Plain(Err("boom".to_string()))),
        Err(RpcErrorObject {
            code: -32603,
            message: "Failed to serialize RPC response: boom".to_string(),
            data: None,
        })
    );
    assert_eq!(JsonRpSee.reply(MethodOutcome::Plain(Ok("7".to_string()))), Ok("7".to_string()));
    let read = JsonRpSee.read_reply(JsonRpSee.reply(greet("")));
    assert_eq!(read, Err("Internal server error: Name cannot be empty".to_string()));
    assert_eq!(JsonRpSee.internal_error("x".to_string()).code, -32603);
}

#[test]
fn stream_answers_under_the_token_of_the_request() {
    let stream = adapters().stream;
    let frame = RequestFrame { token: 41, method: "greet".to_string(), arguments: strings(&["sammy"]) };
    let action = stream.step(WorkerEvent::Frame(frame));
    assert_eq!(action, WorkerAction::Invoke { token: 41, method: 0, arguments: strings(&["sammy"]) });
    let frame = Tarpc.respond(41, greet("sammy"));
    assert_eq!(
        frame,
        ResponseFrame {
            token: 41,
            payload: FramePayload::Value("\"Hello, sammy! My name is Chauncey.\"".to_string()),
        }
    );
    assert_eq!(Tarpc.read_frame(frame), Ok("\"Hello, sammy! My name is Chauncey.\"".to_string()));
}

#[test]
fn stream_carries_the_error_itself() {
    let frame = Tarpc.respond(7, greet(""));
    let e = RpcError::InternalError("Name cannot be empty".to_string());
    assert_eq!(frame, ResponseFrame { token: 7, payload: FramePayload::Error(e.clone()) });
    assert_eq!(Tarpc.read_frame(frame), Err(e));
    let frame = Tarpc.respond(8, MethodOutcome::Plain(Err("boom".to_string())));
    assert_eq!(frame.payload, FramePayload::Error(RpcError::InternalError("boom".to_string())));
    let frame = Tarpc.respond(9, MethodOutcome::Plain(Ok("1".to_string())));
    assert_eq!(frame, ResponseFrame { token: 9, payload: FramePayload::Value("1".to_string()) });
}

#[test]
fn stream_worker_stops_on_what_is_no_request() {
    let stream = adapters().stream;
    assert_eq!(stream.step(WorkerEvent::Malformed), WorkerAction::Stop);
    assert_eq!(stream.step(WorkerEvent::Closed), WorkerAction::Stop);
    let frame = RequestFrame { token: 1, method: "nothing".to_string(), arguments: vec![] };
    assert_eq!(stream.step(WorkerEvent::Frame(frame)), WorkerAction::Stop);
    let frame = RequestFrame { token: 2, method: "greet".to_string(), arguments: vec![] };
    assert_eq!(stream.step(WorkerEvent::Frame(frame)), WorkerAction::Stop);
    let frame = RequestFrame {
        token: 3,
        method: "update_settings".to_string(),
        arguments: strings(&["\"dark\"", "101", "85"]),
    };
    assert_eq!(
        stream.step(WorkerEvent::Frame(frame)),
        WorkerAction::Invoke { token: 3, method: 1, arguments: strings(&["\"dark\"", "101", "85"]) }
    );
}

#[test]
fn value_of_a_fallible_method_comes_back_over_every_protocol() {
    let v = "{\"a\":[1,2,3]}".to_string();
    let over_rest = RestAxum.read_response(RestAxum.respond(MethodOutcome::Success(Ok(v.clone()))));
    let over_json_rpc = JsonRpSee.read_reply(JsonRpSee.reply(MethodOutcome::Success(Ok(v.clone()))));
    let over_stream = Tarpc.read_frame(Tarpc.respond(0, MethodOutcome::Success(Ok(v.clone()))));
    assert_eq!(over_rest, Ok(v.clone()));
    assert_eq!(over_json_rpc, Ok(v.clone()));
    assert_eq!(over_stream, Ok(v));
}

#[test]
fn interfaces_offer_the_methods_of_the_contract() {
    let interfaces = multi_rpc_trait(&greeter_contract());
    assert_eq!(interfaces.rest.methods.len(), 0);
    assert_eq!(interfaces.stream.methods.len(), 4);
    assert_eq!(interfaces.json_rpc.methods.len(), 4);
    let m = &interfaces.stream.methods[1];
    assert_eq!(m.name, "update_settings");
    assert_eq!(m.parameters.len(), 3);
    assert_eq!(m.parameters[1].name, "user_id");
    assert_eq!(m.parameters[1].ty, "u64");
    assert!(matches!(&m.output, WireReturn::Declared { ty, fallible } if ty == "String" && !*fallible));
    let m = &interfaces.stream.methods[0];
    assert!(matches!(&m.output, WireReturn::Declared { ty, fallible } if ty == "Result<String, RpcError>" && *fallible));
    let m = &interfaces.json_rpc.methods[0];
    assert_eq!(m.name, "greet");
    assert_eq!(m.parameters[0].name, "name");
    assert!(matches!(m.output, WireReturn::GenericValue));
}

#[test]
fn route_that_points_outside_its_fields_is_not_well_formed() {
    let mut rest = adapters().rest;
    assert!(rest.routes[1].as_ref().unwrap().well_formed());
    rest.routes[1].as_mut().unwrap().sources[0] = ArgSource::Body(2);
    assert!(!rest.routes[1].as_ref().unwrap().well_formed());
    assert!(!rest.well_formed());
    rest.routes[1].as_mut().unwrap().sources[0] = ArgSource::Path(1);
    assert!(!rest.well_formed());
    rest.routes[1].as_mut().unwrap().sources[0] = ArgSource::Query(0);
    assert!(!rest.well_formed());
    rest.routes[1].as_mut().unwrap().sources[0] = ArgSource::Path(0);
    assert!(rest.well_formed());
}

#[test]
fn each_protocol_makes_its_own_adapter() {
    let contract = greeter_contract();
    assert!(matches!(Tarpc.transform_impl(&contract), Adapter::Stream(t) if t.methods.len() == 4));
    assert!(matches!(RestAxum.transform_impl(&contract), Adapter::Rest(t) if t.routes.len() == 4));
    assert!(matches!(JsonRpSee.transform_impl(&contract), Adapter::JsonRpc(t) if t.methods[3].parameters == strings(&["search_query", "limit"])));
    assert_eq!(RestAxum.transform_trait(&contract).methods.len(), 0);
}
