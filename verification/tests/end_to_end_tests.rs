use multi_rpc::attribute::ArgValue;
use multi_rpc::attribute::AttributeArg;
use multi_rpc::attribute::RestAttribute;
use multi_rpc::contract::Contract;
use multi_rpc::contract::HttpVerb;
use multi_rpc::contract::MethodDeclaration;
use multi_rpc::contract::MethodSignature;
use multi_rpc::contract::Parameter;
use multi_rpc::contract::Receiver;
use multi_rpc::contract::ReturnDeclaration;
use multi_rpc::error::RpcError;
use multi_rpc::protocols::jsonrpsee::JsonRpSee;
use multi_rpc::protocols::multi_rpc_impl;
use multi_rpc::protocols::rest_axum::ResponseBody;
use multi_rpc::protocols::rest_axum::RestAxum;
use multi_rpc::protocols::rest_axum::RestDecision;
use multi_rpc::protocols::rest_axum::RestRequest;
use multi_rpc::protocols::tarpc::FramePayload;
use multi_rpc::protocols::tarpc::RequestFrame;
use multi_rpc::protocols::tarpc::Tarpc;
use multi_rpc::protocols::tarpc::WorkerAction;
use multi_rpc::protocols::tarpc::WorkerEvent;
use multi_rpc::protocols::CallParams;
use multi_rpc::protocols::MethodOutcome;

struct Greeter {
    name: String,
    calls: u32,
}

impl Greeter {
    fn greet(&mut self, name: &str) -> Result<String, RpcError> {
        self.calls += 1;
        if name.is_empty() {
            return Err(RpcError::InternalError("Name cannot be empty".to_string()));
        }
        Ok(format!("Hello, {}! My name is {}.", name, self.name))
    }

    fn call(&mut self, method: usize, arguments: Vec<String>) -> MethodOutcome {
        assert_eq!(method, 0);
        assert_eq!(arguments.len(), 1);
        match self.greet(&arguments[0]) {
            Ok(text) => MethodOutcome::Success(Ok(format!("\"{}\"", text))),
            Err(e) => MethodOutcome::Failure(e),
        }
    }
}

fn greeter_contract() -> Contract {
    let declaration = MethodDeclaration {
        name: "greet".to_string(),
        receiver: Receiver::Shared,
        inputs: vec![Parameter { name: "name".to_string(), ty: "String".to_string() }],
        output: ReturnDeclaration::Path {
            segments: vec!["Result".to_string()],
            text: "Result<String, Error>".to_string(),
        },
    };
    let args = vec![
        AttributeArg::NameValue { key: "method".to_string(), value: ArgValue::Ident("GET".to_string()) },
        AttributeArg::NameValue {
            key: "path".to_string(),
            value: ArgValue::Text("/greet/{name}".to_string()),
        },
    ];
    let route = RestAttribute::parse(&args).unwrap().route().unwrap();
    let mut contract = Contract::new();
    contract.register_method(MethodSignature::from_declaration(declaration), Some(route)).unwrap();
    contract
}

#[test]
fn greeting_is_the_same_over_every_protocol() {
    let adapters = multi_rpc_impl(&greeter_contract());
    let mut service = Greeter { name: "Chauncey".to_string(), calls: 0 };
    let greeting = "\"Hello, sammy! My name is Chauncey.\"".to_string();

    let request =
        RestRequest { verb: HttpVerb::Get, path: "/greet/sammy".to_string(), query: vec![], body: None };
    let response = match adapters.rest.handle(&request) {
        RestDecision::Invoke { method, arguments } => RestAxum.respond(service.call(method, arguments)),
        RestDecision::Reject { status } => RestAxum.refuse(status),
    };
    assert_eq!(response.status, 200);
    assert_eq!(response.body, ResponseBody::Json(greeting.clone()));

    let call = adapters.json_rpc.dispatch("greet", CallParams::Positional(vec!["sammy".to_string()])).unwrap();
    let reply = JsonRpSee.reply(service.call(call.method, call.arguments));
    assert_eq!(reply, Ok(greeting.clone()));

    let frame = RequestFrame { token: 5, method: "greet".to_string(), arguments: vec!["sammy".to_string()] };
    let frame = match adapters.stream.step(WorkerEvent::Frame(frame)) {
        WorkerAction::Invoke { token, method, arguments } => {
            Tarpc.respond(token, service.call(method, arguments))
        }
        WorkerAction::Stop => panic!("the worker stopped on a request"),
    };
    assert_eq!(frame.token, 5);
    assert_eq!(frame.payload, FramePayload::Value(greeting));
    assert_eq!(service.calls, 3);
}

#[test]
fn empty_name_is_an_error_over_every_protocol() {
    let adapters = multi_rpc_impl(&greeter_contract());
    let mut service = Greeter { name: "Chauncey".to_string(), calls: 0 };

    let call = adapters.json_rpc.dispatch("greet", CallParams::Positional(vec![String::new()])).unwrap();
    let outcome = service.call(call.method, call.arguments);
    let response = RestAxum.respond(outcome);
    assert_eq!(response.status, 500);
    assert_eq!(
        response.body,
        ResponseBody::Text("Internal server error: Name cannot be empty".to_string())
    );

    let call = adapters.json_rpc.dispatch("greet", CallParams::Positional(vec![String::new()])).unwrap();
    let error = JsonRpSee.reply(service.call(call.method, call.arguments)).unwrap_err();
    assert_eq!(error.code, -32603);
    assert!(error.message.contains("Name cannot be empty"));

    let frame = RequestFrame { token: 6, method: "greet".to_string(), arguments: vec![String::new()] };
    let frame = match adapters.stream.step(WorkerEvent::Frame(frame)) {
        WorkerAction::Invoke { token, method, arguments } => {
            Tarpc.respond(token, service.call(method, arguments))
        }
        WorkerAction::Stop => panic!("the worker stopped on a request"),
    };
    assert_eq!(
        frame.payload,
        FramePayload::Error(RpcError::InternalError("Name cannot be empty".to_string()))
    );
}

#[test]
fn request_that_does_not_decode_never_reaches_the_service() {
    let adapters = multi_rpc_impl(&greeter_contract());
    let mut service = Greeter { name: "Chauncey".to_string(), calls: 0 };
    let request =
        RestRequest { verb: HttpVerb::Get, path: "/greet".to_string(), query: vec![], body: None };
    let response = match adapters.rest.handle(&request) {
        RestDecision::Invoke { method, arguments } => RestAxum.respond(service.call(method, arguments)),
        RestDecision::Reject { status } => RestAxum.refuse(status),
    };
    assert_eq!(response.status, 404);
    assert!(adapters.json_rpc.dispatch("greet", CallParams::Positional(vec![])).is_err());
    let frame = RequestFrame { token: 1, method: "greet".to_string(), arguments: vec![] };
    assert_eq!(adapters.stream.step(WorkerEvent::Frame(frame)), WorkerAction::Stop);
    assert_eq!(service.calls, 0);
}
