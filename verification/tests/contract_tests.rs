use multi_rpc::contract::Contract;
use multi_rpc::contract::HttpVerb;
use multi_rpc::contract::MethodDeclaration;
use multi_rpc::contract::MethodSignature;
use multi_rpc::contract::ParamMapping;
use multi_rpc::contract::Parameter;
use multi_rpc::contract::Receiver;
use multi_rpc::contract::ReturnDeclaration;
use multi_rpc::error::ContractError;
use multi_rpc::error::RpcError;
use multi_rpc::path::match_path;
use multi_rpc::path::path_placeholders;
use multi_rpc::path::split_path;
use multi_rpc::protocols::rest;

fn param(name: &str, ty: &str) -> Parameter {
    Parameter { name: name.to_string(), ty: ty.to_string() }
}

fn signature(name: &str, params: Vec<Parameter>) -> MethodSignature {
    MethodSignature {
        name: name.to_string(),
        parameters: params,
        return_type: "Result<String, RpcError>".to_string(),
        is_fallible: true,
        requires_exclusive_access: false,
    }
}

fn strings(items: &[&str]) -> Vec<String> {
    items.iter().map(|s| s.to_string()).collect()
}

#[test]
fn registers_methods_in_order() {
    let mut contract = Contract::new();
    assert_eq!(contract.len(), 0);
    assert_eq!(contract.register_method(signature("greet", vec![param("name", "String")]), None), Ok(()));
    assert_eq!(contract.register_method(signature("part", vec![]), None), Ok(()));
    assert_eq!(contract.len(), 2);
    assert_eq!(contract.methods()[0].signature.name, "greet");
    assert_eq!(contract.methods()[1].signature.name, "part");
    assert_eq!(contract.find_method("part"), Some(1));
    assert_eq!(contract.find_method("greet"), Some(0));
    assert_eq!(contract.find_method("Greet"), None);
}

#[test]
fn second_method_of_a_name_is_a_duplicate() {
    let mut contract = Contract::new();
    assert_eq!(contract.register_method(signature("greet", vec![param("name", "String")]), None), Ok(()));
    let again = signature("greet", vec![param("other", "u64")]);
    assert_eq!(contract.register_method(again, None), Err(ContractError::DuplicateMethodName));
    assert_eq!(contract.len(), 1);
    assert_eq!(contract.methods()[0].signature.parameters[0].name, "name");
}

#[test]
fn duplicate_name_comes_before_any_other_error() {
    let mut contract = Contract::new();
    assert_eq!(contract.register_method(signature("greet", vec![]), None), Ok(()));
    let bad = signature("greet", vec![param("a", "u8"), param("a", "u8")]);
    let route = rest(HttpVerb::Get, "/greet".to_string(), vec![], vec![]);
    assert_eq!(contract.register_method(bad, Some(route)), Err(ContractError::DuplicateMethodName));
}

#[test]
fn two_parameters_of_one_name_are_rejected() {
    let mut contract = Contract::new();
    let bad = signature("f", vec![param("a", "u8"), param("b", "u8"), param("a", "u8")]);
    assert_eq!(contract.register_method(bad, None), Err(ContractError::DuplicateParameterName));
    assert_eq!(contract.len(), 0);
}

#[test]
fn route_with_each_parameter_once_is_accepted() {
    let mut contract = Contract::new();
    let sig = signature(
        "update_settings",
        vec![param("user_id", "u64"), param("brightness", "u32"), param("theme", "String"), param("dry", "bool")],
    );
    let route = rest(
        HttpVerb::Post,
        "/users/{user_id}/settings".to_string(),
        vec![ParamMapping::renamed("dry_run".to_string(), "dry".to_string())],
        vec![ParamMapping::shorthand("brightness".to_string()), ParamMapping::shorthand("theme".to_string())],
    );
    assert_eq!(contract.register_method(sig, Some(route)), Ok(()));
    assert_eq!(contract.len(), 1);
}

#[test]
fn parameter_without_a_role_is_rejected() {
    let mut contract = Contract::new();
    let sig = signature("f", vec![param("a", "u8"), param("b", "u8")]);
    let route = rest(HttpVerb::Get, "/f/{a}".to_string(), vec![], vec![]);
    assert_eq!(contract.register_method(sig, Some(route)), Err(ContractError::AmbiguousParameterRole));
    assert_eq!(contract.len(), 0);
}

#[test]
fn parameter_with_two_roles_is_rejected() {
    let mut contract = Contract::new();
    let sig = signature("f", vec![param("a", "u8")]);
    let route = rest(
        HttpVerb::Post,
        "/f/{a}".to_string(),
        vec![],
        vec![ParamMapping::shorthand("a".to_string())],
    );
    assert_eq!(contract.register_method(sig, Some(route)), Err(ContractError::AmbiguousParameterRole));
    let sig = signature("g", vec![param("a", "u8")]);
    let route = rest(
        HttpVerb::Post,
        "/g".to_string(),
        vec![ParamMapping::shorthand("a".to_string())],
        vec![ParamMapping::shorthand("a".to_string())],
    );
    assert_eq!(contract.register_method(sig, Some(route)), Err(ContractError::AmbiguousParameterRole));
    let sig = signature("h", vec![param("a", "u8")]);
    let route = rest(HttpVerb::Get, "/h/{a}/{a}".to_string(), vec![], vec![]);
    assert_eq!(contract.register_method(sig, Some(route)), Err(ContractError::AmbiguousParameterRole));
}

#[test]
fn route_that_names_no_parameter_is_rejected() {
    let mut contract = Contract::new();
    let sig = signature("f", vec![param("a", "u8")]);
    let route = rest(HttpVerb::Get, "/f/{a}/{b}".to_string(), vec![], vec![]);
    assert_eq!(contract.register_method(sig, Some(route)), Err(ContractError::AmbiguousParameterRole));
    let sig = signature("g", vec![param("a", "u8")]);
    let route = rest(
        HttpVerb::Get,
        "/g/{a}".to_string(),
        vec![ParamMapping::renamed("a".to_string(), "limit".to_string())],
        vec![],
    );
    assert_eq!(contract.register_method(sig, Some(route)), Err(ContractError::AmbiguousParameterRole));
}

#[test]
fn alias_does_not_count_as_the_parameter() {
    let mut contract = Contract::new();
    let sig = signature("search", vec![param("search_query", "String")]);
    let route = rest(
        HttpVerb::Get,
        "/search".to_string(),
        vec![ParamMapping::renamed("q".to_string(), "search_query".to_string())],
        vec![],
    );
    assert_eq!(contract.register_method(sig, Some(route)), Ok(()));
}

#[test]
fn shorthand_mapping_keeps_the_name() {
    let m = ParamMapping::shorthand("limit".to_string());
    assert_eq!(m.public_name, "limit");
    assert_eq!(m.private_name, "limit");
    let m = ParamMapping::renamed("q".to_string(), "search_query".to_string());
    assert_eq!(m.public_name, "q");
    assert_eq!(m.private_name, "search_query");
}

#[test]
fn path_is_cut_at_every_slash() {
    assert_eq!(split_path("/users/{user_id}/settings"), strings(&["", "users", "{user_id}", "settings"]));
    assert_eq!(split_path(""), strings(&[""]));
    assert_eq!(split_path("/"), strings(&["", ""]));
    assert_eq!(split_path("a//b/"), strings(&["a", "", "b", ""]));
    assert_eq!(split_path("plain"), strings(&["plain"]));
}

#[test]
fn placeholders_are_segments_in_braces() {
    assert_eq!(path_placeholders("/users/{user_id}/items/{item}"), strings(&["user_id", "item"]));
    assert_eq!(path_placeholders("/greet/:name"), Vec::<String>::new());
    assert_eq!(path_placeholders("/a/{b/c}"), Vec::<String>::new());
    assert_eq!(path_placeholders("/a/x{b}"), Vec::<String>::new());
    assert_eq!(path_placeholders("/{}"), strings(&[""]));
    assert_eq!(path_placeholders("/{"), Vec::<String>::new());
}

#[test]
fn path_fits_template_segment_by_segment() {
    let template = split_path("/users/{user_id}/settings");
    assert_eq!(match_path(&template, &split_path("/users/101/settings")), Some(strings(&["101"])));
    assert_eq!(match_path(&template, &split_path("/users/101/other")), None);
    assert_eq!(match_path(&template, &split_path("/users/101")), None);
    assert_eq!(match_path(&template, &split_path("/users//settings")), None);
    assert_eq!(match_path(&template, &split_path("/users/101/settings/")), None);
    let two = split_path("/{a}/x/{b}");
    assert_eq!(match_path(&two, &split_path("/1/x/2")), Some(strings(&["1", "2"])));
}

#[test]
fn error_description_has_the_prefix() {
    let e = RpcError::InternalError("Name cannot be empty".to_string());
    assert_eq!(e.description(), "Internal server error: Name cannot be empty");
    let e = RpcError::from("disk full".to_string());
    assert_eq!(e, RpcError::InternalError("disk full".to_string()));
    assert_eq!(RpcError::InternalError(String::new()).description(), "Internal server error: ");
}

#[test]
fn signature_follows_the_declaration() {
    let declaration = MethodDeclaration {
        name: "update_settings".to_string(),
        receiver: Receiver::Exclusive,
        inputs: vec![param("user_id", "u64")],
        output: ReturnDeclaration::Path {
            segments: strings(&["std", "result", "Result"]),
            text: "std::result::Result<String, RpcError>".to_string(),
        },
    };
    let s = MethodSignature::from_declaration(declaration);
    assert_eq!(s.name, "update_settings");
    assert_eq!(s.parameters.len(), 1);
    assert_eq!(s.parameters[0].name, "user_id");
    assert_eq!(s.return_type, "std::result::Result<String, RpcError>");
    assert!(s.is_fallible);
    assert!(s.requires_exclusive_access);
}

#[test]
fn only_a_path_that_ends_in_result_is_fallible() {
    let declare = |output: ReturnDeclaration| MethodDeclaration {
        name: "f".to_string(),
        receiver: Receiver::Shared,
        inputs: vec![],
        output,
    };
    let wrapped = ReturnDeclaration::Path { segments: strings(&["MyResult"]), text: "MyResult".to_string() };
    let s = MethodSignature::from_declaration(declare(wrapped));
    assert!(!s.is_fallible);
    assert!(!s.requires_exclusive_access);
    let inner = ReturnDeclaration::Path {
        segments: strings(&["Result", "Inner"]),
        text: "Result::Inner".to_string(),
    };
    assert!(!MethodSignature::from_declaration(declare(inner)).is_fallible);
    let empty = ReturnDeclaration::Path { segments: vec![], text: String::new() };
    assert!(!MethodSignature::from_declaration(declare(empty)).is_fallible);
    let tuple = ReturnDeclaration::Other { text: "(Result<u8, E>, u8)".to_string() };
    let s = MethodSignature::from_declaration(declare(tuple));
    assert!(!s.is_fallible);
    assert_eq!(s.return_type, "(Result<u8, E>, u8)");
    let s = MethodSignature::from_declaration(declare(ReturnDeclaration::Unit));
    assert!(!s.is_fallible);
    assert_eq!(s.return_type, "()");
    let plain = ReturnDeclaration::Path { segments: strings(&["Result"]), text: "Result<u8, E>".to_string() };
    assert!(MethodSignature::from_declaration(declare(plain)).is_fallible);
}
