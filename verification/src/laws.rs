//! What holds of the library across its functions, each proved from the
//! contracts of the functions it speaks of.

use vstd::prelude::*;
use crate::contract::entry_valid;
use crate::contract::method_names;
use crate::contract::param_names;
use crate::contract::registration_error;
use crate::contract::Contract;
use crate::contract::MethodEntry;
use crate::contract::HttpVerb;
use crate::contract::MethodSignature;
use crate::contract::RouteMetadata;
use crate::error::ContractError;
use crate::error::RpcError;
use crate::protocols::jsonrpsee;
use crate::protocols::jsonrpsee::RpcErrorObject;
use crate::protocols::rest_axum;
use crate::protocols::rest_axum::ResponseBody;
use crate::protocols::rest_axum::RestAdapter;
use crate::protocols::rest_axum::RestDecision;
use crate::protocols::rest_axum::RestResponse;
use crate::protocols::tarpc;
use crate::protocols::tarpc::FramePayload;
use crate::protocols::tarpc::ResponseFrame;
use crate::protocols::fits;
use crate::protocols::lists_methods;
use crate::protocols::selects;
use crate::protocols::table_names;
use crate::protocols::CallParams;
use crate::protocols::DispatchEntry;
use crate::protocols::MethodOutcome;
use crate::protocols::Selection;
use crate::text::is_first_index;
use crate::text::lookup;
use crate::text::pair_views;
use crate::text::views;

verus! {

/// A method cannot join a contract that holds a method of its name,
/// whatever its parameters and its route.
pub proof fn lemma_taken_name_rejected(
    entries: Seq<MethodEntry>,
    signature: MethodSignature,
    route: Option<RouteMetadata>,
)
    requires
        method_names(entries).contains(signature.name@),
    ensures
        registration_error(entries, signature, route) == Some(ContractError::DuplicateMethodName),
{
}

/// Of two methods of one name, the one that comes after the other is
/// rejected as a duplicate.
pub proof fn lemma_second_of_a_name_rejected(
    entries: Seq<MethodEntry>,
    first: MethodEntry,
    signature: MethodSignature,
    route: Option<RouteMetadata>,
)
    requires
        first.signature.name@ == signature.name@,
    ensures
        registration_error(entries.push(first), signature, route) == Some(
            ContractError::DuplicateMethodName,
        ),
{
    let names = method_names(entries.push(first));
    assert(names[entries.len() as int] == signature.name@);
}

/// A method with a route is registered only where the route gives every
/// parameter exactly one role among the path, the query string and the body:
/// a parameter with no role, or with two, has the method rejected.
pub proof fn lemma_roles_exactly_once(
    entries: Seq<MethodEntry>,
    signature: MethodSignature,
    route: RouteMetadata,
    k: int,
)
    requires
        0 <= k < signature.parameters@.len(),
    ensures
        registration_error(entries, signature, Some(route)).is_none() ==> route.role_count(
            signature.parameters@[k].name@,
        ) == 1,
        route.role_count(signature.parameters@[k].name@) != 1 ==> registration_error(
            entries,
            signature,
            Some(route),
        ).is_some(),
{
    let names = param_names(signature.parameters@);
    assert(names[k] == signature.parameters@[k].name@);
}

/// In a contract, every parameter of a method with a route has exactly one
/// role in that route.
pub proof fn lemma_registered_parameter_has_one_role(contract: Contract, i: int, k: int)
    requires
        contract.wf(),
        0 <= i < contract.entries().len(),
        contract.entries()[i].route.is_some(),
        0 <= k < contract.entries()[i].signature.parameters@.len(),
    ensures
        contract.entries()[i].route.unwrap().role_count(
            contract.entries()[i].signature.parameters@[k].name@,
        ) == 1,
{
    let entry = contract.entries()[i];
    assert(entry_valid(entry));
    let names = param_names(entry.signature.parameters@);
    assert(names[k] == entry.signature.parameters@[k].name@);
}

/// The value `v` that a fallible method returns reaches the client of every
/// protocol as `v`.
pub proof fn lemma_success_round_trip(
    v: String,
    token: u64,
    response: RestResponse,
    reply: Result<String, RpcErrorObject>,
)
    requires
        rest_axum::response_of(MethodOutcome::Success(Ok(v)), response),
        jsonrpsee::reply_of(MethodOutcome::Success(Ok(v)), reply),
    ensures
        rest_axum::reading_of(response) == Ok::<String, String>(v),
        jsonrpsee::reading_of(reply) == Ok::<String, String>(v),
        tarpc::reading_of(tarpc::frame_of(token, MethodOutcome::Success(Ok(v)))) == Ok::<
            String,
            RpcError,
        >(v),
{
}

/// The error `e` that a fallible method returns reaches the client over
/// HTTP as status 500 with the description of `e` as the body, over JSON-RPC
/// as an internal error with that description as its message, and over a
/// stream as a frame that holds `e` itself.
pub proof fn lemma_failure_carried(
    e: RpcError,
    token: u64,
    response: RestResponse,
    reply: Result<String, RpcErrorObject>,
)
    requires
        rest_axum::response_of(MethodOutcome::Failure(e), response),
        jsonrpsee::reply_of(MethodOutcome::Failure(e), reply),
    ensures
        response.status == 500,
        match response.body {
            ResponseBody::Text(t) => t@ == e.description_text(),
            ResponseBody::Json(_) => false,
        },
        reply.is_err(),
        reply.unwrap_err().code == jsonrpsee::INTERNAL_ERROR_CODE,
        reply.unwrap_err().message@ == e.description_text(),
        tarpc::frame_of(token, MethodOutcome::Failure(e)) == (ResponseFrame {
            token,
            payload: FramePayload::Error(e),
        }),
        tarpc::reading_of(tarpc::frame_of(token, MethodOutcome::Failure(e))) == Err::<
            String,
            RpcError,
        >(e),
{
}

/// A dispatch table makes one thing only of a call: one method with one
/// list of arguments, or one kind of refusal.
pub proof fn lemma_selection_unique(
    table: Seq<DispatchEntry>,
    name: Seq<char>,
    params: CallParams,
    a: Selection,
    b: Selection,
)
    requires
        selects(table, name, params, a),
        selects(table, name, params, b),
    ensures
        match (a, b) {
            (
                Selection::Call { method: m1, arguments: a1 },
                Selection::Call { method: m2, arguments: a2 },
            ) => m1 == m2 && views(a1@) == views(a2@),
            (Selection::UnknownMethod, Selection::UnknownMethod) => true,
            (Selection::InvalidParams, Selection::InvalidParams) => true,
            _ => false,
        },
{
    match (a, b) {
        (
            Selection::Call { method: m1, arguments: a1 },
            Selection::Call { method: m2, arguments: a2 },
        ) => {
            assert(m1 == m2);
            assert(views(a1@) =~= views(a2@));
        },
        (Selection::Call { method, arguments }, Selection::InvalidParams) => {
            lemma_call_fits(table, name, params, method, arguments);
        },
        (Selection::InvalidParams, Selection::Call { method, arguments }) => {
            lemma_call_fits(table, name, params, method, arguments);
        },
        _ => {},
    }
}

proof fn lemma_call_fits(
    table: Seq<DispatchEntry>,
    name: Seq<char>,
    params: CallParams,
    method: usize,
    arguments: Vec<String>,
)
    requires
        selects(table, name, params, (Selection::Call { method, arguments })),
    ensures
        fits(params, views(table[method as int].parameters@)),
{
    let names = views(table[method as int].parameters@);
    match params {
        CallParams::Positional(_) => {},
        CallParams::Named(pairs) => {
            assert forall|k: int| 0 <= k < names.len() implies lookup(
                pair_views(pairs@),
                #[trigger] names[k],
            ).is_some() by {
                assert(lookup(pair_views(pairs@), names[k]) == Some(arguments@[k]@));
            }
        },
    }
}

/// Tables made from one contract make the same of a call: the stream
/// adapter and the JSON-RPC adapter call the same method with the same
/// arguments, or both turn the call down for the same reason.
pub proof fn lemma_dispatch_agrees(
    a: Seq<DispatchEntry>,
    b: Seq<DispatchEntry>,
    entries: Seq<MethodEntry>,
    name: Seq<char>,
    params: CallParams,
    selection: Selection,
)
    requires
        lists_methods(a, entries),
        lists_methods(b, entries),
        selects(a, name, params, selection),
    ensures
        selects(b, name, params, selection),
{
    assert(table_names(a) =~= table_names(b)) by {
        assert forall|i: int| 0 <= i < a.len() implies table_names(a)[i] == table_names(b)[i] by {
            assert(a[i].name@ == entries[i].signature.name@);
            assert(b[i].name@ == entries[i].signature.name@);
        }
    }
    assert forall|i: int| 0 <= i < a.len() implies views(a[i].parameters@) == views(
        b[i].parameters@,
    ) by {
        assert(views(a[i].parameters@) == param_names(entries[i].signature.parameters@));
        assert(views(b[i].parameters@) == param_names(entries[i].signature.parameters@));
    }
    match selection {
        Selection::InvalidParams => {
            let i = choose|i: usize|
                #[trigger] is_first_index(table_names(a), name, Some(i)) && !fits(
                    params,
                    views(a[i as int].parameters@),
                );
            assert(is_first_index(table_names(b), name, Some(i)));
        },
        _ => {},
    }
}

/// A call that a dispatch table lets through goes to the method of the
/// contract that has the name of the call, with one argument for each of
/// its parameters.
pub proof fn lemma_call_reaches_the_named_method(
    table: Seq<DispatchEntry>,
    entries: Seq<MethodEntry>,
    name: Seq<char>,
    params: CallParams,
    method: usize,
    arguments: Vec<String>,
)
    requires
        lists_methods(table, entries),
        selects(table, name, params, (Selection::Call { method, arguments })),
    ensures
        method < entries.len(),
        entries[method as int].signature.name@ == name,
        arguments@.len() == entries[method as int].signature.parameters@.len(),
{
    assert(table_names(table)[method as int] == table[method as int].name@);
    assert(table[method as int].name@ == entries[method as int].signature.name@);
    assert(views(table[method as int].parameters@).len() == param_names(
        entries[method as int].signature.parameters@,
    ).len());
}

/// A request that a route table lets through goes to a method of the
/// contract that declares a route with the verb of the request, with one
/// argument for each of its parameters.
pub proof fn lemma_request_reaches_a_routed_method(
    adapter: RestAdapter,
    entries: Seq<MethodEntry>,
    verb: HttpVerb,
    path: Seq<Seq<char>>,
    query: Seq<(Seq<char>, Seq<char>)>,
    body: Option<Seq<(Seq<char>, Seq<char>)>>,
    method: usize,
    arguments: Vec<String>,
)
    requires
        adapter.plans_contract(entries),
        adapter.decision_for(verb, path, query, body, (RestDecision::Invoke { method, arguments })),
    ensures
        method < entries.len(),
        entries[method as int].route.is_some(),
        entries[method as int].route.unwrap().http_verb == verb,
        arguments@.len() == entries[method as int].signature.parameters@.len(),
{
    lemma_first_serving(adapter, verb, path, 0);
    let i = adapter.first_serving(verb, path, 0).unwrap();
    assert(adapter.serves(i, verb, path));
    let route = adapter.routes@[i].unwrap();
    assert(route.plans(entries[i]));
}

proof fn lemma_first_serving(adapter: RestAdapter, verb: HttpVerb, path: Seq<Seq<char>>, from: int)
    requires
        0 <= from,
    ensures
        match adapter.first_serving(verb, path, from) {
            Some(i) => from <= i < adapter.routes@.len() && adapter.serves(i, verb, path),
            None => true,
        },
    decreases adapter.routes@.len() - from,
{
    if from < adapter.routes@.len() && !adapter.serves(from, verb, path) {
        lemma_first_serving(adapter, verb, path, from + 1);
    }
}

} // verus!
