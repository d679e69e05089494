//! The protocols that a contract is served over, and what they share.

pub mod jsonrpsee;
pub mod rest_axum;
pub mod tarpc;

use vstd::prelude::*;
use crate::contract::Contract;
use crate::contract::HttpVerb;
use crate::contract::MethodEntry;
use crate::contract::ParamMapping;
use crate::contract::Parameter;
use crate::contract::RouteMetadata;
use crate::contract::names_of;
use crate::contract::param_names;
use crate::error::RpcError;
use crate::protocols::jsonrpsee::JsonRpcAdapter;
use crate::protocols::rest_axum::RestAdapter;
use crate::protocols::tarpc::StreamAdapter;
use crate::text::all_found;
use crate::text::find_all;
use crate::text::is_first_index;
use crate::text::pair_views;
use crate::text::values_under;
use crate::text::views;

pub use crate::protocols::jsonrpsee::JsonRpSee;
pub use crate::protocols::rest_axum::RestAxum;
pub use crate::protocols::tarpc::Tarpc;

verus! {

/// How a call of a method ended. A return value comes as the JSON text it
/// was encoded to, or, where it could not be encoded, as the encoder's message.
#[derive(Debug, PartialEq, Eq)]
pub enum MethodOutcome {
    /// What a method that cannot fail returned.
    Plain(Result<String, String>),
    /// The success branch of a fallible method.
    Success(Result<String, String>),
    /// The error branch of a fallible method.
    Failure(RpcError),
}

/// What a client gets from a method.
#[derive(Debug)]
pub enum WireReturn {
    /// The value as the method declares it.
    Declared { ty: String, fallible: bool },
    /// A generic value, or an error object.
    GenericValue,
}

/// One method as a client of a protocol sees it.
#[derive(Debug)]
pub struct WireMethod {
    pub name: String,
    pub parameters: Vec<Parameter>,
    pub output: WireReturn,
}

/// The methods that a protocol offers its clients.
#[derive(Debug)]
pub struct WireInterface {
    pub methods: Vec<WireMethod>,
}

/// A method in a dispatch table: its name and the names of its parameters,
/// in declared order.
#[derive(Debug)]
pub struct DispatchEntry {
    pub name: String,
    pub parameters: Vec<String>,
}

/// The arguments of a call as they come off the wire: by position, or each
/// under the name of its parameter.
#[derive(Debug, Clone, PartialEq, Eq)]
pub enum CallParams {
    Positional(Vec<String>),
    Named(Vec<(String, String)>),
}

/// The adapter of one protocol.
#[derive(Debug)]
pub enum Adapter {
    Stream(StreamAdapter),
    Rest(RestAdapter),
    JsonRpc(JsonRpcAdapter),
}

/// The adapters of all protocols, made from one contract.
#[derive(Debug)]
pub struct Adapters {
    pub stream: StreamAdapter,
    pub rest: RestAdapter,
    pub json_rpc: JsonRpcAdapter,
}

/// The client interfaces of all protocols, made from one contract.
#[derive(Debug)]
pub struct Interfaces {
    pub stream: WireInterface,
    pub rest: WireInterface,
    pub json_rpc: WireInterface,
}

/// What every protocol makes of a contract.
pub trait Protocol {
    /// The interface that the protocol offers its clients.
    fn transform_trait(&self, contract: &Contract) -> (interface: WireInterface);

    /// The adapter that serves the contract over the protocol.
    fn transform_impl(&self, contract: &Contract) -> (adapter: Adapter);
}

/// `table` lists the methods of `entries`, each with its name and the
/// names of its parameters.
pub open spec fn lists_methods(table: Seq<DispatchEntry>, entries: Seq<MethodEntry>) -> bool {
    &&& table.len() == entries.len()
    &&& forall|i: int|
        0 <= i < entries.len() ==> (#[trigger] table[i]).name@ == entries[i].signature.name@
            && views(table[i].parameters@) == param_names(entries[i].signature.parameters@)
}

/// `interface` offers the methods of `entries`, each with its name and its
/// parameters: returning what it declares, or, where `generic` holds, a
/// generic value.
pub open spec fn offers(interface: Seq<WireMethod>, entries: Seq<MethodEntry>, generic: bool) -> bool {
    &&& interface.len() == entries.len()
    &&& forall|i: int|
        0 <= i < entries.len() ==> {
            let m = #[trigger] interface[i];
            let s = entries[i].signature;
            m.name@ == s.name@ && m.parameters@ == s.parameters@ && match m.output {
                WireReturn::Declared { ty, fallible } => !generic && ty@ == s.return_type@
                    && fallible == s.is_fallible,
                WireReturn::GenericValue => generic,
            }
        }
}

/// The interface that offers the methods of a contract.
pub fn wire_interface(contract: &Contract, generic: bool) -> (interface: WireInterface)
    ensures
        offers(interface.methods@, contract.entries(), generic),
{
    let methods = contract.methods();
    let mut out: Vec<WireMethod> = Vec::new();
    let mut i: usize = 0;
    while i < methods.len()
        invariant
            i <= methods.len(),
            methods@ == contract.entries(),
            offers(out@, methods@.take(i as int), generic),
        decreases methods.len() - i,
    {
        let output = if generic {
            WireReturn::GenericValue
        } else {
            WireReturn::Declared {
                ty: methods[i].signature.return_type.clone(),
                fallible: methods[i].signature.is_fallible,
            }
        };
        let method = WireMethod {
            name: methods[i].signature.name.clone(),
            parameters: copy_parameters(&methods[i].signature.parameters),
            output,
        };
        out.push(method);
        i += 1;
    }
    proof {
        assert(methods@.take(methods.len() as int) =~= methods@);
    }
    WireInterface { methods: out }
}

/// The names of the methods of a dispatch table.
pub open spec fn table_names(table: Seq<DispatchEntry>) -> Seq<Seq<char>> {
    Seq::new(table.len(), |i: int| table[i].name@)
}

/// The dispatch table of a contract.
pub fn dispatch_table(contract: &Contract) -> (table: Vec<DispatchEntry>)
    ensures
        lists_methods(table@, contract.entries()),
{
    let methods = contract.methods();
    let mut table: Vec<DispatchEntry> = Vec::new();
    let mut i: usize = 0;
    while i < methods.len()
        invariant
            i <= methods.len(),
            methods@ == contract.entries(),
            lists_methods(table@, methods@.take(i as int)),
        decreases methods.len() - i,
    {
        let entry = DispatchEntry {
            name: methods[i].signature.name.clone(),
            parameters: names_of(&methods[i].signature.parameters),
        };
        table.push(entry);
        i += 1;
    }
    proof {
        assert(methods@.take(methods.len() as int) =~= methods@);
    }
    table
}

/// What a dispatch table makes of a call by name.
#[derive(Debug, Clone, PartialEq, Eq)]
pub enum Selection {
    /// The method at this place is to be called with these arguments, which
    /// stand in the declared order of its parameters.
    Call { method: usize, arguments: Vec<String> },
    /// No method has the name.
    UnknownMethod,
    /// The method of that name does not take these arguments.
    InvalidParams,
}

/// The arguments are what a method with these parameters takes: as many
/// by position, or one by name for each parameter.
pub open spec fn fits(params: CallParams, names: Seq<Seq<char>>) -> bool {
    match params {
        CallParams::Positional(values) => values@.len() == names.len(),
        CallParams::Named(pairs) => all_found(names, pair_views(pairs@)),
    }
}

/// `arguments` are the arguments of a call in the declared order of the
/// parameters: those by position as they came, those by name each looked up
/// under the name of its parameter.
pub open spec fn arguments_for(params: CallParams, names: Seq<Seq<char>>, arguments: Seq<String>) -> bool {
    match params {
        CallParams::Positional(values) => values@.len() == names.len() && arguments == values@,
        CallParams::Named(pairs) => values_under(names, pair_views(pairs@), arguments),
    }
}

/// `selection` is what `table` makes of a call of `name` with `params`:
/// the first method of that name, if it takes them.
pub open spec fn selects(
    table: Seq<DispatchEntry>,
    name: Seq<char>,
    params: CallParams,
    selection: Selection,
) -> bool {
    match selection {
        Selection::Call { method, arguments } => is_first_index(
            table_names(table),
            name,
            Some(method),
        ) && arguments_for(params, views(table[method as int].parameters@), arguments@),
        Selection::UnknownMethod => is_first_index(table_names(table), name, None),
        Selection::InvalidParams => exists|i: usize|
            #[trigger] is_first_index(table_names(table), name, Some(i)) && !fits(
                params,
                views(table[i as int].parameters@),
            ),
    }
}

/// What `table` makes of a call of `name` with `params`.
pub fn select(table: &Vec<DispatchEntry>, name: &String, params: CallParams) -> (selection: Selection)
    ensures
        selects(table@, name@, params, selection),
{
    match find_entry(table, name) {
        Some(i) => {
            let names = &table[i].parameters;
            proof {
                assert(views(names@).len() == names.len());
            }
            match params {
                CallParams::Positional(values) => {
                    if values.len() == names.len() {
                        Selection::Call { method: i, arguments: values }
                    } else {
                        Selection::InvalidParams
                    }
                },
                CallParams::Named(pairs) => {
                    match find_all(names, &pairs) {
                        Some(arguments) => Selection::Call { method: i, arguments },
                        None => Selection::InvalidParams,
                    }
                },
            }
        },
        None => Selection::UnknownMethod,
    }
}

/// The first method of `table` called `name`.
pub fn find_entry(table: &Vec<DispatchEntry>, name: &String) -> (found: Option<usize>)
    ensures
        is_first_index(table_names(table@), name@, found),
{
    let mut i: usize = 0;
    while i < table.len()
        invariant
            i <= table.len(),
            forall|k: int| 0 <= k < i ==> table_names(table@)[k] != name@,
        decreases table.len() - i,
    {
        if table[i].name == *name {
            return Some(i);
        }
        i += 1;
    }
    None
}

/// A copy of `params`.
pub fn copy_parameters(params: &Vec<Parameter>) -> (copy: Vec<Parameter>)
    ensures
        copy@ == params@,
{
    let mut copy: Vec<Parameter> = Vec::new();
    let mut i: usize = 0;
    while i < params.len()
        invariant
            i <= params.len(),
            copy@ == params@.take(i as int),
        decreases params.len() - i,
    {
        let p = Parameter { name: params[i].name.clone(), ty: params[i].ty.clone() };
        assert(p == params[i as int]);
        copy.push(p);
        proof {
            assert(params@.take(i + 1) =~= params@.take(i as int).push(params[i as int]));
        }
        i += 1;
    }
    proof {
        assert(params@.take(params.len() as int) =~= params@);
    }
    copy
}

/// The client interfaces of all protocols for one contract.
pub fn multi_rpc_trait(contract: &Contract) -> (interfaces: Interfaces)
    ensures
        offers(interfaces.stream.methods@, contract.entries(), false),
        interfaces.rest.methods@.len() == 0,
        offers(interfaces.json_rpc.methods@, contract.entries(), true),
{
    Interfaces {
        stream: Tarpc.transform_trait(contract),
        rest: RestAxum.transform_trait(contract),
        json_rpc: JsonRpSee.transform_trait(contract),
    }
}

/// The adapters of all protocols for one contract. All of them call the
/// methods of the one contract, each protocol in its own way.
pub fn multi_rpc_impl(contract: &Contract) -> (adapters: Adapters)
    ensures
        adapters.stream.plans_contract(contract.entries()),
        adapters.rest.wf(),
        adapters.rest.plans_contract(contract.entries()),
        adapters.json_rpc.plans_contract(contract.entries()),
{
    let stream = Tarpc.adapter(contract);
    let rest = RestAxum.adapter(contract);
    let json_rpc = JsonRpSee.adapter(contract);
    Adapters { stream, rest, json_rpc }
}

/// The route of a method served over HTTP: its verb, its path template, and
/// the parameters that come from the query string and from the body.
pub fn rest(
    method: HttpVerb,
    path: String,
    query: Vec<ParamMapping>,
    body: Vec<ParamMapping>,
) -> (route: RouteMetadata)
    ensures
        route.http_verb == method,
        route.path_template == path,
        route.query_params == query,
        route.body_params == body,
{
    RouteMetadata { http_verb: method, path_template: path, query_params: query, body_params: body }
}

} // verus!
