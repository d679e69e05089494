//! The service contract: the methods a service offers, whatever the protocol.

use vstd::prelude::*;
use crate::error::ContractError;
use crate::path::path_placeholders;
use crate::path::placeholder_names;
use crate::path::segments;
use crate::text::all_distinct;
use crate::text::all_known;
use crate::text::count_in;
use crate::text::count_of;
use crate::text::distinct;
use crate::text::is_first_index;
use crate::text::views;

verus! {

/// The verb of an HTTP request.
#[derive(Debug, Clone, Copy, PartialEq, Eq, Structural)]
pub enum HttpVerb {
    Get,
    Post,
    Put,
    Delete,
    Patch,
    Head,
    Options,
    Trace,
    Connect,
}

/// One parameter of a method: its name and the name of its type.
#[derive(Debug, Clone)]
pub struct Parameter {
    pub name: String,
    pub ty: String,
}

/// One method of a contract.
#[derive(Debug, Clone)]
pub struct MethodSignature {
    /// The name on the wire; no two methods of a contract share it.
    pub name: String,
    /// The parameters in declared order, the service itself left out.
    pub parameters: Vec<Parameter>,
    /// The type of the value that the method returns.
    pub return_type: String,
    /// Whether the method returns a union of a success and an error.
    pub is_fallible: bool,
    /// Whether the method changes the state of the service.
    pub requires_exclusive_access: bool,
}

/// How a method takes the service.
#[derive(Debug, Clone, Copy, PartialEq, Eq, Structural)]
pub enum Receiver {
    /// By shared reference: the method reads the service.
    Shared,
    /// By mutable reference: the method changes the service.
    Exclusive,
}

/// What a method is declared to return.
#[derive(Debug, Clone)]
pub enum ReturnDeclaration {
    /// Nothing is declared.
    Unit,
    /// A type written as a path, such as `std::result::Result<u8, E>`: the
    /// names of the segments of the path, and the type as it is written.
    Path { segments: Vec<String>, text: String },
    /// A type of any other form, as it is written.
    Other { text: String },
}

/// A method as its service declares it.
#[derive(Debug, Clone)]
pub struct MethodDeclaration {
    pub name: String,
    pub receiver: Receiver,
    /// The parameters behind the receiver.
    pub inputs: Vec<Parameter>,
    pub output: ReturnDeclaration,
}

/// A parameter under the name it has on the wire.
#[derive(Debug, Clone)]
pub struct ParamMapping {
    /// The name on the wire.
    pub public_name: String,
    /// The name of the parameter.
    pub private_name: String,
}

/// How a method is reached over HTTP.
#[derive(Debug, Clone)]
pub struct RouteMetadata {
    pub http_verb: HttpVerb,
    /// The path, with a placeholder in braces for each parameter taken from it.
    pub path_template: String,
    /// The parameters taken from the query string.
    pub query_params: Vec<ParamMapping>,
    /// The parameters taken from the body.
    pub body_params: Vec<ParamMapping>,
}

/// A registered method and its route, if it has one.
#[derive(Debug, Clone)]
pub struct MethodEntry {
    pub signature: MethodSignature,
    pub route: Option<RouteMetadata>,
}

/// The methods of one service. No two share a name, no method has two
/// parameters of one name, and every route gives each parameter one role.
#[derive(Debug)]
pub struct Contract {
    methods: Vec<MethodEntry>,
}

/// The names of `params`, in declared order.
pub open spec fn param_names(params: Seq<Parameter>) -> Seq<Seq<char>> {
    Seq::new(params.len(), |i: int| params[i].name@)
}

/// The parameter names that `maps` speaks of.
pub open spec fn private_names(maps: Seq<ParamMapping>) -> Seq<Seq<char>> {
    Seq::new(maps.len(), |i: int| maps[i].private_name@)
}

/// The names of the methods of `entries`.
pub open spec fn method_names(entries: Seq<MethodEntry>) -> Seq<Seq<char>> {
    Seq::new(entries.len(), |i: int| entries[i].signature.name@)
}

/// Whether an entry may stand in a contract.
pub open spec fn entry_valid(entry: MethodEntry) -> bool {
    let names = param_names(entry.signature.parameters@);
    distinct(names) && match entry.route {
        Some(route) => route.resolves(names),
        None => true,
    }
}

/// Why `signature` with `route` cannot join `entries`, or `None` where it can.
pub open spec fn registration_error(
    entries: Seq<MethodEntry>,
    signature: MethodSignature,
    route: Option<RouteMetadata>,
) -> Option<ContractError> {
    let names = param_names(signature.parameters@);
    if method_names(entries).contains(signature.name@) {
        Some(ContractError::DuplicateMethodName)
    } else if !distinct(names) {
        Some(ContractError::DuplicateParameterName)
    } else if route.is_some() && !route.unwrap().resolves(names) {
        Some(ContractError::AmbiguousParameterRole)
    } else {
        None
    }
}

/// The names of `params`, in declared order.
pub fn names_of(params: &Vec<Parameter>) -> (names: Vec<String>)
    ensures
        views(names@) == param_names(params@),
{
    let mut names: Vec<String> = Vec::new();
    let mut i: usize = 0;
    while i < params.len()
        invariant
            i <= params.len(),
            names.len() == i,
            forall|k: int| 0 <= k < i ==> names[k]@ == params[k].name@,
        decreases params.len() - i,
    {
        names.push(params[i].name.clone());
        i += 1;
    }
    proof {
        assert(views(names@) =~= param_names(params@));
    }
    names
}

/// The parameter names that `maps` speaks of.
pub fn private_names_of(maps: &Vec<ParamMapping>) -> (names: Vec<String>)
    ensures
        views(names@) == private_names(maps@),
{
    let mut names: Vec<String> = Vec::new();
    let mut i: usize = 0;
    while i < maps.len()
        invariant
            i <= maps.len(),
            names.len() == i,
            forall|k: int| 0 <= k < i ==> names[k]@ == maps[k].private_name@,
        decreases maps.len() - i,
    {
        names.push(maps[i].private_name.clone());
        i += 1;
    }
    proof {
        assert(views(names@) =~= private_names(maps@));
    }
    names
}

impl ParamMapping {
    /// A parameter that keeps its own name on the wire.
    pub fn shorthand(name: String) -> (m: ParamMapping)
        ensures
            m.public_name@ == name@,
            m.private_name@ == name@,
    {
        ParamMapping { public_name: name.clone(), private_name: name }
    }

    /// A parameter that goes by `public_name` on the wire.
    pub fn renamed(public_name: String, private_name: String) -> (m: ParamMapping)
        ensures
            m.public_name == public_name,
            m.private_name == private_name,
    {
        ParamMapping { public_name, private_name }
    }
}

impl RouteMetadata {
    /// The names in the placeholders of the path template.
    pub open spec fn path_names(&self) -> Seq<Seq<char>> {
        placeholder_names(segments(self.path_template@))
    }

    /// In how many places the route gives `name` a role: as a placeholder of
    /// the path, among the query parameters, among the body parameters.
    pub open spec fn role_count(&self, name: Seq<char>) -> nat {
        count_of(self.path_names(), name) + count_of(private_names(self.query_params@), name)
            + count_of(private_names(self.body_params@), name)
    }

    /// Every name that the route speaks of is one of `params`.
    pub open spec fn names_known(&self, params: Seq<Seq<char>>) -> bool {
        &&& forall|k: int|
            0 <= k < self.path_names().len() ==> params.contains(#[trigger] self.path_names()[k])
        &&& forall|k: int|
            0 <= k < self.query_params@.len() ==> params.contains(
                #[trigger] private_names(self.query_params@)[k],
            )
        &&& forall|k: int|
            0 <= k < self.body_params@.len() ==> params.contains(
                #[trigger] private_names(self.body_params@)[k],
            )
    }

    /// The route gives each of `params` exactly one role, and speaks of
    /// nothing else.
    pub open spec fn resolves(&self, params: Seq<Seq<char>>) -> bool {
        &&& self.names_known(params)
        &&& forall|k: int| 0 <= k < params.len() ==> self.role_count(#[trigger] params[k]) == 1
    }

    /// Whether the route gives each of `params` exactly one role.
    pub fn check_roles(&self, params: &Vec<String>) -> (ok: bool)
        ensures
            ok == self.resolves(views(params@)),
    {
        let path = path_placeholders(self.path_template.as_str());
        let query = private_names_of(&self.query_params);
        let body = private_names_of(&self.body_params);
        proof {
            assert(views(path@).len() == path.len());
            assert(views(query@).len() == query.len());
            assert(views(body@).len() == body.len());
            assert(private_names(self.query_params@).len() == self.query_params@.len());
            assert(private_names(self.body_params@).len() == self.body_params@.len());
        }
        if !all_known(&path, params) {
            proof {
                if self.names_known(views(params@)) {
                    assert forall|k: int| 0 <= k < path.len() implies views(params@).contains(
                        #[trigger] views(path@)[k],
                    ) by {
                        assert(views(params@).contains(self.path_names()[k]));
                    }
                }
            }
            return false;
        }
        if !all_known(&query, params) {
            return false;
        }
        if !all_known(&body, params) {
            return false;
        }
        let mut i: usize = 0;
        while i < params.len()
            invariant
                i <= params.len(),
                views(path@) == self.path_names(),
                views(query@) == private_names(self.query_params@),
                views(body@) == private_names(self.body_params@),
                forall|k: int| 0 <= k < i ==> self.role_count(#[trigger] views(params@)[k]) == 1,
            decreases params.len() - i,
        {
            let a = count_in(&path, &params[i]);
            let b = count_in(&query, &params[i]);
            let c = count_in(&body, &params[i]);
            let one = (a == 1 && b == 0 && c == 0) || (a == 0 && b == 1 && c == 0) || (a == 0 && b
                == 0 && c == 1);
            if !one {
                assert(self.role_count(views(params@)[i as int]) != 1);
                return false;
            }
            i += 1;
        }
        true
    }
}

impl ReturnDeclaration {
    /// The type is a path whose last segment is `Result`.
    pub open spec fn names_result(self) -> bool {
        match self {
            ReturnDeclaration::Path { segments, .. } => segments@.len() > 0 && segments@.last()@
                == "Result"@,
            _ => false,
        }
    }

    /// The type as it is written, `()` where nothing is declared.
    pub open spec fn written(self) -> Seq<char> {
        match self {
            ReturnDeclaration::Unit => "()"@,
            ReturnDeclaration::Path { text, .. } => text@,
            ReturnDeclaration::Other { text } => text@,
        }
    }
}

impl MethodSignature {
    /// The signature of a declared method. The method is fallible where
    /// the last segment of its return type is `Result`, and needs exclusive
    /// access where it takes the service by mutable reference.
    pub fn from_declaration(declaration: MethodDeclaration) -> (signature: MethodSignature)
        ensures
            signature.name == declaration.name,
            signature.parameters == declaration.inputs,
            signature.return_type@ == declaration.output.written(),
            signature.is_fallible == declaration.output.names_result(),
            signature.requires_exclusive_access == (declaration.receiver == Receiver::Exclusive),
    {
        let result = String::from_str("Result");
        let (return_type, is_fallible) = match declaration.output {
            ReturnDeclaration::Unit => (String::from_str("()"), false),
            ReturnDeclaration::Path { segments, text } => {
                let n = segments.len();
                let fallible = n > 0 && segments[n - 1] == result;
                (text, fallible)
            },
            ReturnDeclaration::Other { text } => (text, false),
        };
        let requires_exclusive_access = match declaration.receiver {
            Receiver::Exclusive => true,
            Receiver::Shared => false,
        };
        MethodSignature {
            name: declaration.name,
            parameters: declaration.inputs,
            return_type,
            is_fallible,
            requires_exclusive_access,
        }
    }
}

impl Contract {
    /// The registered methods, in the order of their registration.
    pub closed spec fn entries(&self) -> Seq<MethodEntry> {
        self.methods@
    }

    #[verifier::type_invariant]
    spec fn holds(&self) -> bool {
        self.wf()
    }

    /// What holds of every contract: no two methods share a name, no method
    /// has two parameters of one name, and every route gives each parameter
    /// of its method exactly one role.
    pub open spec fn wf(&self) -> bool {
        &&& distinct(method_names(self.entries()))
        &&& forall|i: int| 0 <= i < self.entries().len() ==> entry_valid(#[trigger] self.entries()[i])
    }

    /// A contract without methods.
    pub fn new() -> (contract: Contract)
        ensures
            contract.wf(),
            contract.entries() == Seq::<MethodEntry>::empty(),
    {
        Contract { methods: Vec::new() }
    }

    /// The registered methods, in the order of their registration.
    pub fn methods(&self) -> (methods: &Vec<MethodEntry>)
        ensures
            methods@ == self.entries(),
            self.wf(),
    {
        proof {
            use_type_invariant(self);
        }
        &self.methods
    }

    /// The number of registered methods.
    pub fn len(&self) -> (n: usize)
        ensures
            n == self.entries().len(),
    {
        self.methods.len()
    }

    /// The place of the method called `name`.
    pub fn find_method(&self, name: &str) -> (found: Option<usize>)
        ensures
            is_first_index(method_names(self.entries()), name@, found),
    {
        let wanted = String::from_str(name);
        let mut i: usize = 0;
        while i < self.methods.len()
            invariant
                i <= self.methods.len(),
                wanted@ == name@,
                forall|k: int| 0 <= k < i ==> method_names(self.entries())[k] != name@,
            decreases self.methods.len() - i,
        {
            if self.methods[i].signature.name == wanted {
                return Some(i);
            }
            i += 1;
        }
        None
    }

    /// Adds a method, with its route if it is served over HTTP. The contract
    /// stays as it was where the method cannot join it.
    pub fn register_method(&mut self, signature: MethodSignature, route: Option<RouteMetadata>) -> (done:
        Result<(), ContractError>)
        ensures
            old(self).wf(),
            final(self).wf(),
            match registration_error(old(self).entries(), signature, route) {
                Some(e) => done == Err::<(), ContractError>(e) && final(self).entries() == old(
                    self,
                ).entries(),
                None => done.is_ok() && final(self).entries() == old(self).entries().push(
                    (MethodEntry { signature, route }),
                ),
            },
    {
        proof {
            use_type_invariant(&*self);
        }
        let ghost before = self.entries();
        match self.find_method(signature.name.as_str()) {
            Some(j) => {
                assert(method_names(before)[j as int] == signature.name@);
                return Err(ContractError::DuplicateMethodName);
            },
            None => {},
        }
        let names = names_of(&signature.parameters);
        if !all_distinct(&names) {
            return Err(ContractError::DuplicateParameterName);
        }
        match &route {
            Some(r) => {
                if !r.check_roles(&names) {
                    return Err(ContractError::AmbiguousParameterRole);
                }
            },
            None => {},
        }
        let entry = MethodEntry { signature, route };
        let mut methods: Vec<MethodEntry> = Vec::new();
        proof {
            assert(method_names(methods@) =~= Seq::empty());
        }
        core::mem::swap(&mut self.methods, &mut methods);
        methods.push(entry);
        proof {
            let after = methods@;
            assert(method_names(after) =~= method_names(before).push(entry.signature.name@));
            assert forall|i: int| 0 <= i < after.len() implies entry_valid(#[trigger] after[i]) by {
                if i < before.len() {
                    assert(after[i] == before[i]);
                }
            }
        }
        self.methods = methods;
        Ok(())
    }
}

} // verus!
