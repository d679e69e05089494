//! The HTTP adapter: one route per method, arguments from the path, the
//! query string and the body, and the outcome as a status with a body.

use vstd::prelude::*;
use crate::contract::entry_valid;
use crate::contract::names_of;
use crate::contract::param_names;
use crate::contract::private_names;
use crate::contract::private_names_of;
use crate::contract::Contract;
use crate::contract::HttpVerb;
use crate::contract::MethodEntry;
use crate::contract::ParamMapping;
use crate::contract::Parameter;
use crate::contract::RouteMetadata;
use crate::path::captures;
use crate::path::count_placeholders;
use crate::path::lemma_captures_len;
use crate::path::match_path;
use crate::path::path_matches;
use crate::path::path_placeholders;
use crate::path::placeholder_names;
use crate::path::segments;
use crate::path::split_path;
use crate::protocols::Adapter;
use crate::protocols::MethodOutcome;
use crate::protocols::Protocol;
use crate::protocols::WireInterface;
use crate::text::find_value;
use crate::text::lemma_count_zero;
use crate::text::lookup;
use crate::text::pair_views;
use crate::text::position;
use crate::text::views;

verus! {

/// The HTTP protocol.
#[derive(Debug, Clone, Copy)]
pub struct RestAxum;

/// Where an argument of a method comes from: the n-th placeholder of the
/// path, the n-th field of the query record, or the n-th field of the body
/// record.
#[derive(Debug, Clone, Copy, PartialEq, Eq, Structural)]
pub enum ArgSource {
    Path(usize),
    Query(usize),
    Body(usize),
}

/// One field of a record that is read from a request: the name it has on
/// the wire, and the name and the type of the parameter that it fills.
#[derive(Debug, Clone, PartialEq, Eq)]
pub struct RecordField {
    pub wire_name: String,
    pub name: String,
    pub ty: String,
}

/// The route of one method.
#[derive(Debug)]
pub struct RestRoute {
    pub verb: HttpVerb,
    /// The segments of the path template.
    pub template: Vec<String>,
    /// The record read from the query string, each field under its wire name.
    pub query_fields: Vec<RecordField>,
    /// The record read from the body, each field under its wire name.
    pub body_fields: Vec<RecordField>,
    /// For each parameter in declared order, where its argument comes from.
    pub sources: Vec<ArgSource>,
    pub is_fallible: bool,
}

/// The route table: for each method of the contract its route, if it has one.
#[derive(Debug)]
pub struct RestAdapter {
    pub routes: Vec<Option<RestRoute>>,
}

/// An HTTP request as the server hands it over: the query string cut into
/// its pairs, the body as text.
#[derive(Debug)]
pub struct RestRequest {
    pub verb: HttpVerb,
    pub path: String,
    pub query: Vec<(String, String)>,
    pub body: Option<String>,
}

/// The body of an HTTP response.
#[derive(Debug, Clone, PartialEq, Eq)]
pub enum ResponseBody {
    /// A value, as JSON text.
    Json(String),
    /// Plain text.
    Text(String),
}

/// An HTTP response.
#[derive(Debug, Clone, PartialEq, Eq)]
pub struct RestResponse {
    pub status: u16,
    pub body: ResponseBody,
}

/// What to do with a request: call a method with these arguments, in the
/// declared order of its parameters, or turn the request down.
#[derive(Debug, Clone, PartialEq, Eq)]
pub enum RestDecision {
    Invoke { method: usize, arguments: Vec<String> },
    Reject { status: u16 },
}

/// What `serde_json` makes of `text` read as a map: the members in the
/// order in which the map hands them out, each value written back as JSON
/// text; `None` where it reads no map from `text`.
pub uninterp spec fn json_object_members(text: Seq<char>) -> Option<Seq<(Seq<char>, Seq<char>)>>;

/// Reads `text` with `serde_json::from_str` as a `serde_json::Map` and
/// hands out each member as its key and its value, the value written by
/// `serde_json::Value`'s `to_string`. The contract gives what comes back a
/// name and claims nothing else of it: that the same text is read the same
/// way every time, and that `None` comes back where the parser reports an
/// error.
#[verifier::external_body]
fn parse_object(text: &str) -> (members: Option<Vec<(String, String)>>)
    ensures
        match members {
            Some(m) => json_object_members(text@) == Some(pair_views(m@)),
            None => json_object_members(text@).is_none(),
        },
{
    match serde_json::from_str::<serde_json::Map<String, serde_json::Value>>(text) {
        Ok(map) => Some(map.into_iter().map(|(k, v)| (k, v.to_string())).collect()),
        Err(_) => None,
    }
}

/// The members of a decoded body.
pub open spec fn body_view(body: Option<Vec<(String, String)>>) -> Option<
    Seq<(Seq<char>, Seq<char>)>,
> {
    match body {
        Some(m) => Some(pair_views(m@)),
        None => None,
    }
}

/// The members of the body of a request.
pub open spec fn request_body(request: RestRequest) -> Option<Seq<(Seq<char>, Seq<char>)>> {
    match request.body {
        Some(text) => json_object_members(text@),
        None => None,
    }
}

/// The members of a body, none where there is no body.
pub open spec fn members_of(body: Option<Seq<(Seq<char>, Seq<char>)>>) -> Seq<
    (Seq<char>, Seq<char>),
> {
    match body {
        Some(m) => m,
        None => Seq::empty(),
    }
}

/// `fields` is the record that `maps` describe: a field for each mapping,
/// in order, under the mapping's wire name, with the name and the type of
/// the parameter that the mapping speaks of.
pub open spec fn record_shape(
    fields: Seq<RecordField>,
    maps: Seq<ParamMapping>,
    params: Seq<Parameter>,
) -> bool {
    &&& fields.len() == maps.len()
    &&& forall|j: int|
        0 <= j < maps.len() ==> {
            let f = #[trigger] fields[j];
            &&& f.wire_name@ == maps[j].public_name@
            &&& f.name@ == maps[j].private_name@
            &&& exists|k: int|
                0 <= k < params.len() && (#[trigger] params[k]).name@ == f.name@ && params[k].ty@
                    == f.ty@
        }
}

/// The record that `maps` describe.
fn record_fields(maps: &Vec<ParamMapping>, params: &Vec<Parameter>, names: &Vec<String>) -> (fields:
    Vec<RecordField>)
    requires
        views(names@) == param_names(params@),
        forall|j: int|
            0 <= j < maps@.len() ==> views(names@).contains(#[trigger] private_names(maps@)[j]),
    ensures
        record_shape(fields@, maps@, params@),
{
    let mut fields: Vec<RecordField> = Vec::new();
    let mut j: usize = 0;
    proof {
        assert(views(names@).len() == names.len());
        assert(param_names(params@).len() == params.len());
    }
    while j < maps.len()
        invariant
            j <= maps.len(),
            names.len() == params.len(),
            views(names@) == param_names(params@),
            forall|i: int|
                0 <= i < maps@.len() ==> views(names@).contains(#[trigger] private_names(maps@)[i]),
            record_shape(fields@, maps@.take(j as int), params@),
        decreases maps.len() - j,
    {
        let ghost wanted = private_names(maps@)[j as int];
        assert(views(names@).contains(wanted));
        let ty = match position(names, &maps[j].private_name) {
            Some(k) => {
                assert(params@[k as int].name@ == views(names@)[k as int]);
                params[k].ty.clone()
            },
            None => {
                proof {
                    let k = choose|k: int| 0 <= k < names.len() && views(names@)[k] == wanted;
                    assert(views(names@)[k] == wanted);
                    assert(false);
                }
                String::new()
            },
        };
        let field = RecordField {
            wire_name: maps[j].public_name.clone(),
            name: maps[j].private_name.clone(),
            ty,
        };
        fields.push(field);
        j += 1;
    }
    proof {
        assert(maps@.take(maps.len() as int) =~= maps@);
    }
    fields
}

/// Every field of a record has a value among `pairs`.
pub open spec fn record_complete(fields: Seq<RecordField>, pairs: Seq<(Seq<char>, Seq<char>)>) -> bool {
    forall|j: int|
        0 <= j < fields.len() ==> lookup(pairs, (#[trigger] fields[j]).wire_name@).is_some()
}

/// Reads a record from `pairs`: the value of each field, looked up under
/// its wire name, or `None` where a field has no value.
pub fn decode_record(fields: &Vec<RecordField>, pairs: &Vec<(String, String)>) -> (values: Option<
    Vec<String>,
>)
    ensures
        match values {
            Some(v) => record_complete(fields@, pair_views(pairs@)) && v.len() == fields.len()
                && forall|j: int|
                0 <= j < fields.len() ==> lookup(pair_views(pairs@), fields[j].wire_name@)
                    == Some((#[trigger] v[j])@),
            None => !record_complete(fields@, pair_views(pairs@)),
        },
{
    let mut values: Vec<String> = Vec::new();
    let mut i: usize = 0;
    while i < fields.len()
        invariant
            i <= fields.len(),
            values.len() == i,
            forall|j: int|
                0 <= j < i ==> lookup(pair_views(pairs@), fields[j].wire_name@) == Some(
                    (#[trigger] values[j])@,
                ),
        decreases fields.len() - i,
    {
        match find_value(pairs, &fields[i].wire_name) {
            Some(v) => {
                values.push(v);
            },
            None => {
                assert(lookup(pair_views(pairs@), fields@[i as int].wire_name@).is_none());
                return None;
            },
        }
        i += 1;
    }
    proof {
        assert forall|j: int| 0 <= j < fields@.len() implies lookup(
            pair_views(pairs@),
            (#[trigger] fields@[j]).wire_name@,
        ).is_some() by {
            assert(lookup(pair_views(pairs@), fields[j].wire_name@) == Some(values[j]@));
        }
    }
    Some(values)
}

impl RestRoute {
    /// The names in the placeholders of the template.
    pub open spec fn path_names(&self) -> Seq<Seq<char>> {
        placeholder_names(views(self.template@))
    }

    /// The parameter whose argument comes from `source`.
    pub open spec fn source_name(&self, source: ArgSource) -> Option<Seq<char>> {
        match source {
            ArgSource::Path(j) => if j < self.path_names().len() {
                Some(self.path_names()[j as int])
            } else {
                None
            },
            ArgSource::Query(j) => if j < self.query_fields@.len() {
                Some(self.query_fields@[j as int].name@)
            } else {
                None
            },
            ArgSource::Body(j) => if j < self.body_fields@.len() {
                Some(self.body_fields@[j as int].name@)
            } else {
                None
            },
        }
    }

    /// Every source points at a placeholder or a field that the route has.
    pub open spec fn wf(&self) -> bool {
        forall|k: int|
            0 <= k < self.sources@.len() ==> self.source_name(#[trigger] self.sources@[k]).is_some()
    }

    /// Whether every source points at a placeholder or a field that the
    /// route has.
    pub fn well_formed(&self) -> (ok: bool)
        ensures
            ok == self.wf(),
    {
        let placeholders = count_placeholders(&self.template);
        let mut k: usize = 0;
        while k < self.sources.len()
            invariant
                k <= self.sources.len(),
                placeholders == self.path_names().len(),
                forall|i: int|
                    0 <= i < k ==> self.source_name(#[trigger] self.sources@[i]).is_some(),
            decreases self.sources.len() - k,
        {
            let inside = match self.sources[k] {
                ArgSource::Path(j) => j < placeholders,
                ArgSource::Query(j) => j < self.query_fields.len(),
                ArgSource::Body(j) => j < self.body_fields.len(),
            };
            if !inside {
                assert(self.source_name(self.sources@[k as int]).is_none());
                return false;
            }
            k += 1;
        }
        true
    }

    /// The route is the one that `entry` declares: its verb, template and
    /// records, and for each parameter, in declared order, the source that
    /// bears its name.
    pub open spec fn plans(&self, entry: MethodEntry) -> bool {
        match entry.route {
            None => false,
            Some(meta) => {
                &&& self.verb == meta.http_verb
                &&& views(self.template@) == segments(meta.path_template@)
                &&& record_shape(
                    self.query_fields@,
                    meta.query_params@,
                    entry.signature.parameters@,
                )
                &&& record_shape(self.body_fields@, meta.body_params@, entry.signature.parameters@)
                &&& self.is_fallible == entry.signature.is_fallible
                &&& self.sources@.len() == entry.signature.parameters@.len()
                &&& forall|k: int|
                    0 <= k < self.sources@.len() ==> self.source_name(#[trigger] self.sources@[k])
                        == Some(entry.signature.parameters@[k].name@)
            },
        }
    }

    /// The argument that `source` yields for a request.
    pub open spec fn argument(
        &self,
        source: ArgSource,
        path_values: Seq<Seq<char>>,
        query: Seq<(Seq<char>, Seq<char>)>,
        body: Seq<(Seq<char>, Seq<char>)>,
    ) -> Option<Seq<char>> {
        match source {
            ArgSource::Path(j) => if j < path_values.len() {
                Some(path_values[j as int])
            } else {
                None
            },
            ArgSource::Query(j) => if j < self.query_fields@.len() {
                lookup(query, self.query_fields@[j as int].wire_name@)
            } else {
                None
            },
            ArgSource::Body(j) => if j < self.body_fields@.len() {
                lookup(body, self.body_fields@[j as int].wire_name@)
            } else {
                None
            },
        }
    }

    /// The status with which a request is turned down before any call: 400
    /// where the query record is incomplete, or where the route reads a body
    /// and the request has none that reads as a map; 422 where the body record
    /// is incomplete. `None` where the request decodes. A route without body
    /// fields does not look at the body.
    pub open spec fn rejection(
        &self,
        query: Seq<(Seq<char>, Seq<char>)>,
        body: Option<Seq<(Seq<char>, Seq<char>)>>,
    ) -> Option<u16> {
        if !record_complete(self.query_fields@, query) {
            Some(400u16)
        } else if self.body_fields@.len() == 0 {
            None
        } else {
            match body {
                None => Some(400u16),
                Some(m) => if record_complete(self.body_fields@, m) {
                    None
                } else {
                    Some(422u16)
                },
            }
        }
    }

    /// `arguments` are what the sources yield, in the declared order of the
    /// parameters.
    pub open spec fn assembles(
        &self,
        arguments: Seq<String>,
        path_values: Seq<Seq<char>>,
        query: Seq<(Seq<char>, Seq<char>)>,
        body: Seq<(Seq<char>, Seq<char>)>,
    ) -> bool {
        &&& arguments.len() == self.sources@.len()
        &&& forall|k: int|
            0 <= k < self.sources@.len() ==> self.argument(
                self.sources@[k],
                path_values,
                query,
                body,
            ) == Some((#[trigger] arguments[k])@)
    }

    /// Decodes the query record and the body record and puts the arguments
    /// in the declared order of the parameters. No argument is handed out
    /// unless all have decoded.
    pub fn bind(
        &self,
        path_values: &Vec<String>,
        query: &Vec<(String, String)>,
        body: &Option<Vec<(String, String)>>,
    ) -> (bound: Result<Vec<String>, u16>)
        requires
            self.wf(),
            path_values@.len() == self.path_names().len(),
        ensures
            match self.rejection(pair_views(query@), body_view(*body)) {
                Some(status) => bound == Err::<Vec<String>, u16>(status),
                None => bound.is_ok() && self.assembles(
                    bound.unwrap()@,
                    views(path_values@),
                    pair_views(query@),
                    members_of(body_view(*body)),
                ),
            },
    {
        let query_values = match decode_record(&self.query_fields, query) {
            Some(v) => v,
            None => {
                return Err(400);
            },
        };
        let body_values = if self.body_fields.len() == 0 {
            Vec::new()
        } else {
            match body {
                None => {
                    return Err(400);
                },
                Some(members) => match decode_record(&self.body_fields, members) {
                    Some(v) => v,
                    None => {
                        return Err(422);
                    },
                },
            }
        };
        let mut arguments: Vec<String> = Vec::new();
        let mut k: usize = 0;
        while k < self.sources.len()
            invariant
                k <= self.sources.len(),
                arguments.len() == k,
                self.wf(),
                path_values@.len() == self.path_names().len(),
                query_values.len() == self.query_fields.len(),
                self.body_fields.len() > 0 ==> body_values.len() == self.body_fields.len(),
                forall|j: int|
                    0 <= j < self.query_fields.len() ==> lookup(
                        pair_views(query@),
                        self.query_fields[j].wire_name@,
                    ) == Some((#[trigger] query_values[j])@),
                self.body_fields.len() > 0 ==> forall|j: int|
                    0 <= j < self.body_fields.len() ==> lookup(
                        members_of(body_view(*body)),
                        self.body_fields[j].wire_name@,
                    ) == Some((#[trigger] body_values[j])@),
                forall|i: int|
                    0 <= i < k ==> self.argument(
                        self.sources@[i],
                        views(path_values@),
                        pair_views(query@),
                        members_of(body_view(*body)),
                    ) == Some((#[trigger] arguments[i])@),
            decreases self.sources.len() - k,
        {
            assert(self.source_name(self.sources@[k as int]).is_some());
            let value = match self.sources[k] {
                ArgSource::Path(j) => path_values[j].clone(),
                ArgSource::Query(j) => query_values[j].clone(),
                ArgSource::Body(j) => body_values[j].clone(),
            };
            arguments.push(value);
            k += 1;
        }
        Ok(arguments)
    }
}

impl RestAdapter {
    /// Every route is well formed.
    pub open spec fn wf(&self) -> bool {
        forall|i: int|
            0 <= i < self.routes@.len() ==> match #[trigger] self.routes@[i] {
                Some(route) => route.wf(),
                None => true,
            }
    }

    /// Whether every route is well formed.
    pub fn well_formed(&self) -> (ok: bool)
        ensures
            ok == self.wf(),
    {
        let mut i: usize = 0;
        while i < self.routes.len()
            invariant
                i <= self.routes.len(),
                forall|k: int|
                    0 <= k < i ==> match #[trigger] self.routes@[k] {
                        Some(route) => route.wf(),
                        None => true,
                    },
            decreases self.routes.len() - i,
        {
            match &self.routes[i] {
                Some(route) => {
                    if !route.well_formed() {
                        return false;
                    }
                },
                None => {},
            }
            i += 1;
        }
        true
    }

    /// The table holds, for each method of `entries`, the route that the
    /// method declares, and none for a method without one.
    pub open spec fn plans_contract(&self, entries: Seq<MethodEntry>) -> bool {
        &&& self.routes@.len() == entries.len()
        &&& forall|i: int|
            0 <= i < entries.len() ==> match #[trigger] self.routes@[i] {
                Some(route) => route.plans(entries[i]),
                None => entries[i].route.is_none(),
            }
    }

    /// The route at `i` has this verb and a template that the path fits.
    pub open spec fn serves(&self, i: int, verb: HttpVerb, path: Seq<Seq<char>>) -> bool {
        match self.routes@[i] {
            Some(route) => route.verb == verb && path_matches(views(route.template@), path),
            None => false,
        }
    }

    /// The first route from `from` on that serves the request.
    pub open spec fn first_serving(&self, verb: HttpVerb, path: Seq<Seq<char>>, from: int) -> Option<
        int,
    >
        decreases self.routes@.len() - from,
    {
        if from < 0 || from >= self.routes@.len() {
            None
        } else if self.serves(from, verb, path) {
            Some(from)
        } else {
            self.first_serving(verb, path, from + 1)
        }
    }

    /// What the adapter decides for a request: 404 where no route serves it;
    /// else the first that does turns it down where the request does not
    /// decode, and else gets its method called with the assembled arguments.
    pub open spec fn decision_for(
        &self,
        verb: HttpVerb,
        path: Seq<Seq<char>>,
        query: Seq<(Seq<char>, Seq<char>)>,
        body: Option<Seq<(Seq<char>, Seq<char>)>>,
        decision: RestDecision,
    ) -> bool {
        match self.first_serving(verb, path, 0) {
            None => decision == (RestDecision::Reject { status: 404 }),
            Some(i) => {
                let route = self.routes@[i].unwrap();
                match route.rejection(query, body) {
                    Some(status) => decision == (RestDecision::Reject { status }),
                    None => match decision {
                        RestDecision::Invoke { method, arguments } => method == i
                            && route.assembles(
                            arguments@,
                            captures(views(route.template@), path),
                            query,
                            members_of(body),
                        ),
                        RestDecision::Reject { .. } => false,
                    },
                }
            },
        }
    }

    /// The first route that serves a request, with what its placeholders take.
    pub fn find_route(&self, verb: HttpVerb, path: &Vec<String>) -> (found: Option<
        (usize, Vec<String>),
    >)
        ensures
            match found {
                Some((i, values)) => i < self.routes@.len() && self.serves(
                    i as int,
                    verb,
                    views(path@),
                ) && self.first_serving(verb, views(path@), 0) == Some(i as int) && views(values@)
                    == captures(
                    views(self.routes@[i as int].unwrap().template@),
                    views(path@),
                ),
                None => self.first_serving(verb, views(path@), 0).is_none(),
            },
    {
        let mut i: usize = 0;
        while i < self.routes.len()
            invariant
                i <= self.routes.len(),
                self.first_serving(verb, views(path@), 0) == self.first_serving(
                    verb,
                    views(path@),
                    i as int,
                ),
            decreases self.routes.len() - i,
        {
            match &self.routes[i] {
                Some(route) => {
                    if route.verb == verb {
                        match match_path(&route.template, path) {
                            Some(values) => {
                                return Some((i, values));
                            },
                            None => {},
                        }
                    }
                },
                None => {},
            }
            i += 1;
        }
        None
    }

    /// Decides what to do with a request whose body has been read as an
    /// object already.
    pub fn decide(
        &self,
        verb: HttpVerb,
        path: &str,
        query: &Vec<(String, String)>,
        body: &Option<Vec<(String, String)>>,
    ) -> (decision: RestDecision)
        requires
            self.wf(),
        ensures
            self.decision_for(
                verb,
                segments(path@),
                pair_views(query@),
                body_view(*body),
                decision,
            ),
    {
        let segs = split_path(path);
        match self.find_route(verb, &segs) {
            None => RestDecision::Reject { status: 404 },
            Some((i, values)) => {
                match &self.routes[i] {
                    Some(route) => {
                        proof {
                            lemma_captures_len(views(route.template@), views(segs@));
                        }
                        match route.bind(&values, query, body) {
                            Ok(arguments) => RestDecision::Invoke { method: i, arguments },
                            Err(status) => RestDecision::Reject { status },
                        }
                    },
                    None => RestDecision::Reject { status: 404 },
                }
            },
        }
    }

    /// Decides what to do with a request. The body is read only where the
    /// route that serves the request has body fields.
    pub fn handle(&self, request: &RestRequest) -> (decision: RestDecision)
        requires
            self.wf(),
        ensures
            self.decision_for(
                request.verb,
                segments(request.path@),
                pair_views(request.query@),
                request_body(*request),
                decision,
            ),
    {
        let segs = split_path(request.path.as_str());
        match self.find_route(request.verb, &segs) {
            None => RestDecision::Reject { status: 404 },
            Some((i, values)) => {
                match &self.routes[i] {
                    Some(route) => {
                        proof {
                            lemma_captures_len(views(route.template@), views(segs@));
                        }
                        let body = if route.body_fields.len() == 0 {
                            None
                        } else {
                            match &request.body {
                                Some(text) => parse_object(text.as_str()),
                                None => None,
                            }
                        };
                        match route.bind(&values, &request.query, &body) {
                            Ok(arguments) => {
                                proof {
                                    lemma_body_unread(
                                        *route,
                                        arguments@,
                                        views(values@),
                                        pair_views(request.query@),
                                        members_of(body_view(body)),
                                        members_of(request_body(*request)),
                                    );
                                }
                                RestDecision::Invoke { method: i, arguments }
                            },
                            Err(status) => RestDecision::Reject { status },
                        }
                    },
                    None => RestDecision::Reject { status: 404 },
                }
            },
        }
    }
}

/// Arguments assembled by a route stay what they are under another body,
/// where the two bodies are the same or the route has no body fields.
proof fn lemma_body_unread(
    route: RestRoute,
    arguments: Seq<String>,
    path_values: Seq<Seq<char>>,
    query: Seq<(Seq<char>, Seq<char>)>,
    read: Seq<(Seq<char>, Seq<char>)>,
    sent: Seq<(Seq<char>, Seq<char>)>,
)
    requires
        route.assembles(arguments, path_values, query, read),
        route.body_fields@.len() == 0 || read == sent,
    ensures
        route.assembles(arguments, path_values, query, sent),
{
}

/// `response` carries `outcome`: 200 with the value as the body, or 500
/// with a text, which is the description of the method's error or the
/// message of the encoder that could not write the value.
pub open spec fn response_of(outcome: MethodOutcome, response: RestResponse) -> bool {
    match outcome {
        MethodOutcome::Plain(Ok(v)) => response == (RestResponse {
            status: 200,
            body: ResponseBody::Json(v),
        }),
        MethodOutcome::Success(Ok(v)) => response == (RestResponse {
            status: 200,
            body: ResponseBody::Json(v),
        }),
        MethodOutcome::Plain(Err(m)) => response == (RestResponse {
            status: 500,
            body: ResponseBody::Text(m),
        }),
        MethodOutcome::Success(Err(m)) => response == (RestResponse {
            status: 500,
            body: ResponseBody::Text(m),
        }),
        MethodOutcome::Failure(e) => response.status == 500 && match response.body {
            ResponseBody::Text(t) => t@ == e.description_text(),
            ResponseBody::Json(_) => false,
        },
    }
}

/// What a client reads from a response: the value of a 200, the text of
/// any other status.
pub open spec fn reading_of(response: RestResponse) -> Result<String, String> {
    match response.body {
        ResponseBody::Json(v) => if response.status == 200 {
            Ok(v)
        } else {
            Err(v)
        },
        ResponseBody::Text(m) => Err(m),
    }
}

impl RestAxum {
    /// The response that carries an outcome.
    pub fn respond(&self, outcome: MethodOutcome) -> (response: RestResponse)
        ensures
            response_of(outcome, response),
    {
        match outcome {
            MethodOutcome::Plain(Ok(v)) => RestResponse { status: 200, body: ResponseBody::Json(v) },
            MethodOutcome::Success(Ok(v)) => RestResponse {
                status: 200,
                body: ResponseBody::Json(v),
            },
            MethodOutcome::Plain(Err(m)) => RestResponse {
                status: 500,
                body: ResponseBody::Text(m),
            },
            MethodOutcome::Success(Err(m)) => RestResponse {
                status: 500,
                body: ResponseBody::Text(m),
            },
            MethodOutcome::Failure(e) => RestResponse {
                status: 500,
                body: ResponseBody::Text(e.description()),
            },
        }
    }

    /// The response to a request that was turned down: the status, and no text.
    pub fn refuse(&self, status: u16) -> (response: RestResponse)
        ensures
            response.status == status,
            match response.body {
                ResponseBody::Text(t) => t@.len() == 0,
                ResponseBody::Json(_) => false,
            },
    {
        RestResponse { status, body: ResponseBody::Text(String::new()) }
    }

    /// What a client reads from a response.
    pub fn read_response(&self, response: RestResponse) -> (read: Result<String, String>)
        ensures
            read == reading_of(response),
    {
        match response.body {
            ResponseBody::Json(v) => if response.status == 200 {
                Ok(v)
            } else {
                Err(v)
            },
            ResponseBody::Text(m) => Err(m),
        }
    }

    /// The route that `entry` declares with `meta`.
    fn plan_route(&self, entry: &MethodEntry, meta: &RouteMetadata) -> (route: RestRoute)
        requires
            entry.route == Some(*meta),
            entry_valid(*entry),
        ensures
            route.wf(),
            route.plans(*entry),
    {
        let template = split_path(meta.path_template.as_str());
        let path = path_placeholders(meta.path_template.as_str());
        let query = private_names_of(&meta.query_params);
        let body = private_names_of(&meta.body_params);
        let names = names_of(&entry.signature.parameters);
        proof {
            assert(private_names(meta.query_params@).len() == meta.query_params@.len());
            assert(private_names(meta.body_params@).len() == meta.body_params@.len());
        }
        let query_fields = record_fields(&meta.query_params, &entry.signature.parameters, &names);
        let body_fields = record_fields(&meta.body_params, &entry.signature.parameters, &names);
        let mut sources: Vec<ArgSource> = Vec::new();
        let ghost params = entry.signature.parameters@;
        let mut k: usize = 0;
        proof {
            assert(views(names@).len() == names.len());
            assert(param_names(params).len() == params.len());
        }
        while k < names.len()
            invariant
                k <= names.len(),
                sources.len() == k,
                names.len() == params.len(),
                views(names@) == param_names(params),
                meta.resolves(views(names@)),
                views(path@) == meta.path_names(),
                views(query@) == private_names(meta.query_params@),
                views(body@) == private_names(meta.body_params@),
                forall|i: int|
                    0 <= i < k ==> match #[trigger] sources[i] {
                        ArgSource::Path(j) => j < path.len() && views(path@)[j as int]
                            == params[i].name@,
                        ArgSource::Query(j) => j < query.len() && views(query@)[j as int]
                            == params[i].name@,
                        ArgSource::Body(j) => j < body.len() && views(body@)[j as int]
                            == params[i].name@,
                    },
            decreases names.len() - k,
        {
            let name = &names[k];
            assert(name@ == views(names@)[k as int]);
            assert(name@ == params[k as int].name@);
            let source = match position(&path, name) {
                Some(j) => ArgSource::Path(j),
                None => match position(&query, name) {
                    Some(j) => ArgSource::Query(j),
                    None => match position(&body, name) {
                        Some(j) => ArgSource::Body(j),
                        None => {
                            proof {
                                lemma_count_zero(views(path@), name@);
                                lemma_count_zero(views(query@), name@);
                                lemma_count_zero(views(body@), name@);
                                assert(meta.role_count(views(names@)[k as int]) == 1);
                                assert(false);
                            }
                            ArgSource::Path(0)
                        },
                    },
                },
            };
            sources.push(source);
            k += 1;
        }
        let route = RestRoute {
            verb: meta.http_verb,
            template,
            query_fields,
            body_fields,
            sources,
            is_fallible: entry.signature.is_fallible,
        };
        proof {
            assert(route.path_names() == views(path@));
            assert forall|i: int| 0 <= i < route.sources@.len() implies route.source_name(
                #[trigger] route.sources@[i],
            ) == Some(params[i].name@) by {
                assert(views(query@).len() == query.len());
                assert(views(body@).len() == body.len());
                assert(views(path@).len() == path.len());
            }
        }
        route
    }

    /// The route table of the contract: for each method the route that it
    /// declares.
    pub fn adapter(&self, contract: &Contract) -> (table: RestAdapter)
        ensures
            table.wf(),
            table.plans_contract(contract.entries()),
    {
        let methods = contract.methods();
        let mut routes: Vec<Option<RestRoute>> = Vec::new();
        let mut i: usize = 0;
        while i < methods.len()
            invariant
                i <= methods.len(),
                routes.len() == i,
                methods@ == contract.entries(),
                contract.wf(),
                forall|k: int|
                    0 <= k < i ==> match #[trigger] routes[k] {
                        Some(route) => route.wf() && route.plans(methods[k]),
                        None => methods[k].route.is_none(),
                    },
            decreases methods.len() - i,
        {
            assert(entry_valid(contract.entries()[i as int]));
            let route = match &methods[i].route {
                Some(meta) => Some(self.plan_route(&methods[i], meta)),
                None => None,
            };
            routes.push(route);
            i += 1;
        }
        RestAdapter { routes }
    }
}

impl Protocol for RestAxum {
    /// HTTP offers its clients no interface of its own.
    fn transform_trait(&self, contract: &Contract) -> (interface: WireInterface)
        ensures
            interface.methods@.len() == 0,
    {
        WireInterface { methods: Vec::new() }
    }

    /// The route table of the contract.
    fn transform_impl(&self, contract: &Contract) -> (adapter: Adapter)
        ensures
            match adapter {
                Adapter::Rest(table) => table.wf() && table.plans_contract(contract.entries()),
                _ => false,
            },
    {
        Adapter::Rest(self.adapter(contract))
    }
}

} // verus!
