//! The route declaration of a method, as it is written: a list of
//! arguments such as `method = GET, path = "/users/{id}", query(limit, q = search)`.
//!
//! The arguments come cut into tokens already. What is read here is which
//! argument means what, which of two wins, and what is missing.

use vstd::prelude::*;
use crate::contract::HttpVerb;
use crate::contract::ParamMapping;
use crate::contract::RouteMetadata;

verus! {

/// One token inside the brackets of `query(..)` or `body(..)`.
#[derive(Debug, Clone, PartialEq, Eq)]
pub enum Token {
    /// An identifier.
    Ident(String),
    /// A single `=`.
    Equals,
    /// A `,`.
    Comma,
    /// Anything else.
    Other,
}

/// What stands behind the `=` of an argument.
#[derive(Debug, Clone, PartialEq, Eq)]
pub enum ArgValue {
    /// A single identifier, as in `method = GET`.
    Ident(String),
    /// A path of more than one segment, as in `method = http::GET`.
    Path,
    /// A string literal, as in `path = "/greet"`: what the literal holds.
    Text(String),
    /// Any other expression.
    Other,
}

/// One argument of the declaration.
#[derive(Debug, Clone, PartialEq, Eq)]
pub enum AttributeArg {
    /// `key = value`.
    NameValue { key: String, value: ArgValue },
    /// `key(tokens)`.
    List { key: String, tokens: Vec<Token> },
    /// `key` alone.
    Word { key: String },
}

/// Why a declaration cannot be read.
#[derive(Debug, Clone, Copy, PartialEq, Eq, Structural)]
pub enum AttributeError {
    /// A list of parameters is not made of `name` and `name = name`, with
    /// commas between them.
    MalformedMapping,
    /// No argument gives the method.
    MissingMethod,
    /// No argument gives the path.
    MissingPath,
    /// The method is no HTTP verb.
    UnknownVerb,
}

/// A route declaration that was read.
#[derive(Debug, Clone)]
pub struct RestAttribute {
    /// The HTTP verb, as it was written.
    pub method: String,
    pub path: String,
    pub query_params: Vec<ParamMapping>,
    pub body_params: Vec<ParamMapping>,
}

/// A letter in lower case; any other character as it is.
pub open spec fn fold_letter(c: char) -> char {
    match c {
        'A' => 'a',
        'B' => 'b',
        'C' => 'c',
        'D' => 'd',
        'E' => 'e',
        'F' => 'f',
        'G' => 'g',
        'H' => 'h',
        'I' => 'i',
        'J' => 'j',
        'K' => 'k',
        'L' => 'l',
        'M' => 'm',
        'N' => 'n',
        'O' => 'o',
        'P' => 'p',
        'Q' => 'q',
        'R' => 'r',
        'S' => 's',
        'T' => 't',
        'U' => 'u',
        'V' => 'v',
        'W' => 'w',
        'X' => 'x',
        'Y' => 'y',
        'Z' => 'z',
        _ => c,
    }
}

/// A word with its letters in lower case.
pub open spec fn folded(word: Seq<char>) -> Seq<char> {
    Seq::new(word.len(), |i: int| fold_letter(word[i]))
}

/// The verb that a word names, whatever the case of its letters.
pub open spec fn verb_named(word: Seq<char>) -> Option<HttpVerb> {
    if folded(word) == folded("get"@) {
        Some(HttpVerb::Get)
    } else if folded(word) == folded("post"@) {
        Some(HttpVerb::Post)
    } else if folded(word) == folded("put"@) {
        Some(HttpVerb::Put)
    } else if folded(word) == folded("delete"@) {
        Some(HttpVerb::Delete)
    } else if folded(word) == folded("patch"@) {
        Some(HttpVerb::Patch)
    } else if folded(word) == folded("head"@) {
        Some(HttpVerb::Head)
    } else if folded(word) == folded("options"@) {
        Some(HttpVerb::Options)
    } else if folded(word) == folded("trace"@) {
        Some(HttpVerb::Trace)
    } else if folded(word) == folded("connect"@) {
        Some(HttpVerb::Connect)
    } else {
        None
    }
}

/// A letter in lower case; any other character as it is.
pub fn lower(c: char) -> (l: char)
    ensures
        l == fold_letter(c),
{
    match c {
        'A' => 'a',
        'B' => 'b',
        'C' => 'c',
        'D' => 'd',
        'E' => 'e',
        'F' => 'f',
        'G' => 'g',
        'H' => 'h',
        'I' => 'i',
        'J' => 'j',
        'K' => 'k',
        'L' => 'l',
        'M' => 'm',
        'N' => 'n',
        'O' => 'o',
        'P' => 'p',
        'Q' => 'q',
        'R' => 'r',
        'S' => 's',
        'T' => 't',
        'U' => 'u',
        'V' => 'v',
        'W' => 'w',
        'X' => 'x',
        'Y' => 'y',
        'Z' => 'z',
        _ => c,
    }
}

/// Whether two words are the same but for the case of their letters.
pub fn same_word(a: &str, b: &str) -> (same: bool)
    ensures
        same == (folded(a@) == folded(b@)),
{
    let n = a.unicode_len();
    if n != b.unicode_len() {
        assert(folded(a@).len() != folded(b@).len());
        return false;
    }
    let mut i: usize = 0;
    while i < n
        invariant
            i <= n,
            n == a@.len(),
            n == b@.len(),
            forall|k: int| 0 <= k < i ==> fold_letter(a@[k]) == fold_letter(b@[k]),
        decreases n - i,
    {
        if lower(a.get_char(i)) != lower(b.get_char(i)) {
            assert(folded(a@)[i as int] != folded(b@)[i as int]);
            return false;
        }
        i += 1;
    }
    assert(folded(a@) =~= folded(b@));
    true
}

impl HttpVerb {
    /// The verb that a word names, whatever the case of its letters.
    pub fn from_name(word: &str) -> (verb: Option<HttpVerb>)
        ensures
            verb == verb_named(word@),
    {
        if same_word(word, "get") {
            Some(HttpVerb::Get)
        } else if same_word(word, "post") {
            Some(HttpVerb::Post)
        } else if same_word(word, "put") {
            Some(HttpVerb::Put)
        } else if same_word(word, "delete") {
            Some(HttpVerb::Delete)
        } else if same_word(word, "patch") {
            Some(HttpVerb::Patch)
        } else if same_word(word, "head") {
            Some(HttpVerb::Head)
        } else if same_word(word, "options") {
            Some(HttpVerb::Options)
        } else if same_word(word, "trace") {
            Some(HttpVerb::Trace)
        } else if same_word(word, "connect") {
            Some(HttpVerb::Connect)
        } else {
            None
        }
    }
}

/// The mapping that starts at `at`, with the place behind it: `name`, or
/// `public = private`.
pub open spec fn mapping_at(tokens: Seq<Token>, at: int) -> Option<((Seq<char>, Seq<char>), int)> {
    if at < 0 || at >= tokens.len() {
        None
    } else {
        match tokens[at] {
            Token::Ident(public) => if at + 1 < tokens.len() && tokens[at + 1] == Token::Equals {
                if at + 2 < tokens.len() {
                    match tokens[at + 2] {
                        Token::Ident(private) => Some(((public@, private@), at + 3)),
                        _ => None,
                    }
                } else {
                    None
                }
            } else {
                Some(((public@, public@), at + 1))
            },
            _ => None,
        }
    }
}

/// The mappings from `at` on: none, or mappings with a comma between each
/// two, and one more comma at the end or none. `None` for anything else.
pub open spec fn mappings_from(tokens: Seq<Token>, at: int) -> Option<Seq<(Seq<char>, Seq<char>)>>
    decreases tokens.len() - at,
{
    if at < 0 || at >= tokens.len() {
        Some(Seq::empty())
    } else {
        match mapping_at(tokens, at) {
            None => None,
            Some((mapping, next)) => if next >= tokens.len() {
                Some(seq![mapping])
            } else if tokens[next] == Token::Comma {
                match mappings_from(tokens, next + 1) {
                    Some(rest) => Some(seq![mapping] + rest),
                    None => None,
                }
            } else {
                None
            },
        }
    }
}

/// The names of `maps`: for each the name on the wire, then the parameter.
pub open spec fn mapping_views(maps: Seq<ParamMapping>) -> Seq<(Seq<char>, Seq<char>)> {
    Seq::new(maps.len(), |i: int| (maps[i].public_name@, maps[i].private_name@))
}

impl ParamMapping {
    /// Reads one mapping at `at`: `name`, which stands for `name = name`, or
    /// `public = private`. Gives the mapping and the place behind it.
    pub fn parse(tokens: &Vec<Token>, at: usize) -> (read: Option<(ParamMapping, usize)>)
        ensures
            match read {
                Some((m, next)) => mapping_at(tokens@, at as int) == Some(
                    ((m.public_name@, m.private_name@), next as int),
                ) && at < next <= tokens.len(),
                None => mapping_at(tokens@, at as int).is_none(),
            },
    {
        if at >= tokens.len() {
            return None;
        }
        match &tokens[at] {
            Token::Ident(public) => {
                let renamed = at + 1 < tokens.len() && match &tokens[at + 1] {
                    Token::Equals => true,
                    _ => false,
                };
                if renamed {
                    if at + 2 < tokens.len() {
                        match &tokens[at + 2] {
                            Token::Ident(private) => Some(
                                (
                                    ParamMapping {
                                        public_name: public.clone(),
                                        private_name: private.clone(),
                                    },
                                    at + 3,
                                ),
                            ),
                            _ => None,
                        }
                    } else {
                        None
                    }
                } else {
                    Some(
                        (
                            ParamMapping {
                                public_name: public.clone(),
                                private_name: public.clone(),
                            },
                            at + 1,
                        ),
                    )
                }
            },
            _ => None,
        }
    }

    /// Reads a list of mappings.
    pub fn parse_list(tokens: &Vec<Token>) -> (read: Option<Vec<ParamMapping>>)
        ensures
            match read {
                Some(maps) => mappings_from(tokens@, 0) == Some(mapping_views(maps@)),
                None => mappings_from(tokens@, 0).is_none(),
            },
    {
        let mut maps: Vec<ParamMapping> = Vec::new();
        let mut at: usize = 0;
        proof {
            assert(mapping_views(maps@) =~= Seq::empty());
            lemma_prepend(Seq::empty(), mappings_from(tokens@, 0));
        }
        while at < tokens.len()
            invariant
                at <= tokens.len(),
                mappings_from(tokens@, 0) == prepend(
                    mapping_views(maps@),
                    mappings_from(tokens@, at as int),
                ),
            decreases tokens.len() - at,
        {
            let ghost before = mapping_views(maps@);
            match ParamMapping::parse(tokens, at) {
                None => {
                    return None;
                },
                Some((m, next)) => {
                    proof {
                        assert(mapping_views(maps@.push(m)) =~= before.push(
                            (m.public_name@, m.private_name@),
                        ));
                    }
                    maps.push(m);
                    if next >= tokens.len() {
                        proof {
                            assert(before + seq![(m.public_name@, m.private_name@)]
                                =~= mapping_views(maps@));
                        }
                        return Some(maps);
                    }
                    match &tokens[next] {
                        Token::Comma => {
                            proof {
                                let m_view = (m.public_name@, m.private_name@);
                                lemma_prepend_step(
                                    before,
                                    m_view,
                                    mappings_from(tokens@, next + 1),
                                );
                            }
                            at = next + 1;
                        },
                        _ => {
                            return None;
                        },
                    }
                },
            }
        }
        proof {
            assert(mapping_views(maps@) + Seq::empty() =~= mapping_views(maps@));
        }
        Some(maps)
    }
}

/// `done`, then `rest`, where there is a rest.
pub open spec fn prepend(
    done: Seq<(Seq<char>, Seq<char>)>,
    rest: Option<Seq<(Seq<char>, Seq<char>)>>,
) -> Option<Seq<(Seq<char>, Seq<char>)>> {
    match rest {
        Some(r) => Some(done + r),
        None => None,
    }
}

proof fn lemma_prepend(done: Seq<(Seq<char>, Seq<char>)>, rest: Option<Seq<(Seq<char>, Seq<char>)>>)
    requires
        done.len() == 0,
    ensures
        prepend(done, rest) == rest,
{
    if rest.is_some() {
        assert(done + rest.unwrap() =~= rest.unwrap());
    }
}

proof fn lemma_prepend_step(
    done: Seq<(Seq<char>, Seq<char>)>,
    m: (Seq<char>, Seq<char>),
    rest: Option<Seq<(Seq<char>, Seq<char>)>>,
)
    ensures
        prepend(done, prepend(seq![m], rest)) == prepend(done.push(m), rest),
{
    if rest.is_some() {
        assert(done + (seq![m] + rest.unwrap()) =~= done.push(m) + rest.unwrap());
    }
}

/// What has been read of a declaration.
pub struct Scan {
    pub method: Option<Seq<char>>,
    pub path: Option<Seq<char>>,
    pub query: Seq<(Seq<char>, Seq<char>)>,
    pub body: Seq<(Seq<char>, Seq<char>)>,
}

/// What one more argument makes of what has been read: `method` and
/// `path` take a value of the right kind and keep what they had on any other,
/// `method` loses it on a longer path; `query` and `body` take a list of
/// mappings; any other argument changes nothing. `None` where a list of
/// mappings cannot be read.
pub open spec fn apply(scan: Scan, arg: AttributeArg) -> Option<Scan> {
    match arg {
        AttributeArg::NameValue { key, value } => if key@ == "method"@ {
            match value {
                ArgValue::Ident(word) => Some(Scan { method: Some(word@), ..scan }),
                ArgValue::Path => Some(Scan { method: None, ..scan }),
                _ => Some(scan),
            }
        } else if key@ == "path"@ {
            match value {
                ArgValue::Text(text) => Some(Scan { path: Some(text@), ..scan }),
                _ => Some(scan),
            }
        } else {
            Some(scan)
        },
        AttributeArg::List { key, tokens } => if key@ == "method"@ || key@ == "path"@ {
            Some(scan)
        } else if key@ == "query"@ {
            match mappings_from(tokens@, 0) {
                Some(maps) => Some(Scan { query: maps, ..scan }),
                None => None,
            }
        } else if key@ == "body"@ {
            match mappings_from(tokens@, 0) {
                Some(maps) => Some(Scan { body: maps, ..scan }),
                None => None,
            }
        } else {
            Some(scan)
        },
        AttributeArg::Word { .. } => Some(scan),
    }
}

/// What the arguments make, read one after the other: a later argument
/// wins over an earlier one of its name.
pub open spec fn scan(args: Seq<AttributeArg>) -> Option<Scan>
    decreases args.len(),
{
    if args.len() == 0 {
        Some(Scan { method: None, path: None, query: Seq::empty(), body: Seq::empty() })
    } else {
        match scan(args.drop_last()) {
            Some(before) => apply(before, args.last()),
            None => None,
        }
    }
}

/// The declaration that the arguments make, or what is wrong with them: a
/// list that cannot be read, else a missing method, else a missing path.
pub open spec fn declaration(args: Seq<AttributeArg>) -> Result<Scan, AttributeError> {
    match scan(args) {
        None => Err(AttributeError::MalformedMapping),
        Some(s) => if s.method.is_none() {
            Err(AttributeError::MissingMethod)
        } else if s.path.is_none() {
            Err(AttributeError::MissingPath)
        } else {
            Ok(s)
        },
    }
}

/// The characters of a text, where there is one.
pub open spec fn text_view(text: Option<String>) -> Option<Seq<char>> {
    match text {
        Some(t) => Some(t@),
        None => None,
    }
}

impl RestAttribute {
    /// Reads a route declaration from its arguments.
    pub fn parse(args: &Vec<AttributeArg>) -> (read: Result<RestAttribute, AttributeError>)
        ensures
            match declaration(args@) {
                Err(e) => read == Err::<RestAttribute, AttributeError>(e),
                Ok(s) => read.is_ok() && {
                    let a = read.unwrap();
                    &&& Some(a.method@) == s.method
                    &&& Some(a.path@) == s.path
                    &&& mapping_views(a.query_params@) == s.query
                    &&& mapping_views(a.body_params@) == s.body
                },
            },
    {
        let method_key = String::from_str("method");
        let path_key = String::from_str("path");
        let query_key = String::from_str("query");
        let body_key = String::from_str("body");
        let mut method: Option<String> = None;
        let mut path: Option<String> = None;
        let mut query_params: Vec<ParamMapping> = Vec::new();
        let mut body_params: Vec<ParamMapping> = Vec::new();
        let mut i: usize = 0;
        proof {
            assert(args@.take(0) =~= Seq::empty());
            assert(mapping_views(query_params@) =~= Seq::empty());
            assert(mapping_views(body_params@) =~= Seq::empty());
        }
        while i < args.len()
            invariant
                i <= args.len(),
                method_key@ == "method"@,
                path_key@ == "path"@,
                query_key@ == "query"@,
                body_key@ == "body"@,
                scan(args@.take(i as int)) == Some(
                    Scan {
                        method: text_view(method),
                        path: text_view(path),
                        query: mapping_views(query_params@),
                        body: mapping_views(body_params@),
                    },
                ),
            decreases args.len() - i,
        {
            proof {
                assert(args@.take(i + 1).drop_last() =~= args@.take(i as int));
                assert(args@.take(i + 1).last() == args@[i as int]);
            }
            match &args[i] {
                AttributeArg::NameValue { key, value } => {
                    if *key == method_key {
                        match value {
                            ArgValue::Ident(word) => {
                                method = Some(word.clone());
                            },
                            ArgValue::Path => {
                                method = None;
                            },
                            _ => {},
                        }
                    } else if *key == path_key {
                        match value {
                            ArgValue::Text(text) => {
                                path = Some(text.clone());
                            },
                            _ => {},
                        }
                    }
                },
                AttributeArg::List { key, tokens } => {
                    if *key == method_key || *key == path_key {
                    } else if *key == query_key {
                        match ParamMapping::parse_list(tokens) {
                            Some(maps) => {
                                query_params = maps;
                            },
                            None => {
                                proof {
                                    lemma_scan_fails(args@, i as int + 1);
                                }
                                return Err(AttributeError::MalformedMapping);
                            },
                        }
                    } else if *key == body_key {
                        match ParamMapping::parse_list(tokens) {
                            Some(maps) => {
                                body_params = maps;
                            },
                            None => {
                                proof {
                                    lemma_scan_fails(args@, i as int + 1);
                                }
                                return Err(AttributeError::MalformedMapping);
                            },
                        }
                    }
                },
                AttributeArg::Word { .. } => {},
            }
            i += 1;
        }
        proof {
            assert(args@.take(args.len() as int) =~= args@);
        }
        match method {
            None => Err(AttributeError::MissingMethod),
            Some(method) => match path {
                None => Err(AttributeError::MissingPath),
                Some(path) => Ok(RestAttribute { method, path, query_params, body_params }),
            },
        }
    }

    /// The route that the declaration describes. Its method has to name an
    /// HTTP verb, in letters of any case.
    pub fn route(self) -> (route: Result<RouteMetadata, AttributeError>)
        ensures
            match verb_named(self.method@) {
                Some(verb) => route == Ok::<RouteMetadata, AttributeError>(
                    RouteMetadata {
                        http_verb: verb,
                        path_template: self.path,
                        query_params: self.query_params,
                        body_params: self.body_params,
                    },
                ),
                None => route == Err::<RouteMetadata, AttributeError>(AttributeError::UnknownVerb),
            },
    {
        match HttpVerb::from_name(self.method.as_str()) {
            Some(verb) => Ok(
                RouteMetadata {
                    http_verb: verb,
                    path_template: self.path,
                    query_params: self.query_params,
                    body_params: self.body_params,
                },
            ),
            None => Err(AttributeError::UnknownVerb),
        }
    }
}

/// Arguments that cannot be read up to some place cannot be read as a whole.
proof fn lemma_scan_fails(args: Seq<AttributeArg>, upto: int)
    requires
        0 <= upto <= args.len(),
        scan(args.take(upto)).is_none(),
    ensures
        scan(args).is_none(),
    decreases args.len() - upto,
{
    if upto < args.len() {
        assert(args.take(upto + 1).drop_last() =~= args.take(upto));
        lemma_scan_fails(args, upto + 1);
    } else {
        assert(args.take(upto) =~= args);
    }
}

} // verus!
