//! Running a deployed sequence: the request that starts it on its first
//! device, and the decisions that follow each response until a result, an
//! error, or the end of the budget.

use vstd::prelude::*;
use crate::deployment::{DeploymentDoc, DeviceModule, Endpoint, EndpointView};
use crate::ids::ObjectId;
use crate::results::agrees;
use crate::openapi::{OpenApiParameterIn, OpenApiParameterObjectView};
use crate::ordered_map::{lemma_model_of_map, model_at, model_has, OrderedMap};
use crate::text::{
    ascii_lowercase, contains, replaced, str_ascii_lowercase, str_contains, str_eq, str_replace,
};

verus! {

/// Whether a text parses as an absolute URL.
pub uninterp spec fn is_url(text: Seq<char>) -> bool;

/// `reqwest::Url::parse`, which is `url::Url::parse`: whether the text parses
/// as an absolute URL. The outcome depends on the text alone.
#[verifier::external_body]
fn parses_as_url(text: &str) -> (ok: bool)
    ensures
        ok == is_url(text@),
{
    reqwest::Url::parse(text).is_ok()
}

/// Why a deployment cannot be started.
#[derive(Clone, Copy, Debug, PartialEq, Eq, Structural)]
pub enum StartError {
    /// The deployment has no steps.
    EmptySequence,
    /// The manifest has no entry for the device of the first step.
    DeviceNotInManifest,
    /// The device of the first step does not hold the module of the first step.
    ModuleNotOnDevice,
    /// The device of the first step has no endpoint for the function of the first step.
    EndpointMissing,
    /// The URL of the endpoint does not parse.
    InvalidUrl,
    /// No value was supplied for a parameter that the endpoint declares.
    ParameterMissing,
    /// A parameter travels neither in the path nor in the query.
    UnsupportedLocation,
    /// The method of the endpoint is no HTTP method.
    UnsupportedMethod,
}

/// Name of the first module in `modules` with the identifier `id`.
pub open spec fn module_name_of(modules: Seq<DeviceModule>, id: ObjectId) -> Option<Seq<char>>
    decreases modules.len(),
{
    if modules.len() == 0 {
        None
    } else if modules[0].id == id {
        Some(modules[0].name@)
    } else {
        module_name_of(modules.subrange(1, modules.len() as int), id)
    }
}

/// The endpoint at which a deployment starts: that of the first step's
/// function, found on the first step's device under the name of the module.
pub open spec fn start_endpoint_of(deployment: DeploymentDoc) -> Result<Endpoint, StartError> {
    if deployment.sequence@.len() == 0 {
        Err(StartError::EmptySequence)
    } else {
        let start = deployment.sequence@[0];
        if !deployment.full_manifest.has(start.device.hex()) {
            Err(StartError::DeviceNotInManifest)
        } else {
            let node = deployment.full_manifest.at(start.device.hex());
            match module_name_of(node.modules@, start.module) {
                None => Err(StartError::ModuleNotOnDevice),
                Some(name) => if node.endpoints.has(name) && node.endpoints.at(name).has(
                    start.func@,
                ) {
                    Ok(node.endpoints.at(name).at(start.func@))
                } else {
                    Err(StartError::EndpointMissing)
                },
            }
        }
    }
}

fn find_module_name<'a>(modules: &'a Vec<DeviceModule>, id: &ObjectId) -> (found: Option<
    &'a String,
>)
    ensures
        match found {
            Some(name) => module_name_of(modules@, *id) == Some(name@),
            None => module_name_of(modules@, *id) is None,
        },
{
    let mut i: usize = 0;
    assert(modules@.subrange(0, modules@.len() as int) =~= modules@);
    while i < modules.len()
        invariant
            i <= modules@.len(),
            module_name_of(modules@, *id) == module_name_of(
                modules@.subrange(i as int, modules@.len() as int),
                *id,
            ),
        decreases modules@.len() - i,
    {
        let ghost rest = modules@.subrange(i as int, modules@.len() as int);
        assert(rest[0] == modules@[i as int]);
        assert(rest.subrange(1, rest.len() as int) =~= modules@.subrange(
            i + 1,
            modules@.len() as int,
        ));
        if modules[i].id == *id {
            return Some(&modules[i].name);
        }
        i += 1;
    }
    None
}

/// Finds the endpoint at which a deployment starts.
pub fn get_start_endpoint<'a>(deployment: &'a DeploymentDoc) -> (out: Result<
    &'a Endpoint,
    StartError,
>)
    ensures
        match out {
            Ok(endpoint) => start_endpoint_of(*deployment) == Ok::<Endpoint, StartError>(
                *endpoint,
            ),
            Err(error) => start_endpoint_of(*deployment) == Err::<Endpoint, StartError>(error),
        },
{
    if deployment.sequence.len() == 0 {
        return Err(StartError::EmptySequence);
    }
    let start = &deployment.sequence[0];
    let key = start.device.to_hex();
    let node = match deployment.full_manifest.get(key.as_str()) {
        Some(node) => node,
        None => {
            return Err(StartError::DeviceNotInManifest);
        },
    };
    let name = match find_module_name(&node.modules, &start.module) {
        Some(name) => name,
        None => {
            return Err(StartError::ModuleNotOnDevice);
        },
    };
    let of_module = match node.endpoints.get(name.as_str()) {
        Some(of_module) => of_module,
        None => {
            return Err(StartError::EndpointMissing);
        },
    };
    match of_module.get(start.func.as_str()) {
        Some(endpoint) => Ok(endpoint),
        None => Err(StartError::EndpointMissing),
    }
}

/// The methods of HTTP.
#[derive(Clone, Copy, Debug, PartialEq, Eq, Structural)]
pub enum HttpMethod {
    Get,
    Head,
    Post,
    Put,
    Delete,
    Patch,
    Options,
    Trace,
}

impl DeepView for HttpMethod {
    type V = HttpMethod;

    open spec fn deep_view(&self) -> HttpMethod {
        *self
    }
}

/// What the request that starts a deployment carries as its body.
#[derive(Clone, Copy, Debug, PartialEq, Eq, Structural)]
pub enum StartBody {
    /// Nothing: the method is `GET` or `HEAD`.
    Empty,
    /// A multipart form with the files that the caller supplied.
    Multipart,
    /// A placeholder JSON object.
    Json,
}

impl DeepView for StartBody {
    type V = StartBody;

    open spec fn deep_view(&self) -> StartBody {
        *self
    }
}

/// The request that starts a deployment on its first device. It is sent with
/// the header `X-Chain-Step: 0`, which tells the device that it runs the
/// first step.
#[derive(Clone, Debug, PartialEq, Eq)]
pub struct StartRequest {
    /// The URL of the endpoint, whose path and query the request replaces.
    pub url: String,
    pub path: String,
    /// Names and values to append to the query of the URL, in order.
    pub query: Vec<(String, String)>,
    pub method: HttpMethod,
    pub body: StartBody,
}

/// What a [`StartRequest`] holds, as mathematical values.
pub struct StartRequestView {
    pub url: Seq<char>,
    pub path: Seq<char>,
    pub query: Seq<(Seq<char>, Seq<char>)>,
    pub method: HttpMethod,
    pub body: StartBody,
}

impl DeepView for StartRequest {
    type V = StartRequestView;

    open spec fn deep_view(&self) -> StartRequestView {
        StartRequestView {
            url: self.url.deep_view(),
            path: self.path.deep_view(),
            query: self.query.deep_view(),
            method: self.method,
            body: self.body,
        }
    }
}

/// Name and value of the header that marks the first step of a chain.
pub fn chain_step_header() -> (header: (&'static str, &'static str))
    ensures
        header.0@ == "X-Chain-Step"@,
        header.1@ == "0"@,
{
    ("X-Chain-Step", "0")
}

/// The method that a text names, whatever its case.
pub open spec fn method_of(text: Seq<char>) -> Option<HttpMethod> {
    let lower = ascii_lowercase(text);
    if lower == "get"@ {
        Some(HttpMethod::Get)
    } else if lower == "head"@ {
        Some(HttpMethod::Head)
    } else if lower == "post"@ {
        Some(HttpMethod::Post)
    } else if lower == "put"@ {
        Some(HttpMethod::Put)
    } else if lower == "delete"@ {
        Some(HttpMethod::Delete)
    } else if lower == "patch"@ {
        Some(HttpMethod::Patch)
    } else if lower == "options"@ {
        Some(HttpMethod::Options)
    } else if lower == "trace"@ {
        Some(HttpMethod::Trace)
    } else {
        None
    }
}

/// Reads the name of an HTTP method, whatever its case.
pub fn parse_method(text: &str) -> (method: Option<HttpMethod>)
    ensures
        method == method_of(text@),
{
    let lower = str_ascii_lowercase(text);
    let name = lower.as_str();
    if str_eq(name, "get") {
        Some(HttpMethod::Get)
    } else if str_eq(name, "head") {
        Some(HttpMethod::Head)
    } else if str_eq(name, "post") {
        Some(HttpMethod::Post)
    } else if str_eq(name, "put") {
        Some(HttpMethod::Put)
    } else if str_eq(name, "delete") {
        Some(HttpMethod::Delete)
    } else if str_eq(name, "patch") {
        Some(HttpMethod::Patch)
    } else if str_eq(name, "options") {
        Some(HttpMethod::Options)
    } else if str_eq(name, "trace") {
        Some(HttpMethod::Trace)
    } else {
        None
    }
}

/// A path template with a value in the place of a parameter: in the place of
/// the parameter's name in braces where the template holds that, else in the
/// place of the bare name. A parameter without a name has no bare place.
pub open spec fn path_with(path: Seq<char>, name: Seq<char>, value: Seq<char>) -> Seq<char> {
    let token = "{"@ + name + "}"@;
    if contains(path, token) {
        replaced(path, token, value)
    } else {
        replaced(path, name, value)
    }
}

fn fill_path(path: &str, name: &str, value: &str) -> (out: String)
    ensures
        out@ == path_with(path@, name@, value@),
{
    let mut token = "{".to_string();
    token.append(name);
    token.append("}");
    proof {
        reveal_strlit("{");
        reveal_strlit("}");
        assert(token@.len() == name@.len() + 2);
    }
    if str_contains(path, token.as_str()) {
        str_replace(path, token.as_str(), value)
    } else if name.is_empty() {
        path.to_string()
    } else {
        str_replace(path, name, value)
    }
}

/// What the first `n` parameters make of a path and a query: the path with
/// the values of the path parameters in place, and the query parameters with
/// their values in order. The first parameter without a value, or in another
/// location, decides the error.
pub open spec fn applied(
    parameters: Seq<OpenApiParameterObjectView>,
    fields: Seq<(Seq<char>, Seq<char>)>,
    path: Seq<char>,
    n: nat,
) -> Result<(Seq<char>, Seq<(Seq<char>, Seq<char>)>), StartError>
    decreases n,
{
    if n == 0 || n > parameters.len() {
        Ok((path, Seq::empty()))
    } else {
        match applied(parameters, fields, path, (n - 1) as nat) {
            Err(error) => Err(error),
            Ok((path_before, query_before)) => {
                let parameter = parameters[n - 1];
                if !model_has(fields, parameter.name) {
                    Err(StartError::ParameterMissing)
                } else {
                    let value = model_at(fields, parameter.name);
                    match parameter.location {
                        OpenApiParameterIn::Path => Ok(
                            (path_with(path_before, parameter.name, value), query_before),
                        ),
                        OpenApiParameterIn::Query => Ok(
                            (path_before, query_before.push((parameter.name, value))),
                        ),
                        _ => Err(StartError::UnsupportedLocation),
                    }
                }
            },
        }
    }
}

/// The body of a start request: none with `GET` and `HEAD`, else a multipart
/// form where the endpoint declares a request body, else a placeholder.
pub open spec fn body_of(method: HttpMethod, declares_body: bool) -> StartBody {
    if method == HttpMethod::Get || method == HttpMethod::Head {
        StartBody::Empty
    } else if declares_body {
        StartBody::Multipart
    } else {
        StartBody::Json
    }
}

/// The request that starts a deployment at `endpoint` with the caller's `fields`.
pub open spec fn request_of(endpoint: EndpointView, fields: Seq<(Seq<char>, Seq<char>)>) -> Result<
    StartRequestView,
    StartError,
> {
    match applied(
        endpoint.request.parameters,
        fields,
        endpoint.path,
        endpoint.request.parameters.len(),
    ) {
        Err(error) => Err(error),
        Ok((path, query)) => match method_of(endpoint.method) {
            None => Err(StartError::UnsupportedMethod),
            Some(method) => Ok(
                StartRequestView {
                    url: endpoint.url,
                    path,
                    query,
                    method,
                    body: body_of(method, endpoint.request.request_body is Some),
                },
            ),
        },
    }
}

/// Once a parameter has an error, every longer list of parameters has it.
proof fn lemma_applied_error(
    parameters: Seq<OpenApiParameterObjectView>,
    fields: Seq<(Seq<char>, Seq<char>)>,
    path: Seq<char>,
    failing: nat,
    n: nat,
)
    requires
        applied(parameters, fields, path, failing) is Err,
        failing <= n <= parameters.len(),
    ensures
        applied(parameters, fields, path, n) == applied(parameters, fields, path, failing),
    decreases n,
{
    if n > failing {
        lemma_applied_error(parameters, fields, path, failing, (n - 1) as nat);
    }
}

/// Plans the request that starts a deployment at `endpoint`: the caller's
/// `fields` give the values of the endpoint's parameters.
pub fn plan_request(endpoint: &Endpoint, fields: &OrderedMap<String>) -> (out: Result<
    StartRequest,
    StartError,
>)
    ensures
        agrees(out, request_of(endpoint.deep_view(), fields.deep_view())),
{
    let parameters = &endpoint.request.parameters;
    let ghost model = parameters.deep_view();
    let ghost given = fields.deep_view();
    let mut path = endpoint.path.clone();
    let mut query: Vec<(String, String)> = Vec::new();
    assert(query.deep_view() =~= Seq::empty());
    proof {
        lemma_model_of_map(*fields);
    }
    let mut i: usize = 0;
    while i < parameters.len()
        invariant
            i <= parameters@.len(),
            model == parameters.deep_view(),
            model == endpoint.deep_view().request.parameters,
            given == fields.deep_view(),
            forall|key: Seq<char>| model_has(given, key) == #[trigger] fields.has(key),
            forall|key: Seq<char>|
                fields.has(key) ==> #[trigger] model_at(given, key) == fields.at(key)@,
            applied(model, given, endpoint.path@, i as nat) == Ok::<
                (Seq<char>, Seq<(Seq<char>, Seq<char>)>),
                StartError,
            >((path@, query.deep_view())),
        decreases parameters@.len() - i,
    {
        let parameter = &parameters[i];
        assert(model[i as int] == parameter.deep_view());
        let value = match fields.get(parameter.name.as_str()) {
            Some(value) => value,
            None => {
                proof {
                    assert(!fields.has(parameter.name@));
                    assert(applied(model, given, endpoint.path@, (i + 1) as nat) is Err);
                    lemma_applied_error(
                        model,
                        given,
                        endpoint.path@,
                        (i + 1) as nat,
                        parameters@.len(),
                    );
                }
                return Err(StartError::ParameterMissing);
            },
        };
        assert(fields.has(parameter.name@));
        assert(model_at(given, parameter.name@) == value@);
        match parameter.location {
            OpenApiParameterIn::Path => {
                path = fill_path(path.as_str(), parameter.name.as_str(), value.as_str());
            },
            OpenApiParameterIn::Query => {
                let ghost before = query.deep_view();
                query.push((parameter.name.clone(), value.clone()));
                assert(query.deep_view() =~= before.push((parameter.name@, value@)));
            },
            _ => {
                proof {
                    assert(applied(model, given, endpoint.path@, (i + 1) as nat) is Err);
                    lemma_applied_error(
                        model,
                        given,
                        endpoint.path@,
                        (i + 1) as nat,
                        parameters@.len(),
                    );
                }
                return Err(StartError::UnsupportedLocation);
            },
        }
        i += 1;
    }
    let method = match parse_method(endpoint.method.as_str()) {
        Some(method) => method,
        None => {
            return Err(StartError::UnsupportedMethod);
        },
    };
    let body = match method {
        HttpMethod::Get => StartBody::Empty,
        HttpMethod::Head => StartBody::Empty,
        _ => if endpoint.request.request_body.is_some() {
            StartBody::Multipart
        } else {
            StartBody::Json
        },
    };
    Ok(StartRequest { url: endpoint.url.clone(), path, query, method, body })
}

/// The request that starts a deployment, once it is known whether the URL of
/// its start endpoint parses.
pub open spec fn start_of(
    deployment: DeploymentDoc,
    fields: Seq<(Seq<char>, Seq<char>)>,
    url_parses: bool,
) -> Result<StartRequestView, StartError> {
    match start_endpoint_of(deployment) {
        Err(error) => Err(error),
        Ok(endpoint) => if !url_parses {
            Err(StartError::InvalidUrl)
        } else {
            request_of(endpoint.deep_view(), fields)
        },
    }
}

/// Plans the request that starts a deployment on the device of its first
/// step, with the caller's `fields` as the values of the parameters.
pub fn schedule(deployment: &DeploymentDoc, fields: &OrderedMap<String>) -> (out: Result<
    StartRequest,
    StartError,
>)
    ensures
        match start_endpoint_of(*deployment) {
            Err(error) => out == Err::<StartRequest, StartError>(error),
            Ok(endpoint) => agrees(
                out,
                start_of(*deployment, fields.deep_view(), is_url(endpoint.url@)),
            ),
        },
{
    let endpoint = match get_start_endpoint(deployment) {
        Ok(endpoint) => endpoint,
        Err(error) => {
            return Err(error);
        },
    };
    if !parses_as_url(endpoint.url.as_str()) {
        return Err(StartError::InvalidUrl);
    }
    plan_request(endpoint, fields)
}

/// How many pointers to a later result a chain follows.
pub const MAX_DEPTH: usize = 5;

/// How many times a chain asks again for a result that is not there yet.
pub const MAX_TRIES: usize = 5;

/// How long a chain waits before it asks again, in seconds.
pub const RETRY_DELAY_SECONDS: u64 = 5;

/// The value under `result` in a device's reply.
#[derive(Clone, Debug, PartialEq, Eq)]
pub enum ReplyValue {
    /// A JSON string.
    Text(String),
    /// Any other JSON value.
    Other,
}

/// What a device replied, as far as the chain reads it.
#[derive(Clone, Debug, PartialEq, Eq)]
pub enum DeviceReply {
    /// The body is no JSON.
    NotJson,
    /// The body is JSON.
    Json {
        /// The text under `status`, where there is one.
        status: Option<String>,
        /// The value under `result`, where there is one.
        result: Option<ReplyValue>,
        /// Whether there is a value under `error`.
        has_error: bool,
        /// The text under `resultUrl`, where there is one.
        result_url: Option<String>,
    },
}

/// Where a chain stands.
#[derive(Clone, Debug, PartialEq, Eq)]
pub struct ChainState {
    /// Pointers followed so far.
    pub depth: usize,
    /// Repeated requests so far.
    pub tries: usize,
    /// The URL that was last fetched; none before the first pointer.
    pub url: Option<String>,
}

/// What a [`ChainState`] holds, as mathematical values.
pub struct ChainStateView {
    pub depth: usize,
    pub tries: usize,
    pub url: Option<Seq<char>>,
}

impl DeepView for ChainState {
    type V = ChainStateView;

    open spec fn deep_view(&self) -> ChainStateView {
        ChainStateView { depth: self.depth, tries: self.tries, url: self.url.deep_view() }
    }
}

/// Why a chain ends without a result of its devices.
#[derive(Clone, Copy, Debug, PartialEq, Eq, Structural)]
pub enum ChainFailure {
    /// A response is no JSON.
    NotJson,
    /// A request was answered with a status that is no success.
    FetchFailed { status: u16 },
    /// A response holds neither a result nor an error nor a pointer.
    UnexpectedShape,
    /// A response points on, and the chain has followed as many pointers as it may.
    DepthExhausted,
}

/// What a chain ends with.
#[derive(Clone, Copy, Debug, PartialEq, Eq, Structural)]
pub enum ChainOutcome {
    /// The value under `result` of the last response.
    Result,
    /// The value under `error` of the last response.
    Error,
    /// An error of the chain's own.
    Failure(ChainFailure),
}

/// What to do next in a chain.
#[derive(Clone, Debug, PartialEq, Eq)]
pub enum ChainAction {
    /// Fetch this URL.
    Fetch { url: String },
    /// Wait, then fetch this URL again.
    Retry { url: String, seconds: u64 },
    /// Answer the caller with this status.
    Finish { status: u16, outcome: ChainOutcome },
}

/// What a [`ChainAction`] holds, as mathematical values.
pub enum ChainActionView {
    Fetch { url: Seq<char> },
    Retry { url: Seq<char>, seconds: u64 },
    Finish { status: u16, outcome: ChainOutcome },
}

impl DeepView for ChainAction {
    type V = ChainActionView;

    open spec fn deep_view(&self) -> ChainActionView {
        match self {
            ChainAction::Fetch { url } => ChainActionView::Fetch { url: url@ },
            ChainAction::Retry { url, seconds } => ChainActionView::Retry {
                url: url@,
                seconds: *seconds,
            },
            ChainAction::Finish { status, outcome } => ChainActionView::Finish {
                status: *status,
                outcome: *outcome,
            },
        }
    }
}

/// The state of a chain before its first response.
pub fn start_chain() -> (state: ChainState)
    ensures
        state.deep_view() == (ChainStateView { depth: 0, tries: 0, url: None }),
{
    ChainState { depth: 0, tries: 0, url: None }
}

/// Whether a status is a success.
pub open spec fn is_success(status: u16) -> bool {
    200 <= status < 300
}

/// A chain that ends with an error of its own.
pub open spec fn failure(state: ChainStateView, failure: ChainFailure) -> (
    ChainStateView,
    ChainActionView,
) {
    (state, ChainActionView::Finish { status: 500, outcome: ChainOutcome::Failure(failure) })
}

/// A chain that follows a pointer, if it may follow one more.
pub open spec fn follow(state: ChainStateView, url: Seq<char>) -> (
    ChainStateView,
    ChainActionView,
) {
    if state.depth < MAX_DEPTH {
        (
            ChainStateView {
                depth: (state.depth + 1) as usize,
                tries: state.tries,
                url: Some(url),
            },
            ChainActionView::Fetch { url },
        )
    } else {
        failure(state, ChainFailure::DepthExhausted)
    }
}

/// What a chain does after a response with a success status. `text_is_url`
/// says whether the text under `result` parses as a URL, `pointer_is_url`
/// whether the text under `resultUrl` does.
pub open spec fn after_reply(
    state: ChainStateView,
    status: Option<Seq<char>>,
    result: Option<Option<Seq<char>>>,
    has_error: bool,
    result_url: Option<Seq<char>>,
    text_is_url: bool,
    pointer_is_url: bool,
) -> (ChainStateView, ChainActionView) {
    if result is Some && status != Some("error"@) {
        match result {
            Some(Some(text)) if text_is_url => follow(state, text),
            _ => (
                state,
                ChainActionView::Finish { status: 200, outcome: ChainOutcome::Result },
            ),
        }
    } else if has_error {
        (state, ChainActionView::Finish { status: 500, outcome: ChainOutcome::Error })
    } else {
        match result_url {
            Some(url) if pointer_is_url => follow(state, url),
            _ => failure(state, ChainFailure::UnexpectedShape),
        }
    }
}

/// The value under `result`, as the text that it holds or as no text.
pub open spec fn result_text(reply: DeviceReply) -> Option<Option<Seq<char>>> {
    match reply {
        DeviceReply::Json { result: Some(ReplyValue::Text(text)), .. } => Some(Some(text@)),
        DeviceReply::Json { result: Some(ReplyValue::Other), .. } => Some(None),
        _ => None,
    }
}

/// The text under `resultUrl`.
pub open spec fn pointer_text(reply: DeviceReply) -> Option<Seq<char>> {
    match reply {
        DeviceReply::Json { result_url: Some(url), .. } => Some(url@),
        _ => None,
    }
}

/// What a chain does after a response. A status that is no success ends the
/// chain, unless it is 404 to a fetched URL while both budgets last: then the
/// same URL is fetched again after a delay. A success is read as JSON: a
/// result that is no URL, or an error, ends the chain; a URL, as the result or
/// under `resultUrl`, is followed while the depth lasts.
pub open spec fn decide(
    state: ChainStateView,
    status: u16,
    reply: DeviceReply,
    text_is_url: bool,
    pointer_is_url: bool,
) -> (ChainStateView, ChainActionView) {
    if !is_success(status) {
        match state.url {
            Some(url) if status == 404 && state.depth < MAX_DEPTH && state.tries < MAX_TRIES => (
                ChainStateView {
                    depth: state.depth,
                    tries: (state.tries + 1) as usize,
                    url: Some(url),
                },
                ChainActionView::Retry { url, seconds: RETRY_DELAY_SECONDS },
            ),
            _ => failure(state, ChainFailure::FetchFailed { status }),
        }
    } else {
        match reply {
            DeviceReply::NotJson => failure(state, ChainFailure::NotJson),
            DeviceReply::Json { status: reply_status, has_error, .. } => after_reply(
                state,
                reply_status.deep_view(),
                result_text(reply),
                has_error,
                pointer_text(reply),
                text_is_url,
                pointer_is_url,
            ),
        }
    }
}

fn follow_pointer(state: ChainState, url: &String) -> (out: (ChainState, ChainAction))
    ensures
        out.0.deep_view() == follow(state.deep_view(), url@).0,
        out.1.deep_view() == follow(state.deep_view(), url@).1,
{
    if state.depth < MAX_DEPTH {
        (
            ChainState { depth: state.depth + 1, tries: state.tries, url: Some(url.clone()) },
            ChainAction::Fetch { url: url.clone() },
        )
    } else {
        (
            state,
            ChainAction::Finish {
                status: 500,
                outcome: ChainOutcome::Failure(ChainFailure::DepthExhausted),
            },
        )
    }
}

/// Decides what a chain does after a response with this status and this
/// reply. `text_is_url` says whether the text under `result` parses as a
/// URL, `pointer_is_url` whether the text under `resultUrl` does.
pub fn chain_step(
    state: ChainState,
    status: u16,
    reply: &DeviceReply,
    text_is_url: bool,
    pointer_is_url: bool,
) -> (out: (ChainState, ChainAction))
    ensures
        out.0.deep_view() == decide(
            state.deep_view(),
            status,
            *reply,
            text_is_url,
            pointer_is_url,
        ).0,
        out.1.deep_view() == decide(
            state.deep_view(),
            status,
            *reply,
            text_is_url,
            pointer_is_url,
        ).1,
{
    if status < 200 || status >= 300 {
        if status == 404 && state.depth < MAX_DEPTH && state.tries < MAX_TRIES {
            if let Some(url) = &state.url {
                let again = url.clone();
                return (
                    ChainState { depth: state.depth, tries: state.tries + 1, url: Some(url.clone()) },
                    ChainAction::Retry { url: again, seconds: RETRY_DELAY_SECONDS },
                );
            }
        }
        return (
            state,
            ChainAction::Finish {
                status: 500,
                outcome: ChainOutcome::Failure(ChainFailure::FetchFailed { status }),
            },
        );
    }
    match reply {
        DeviceReply::NotJson => (
            state,
            ChainAction::Finish {
                status: 500,
                outcome: ChainOutcome::Failure(ChainFailure::NotJson),
            },
        ),
        DeviceReply::Json { status: reply_status, result, has_error, result_url } => {
            let is_error = match reply_status {
                Some(text) => str_eq(text.as_str(), "error"),
                None => false,
            };
            if result.is_some() && !is_error {
                if let Some(ReplyValue::Text(text)) = result {
                    if text_is_url {
                        return follow_pointer(state, text);
                    }
                }
                return (
                    state,
                    ChainAction::Finish { status: 200, outcome: ChainOutcome::Result },
                );
            }
            if *has_error {
                return (
                    state,
                    ChainAction::Finish { status: 500, outcome: ChainOutcome::Error },
                );
            }
            if let Some(url) = result_url {
                if pointer_is_url {
                    return follow_pointer(state, url);
                }
            }
            (
                state,
                ChainAction::Finish {
                    status: 500,
                    outcome: ChainOutcome::Failure(ChainFailure::UnexpectedShape),
                },
            )
        },
    }
}

/// Whether the text under `result` of a reply is a URL.
pub open spec fn result_is_url(reply: DeviceReply) -> bool {
    match result_text(reply) {
        Some(Some(text)) => is_url(text),
        _ => false,
    }
}

/// Whether the text under `resultUrl` of a reply is a URL.
pub open spec fn pointer_is_url(reply: DeviceReply) -> bool {
    match pointer_text(reply) {
        Some(url) => is_url(url),
        None => false,
    }
}

/// Decides what a chain does after a response with this status and this reply.
pub fn next_action(state: ChainState, status: u16, reply: &DeviceReply) -> (out: (
    ChainState,
    ChainAction,
))
    ensures
        out.0.deep_view() == decide(
            state.deep_view(),
            status,
            *reply,
            result_is_url(*reply),
            pointer_is_url(*reply),
        ).0,
        out.1.deep_view() == decide(
            state.deep_view(),
            status,
            *reply,
            result_is_url(*reply),
            pointer_is_url(*reply),
        ).1,
{
    let text_is_url = match reply {
        DeviceReply::Json { result: Some(ReplyValue::Text(text)), .. } => parses_as_url(
            text.as_str(),
        ),
        _ => false,
    };
    let pointer_is_url = match reply {
        DeviceReply::Json { result_url: Some(url), .. } => parses_as_url(url.as_str()),
        _ => false,
    };
    chain_step(state, status, reply, text_is_url, pointer_is_url)
}

/// Every step of a chain that does not end it uses up one unit of a budget:
/// a followed pointer one of the depth, a repeated request one of the tries.
/// So a chain ends after at most ten such steps.
pub proof fn lemma_chain_ends(
    state: ChainStateView,
    status: u16,
    reply: DeviceReply,
    text_is_url: bool,
    pointer_is_url: bool,
)
    requires
        state.depth <= MAX_DEPTH,
        state.tries <= MAX_TRIES,
    ensures
        ({
            let (next, action) = decide(state, status, reply, text_is_url, pointer_is_url);
            &&& next.depth <= MAX_DEPTH
            &&& next.tries <= MAX_TRIES
            &&& action is Finish ==> next == state
            &&& action is Fetch ==> next.depth == state.depth + 1 && next.tries == state.tries
            &&& action is Retry ==> next.tries == state.tries + 1 && next.depth == state.depth
                && status == 404 && state.url == Some(action->Retry_url)
            &&& !(action is Finish) ==> (MAX_DEPTH - next.depth) + (MAX_TRIES - next.tries) < (
            MAX_DEPTH - state.depth) + (MAX_TRIES - state.tries)
        }),
{
}

} // verus!
