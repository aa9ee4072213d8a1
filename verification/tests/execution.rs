use wasmiot_orchestrator::deployment::{
    DeploymentDoc, DeploymentNode, DeviceModule, DeviceModuleUrls, Endpoint, Instructions,
    OperationRequest, OperationResponse, RequestBody, SequenceStep,
};
use wasmiot_orchestrator::errors::ErrorKind;
use wasmiot_orchestrator::execution::{
    chain_step, chain_step_header, get_start_endpoint, next_action, parse_method, plan_request,
    schedule, start_chain, ChainAction, ChainFailure, ChainOutcome, ChainState, DeviceReply,
    HttpMethod, ReplyValue, StartBody, StartError, StartRequest, MAX_DEPTH, MAX_TRIES,
    RETRY_DELAY_SECONDS,
};
use wasmiot_orchestrator::ids::ObjectId;
use wasmiot_orchestrator::openapi::{OpenApiParameterIn, OpenApiParameterObject};
use wasmiot_orchestrator::ordered_map::OrderedMap;

fn s(text: &str) -> String {
    text.to_string()
}

fn pairs<V>(entries: Vec<(&str, V)>) -> OrderedMap<V> {
    OrderedMap { entries: entries.into_iter().map(|(k, v)| (k.to_string(), v)).collect() }
}

fn fields(entries: Vec<(&str, &str)>) -> OrderedMap<String> {
    pairs(entries.into_iter().map(|(k, v)| (k, s(v))).collect())
}

fn declared(name: &str, location: OpenApiParameterIn) -> OpenApiParameterObject {
    OpenApiParameterObject { name: s(name), location, description: None, required: true, schema: None }
}

fn plain_body() -> RequestBody {
    RequestBody { media_type: s("multipart/form-data"), schema: None, encoding: None }
}

fn endpoint_with(
    url: &str,
    path: &str,
    method: &str,
    parameters: Vec<OpenApiParameterObject>,
    body: Option<RequestBody>,
) -> Endpoint {
    Endpoint {
        url: s(url),
        path: s(path),
        method: s(method),
        request: OperationRequest { parameters, request_body: body },
        response: OperationResponse { media_type: s("application/json"), schema: None },
    }
}

fn first_device() -> ObjectId {
    ObjectId::from_bytes([0x0a; 12])
}

fn first_module() -> ObjectId {
    ObjectId::from_bytes([0x0b; 12])
}

fn node_with(modules: Vec<(ObjectId, &str)>, endpoints: OrderedMap<OrderedMap<Endpoint>>) -> DeploymentNode {
    DeploymentNode {
        deployment_id: ObjectId::from_bytes([0xdd; 12]),
        modules: modules
            .into_iter()
            .map(|(id, name)| DeviceModule {
                id,
                name: s(name),
                urls: DeviceModuleUrls { binary: s("b"), description: s("d"), other: OrderedMap::new() },
            })
            .collect(),
        endpoints,
        instructions: Instructions { modules: OrderedMap::new() },
        mounts: OrderedMap::new(),
    }
}

fn stored(sequence: Vec<SequenceStep>, manifest: OrderedMap<DeploymentNode>) -> DeploymentDoc {
    DeploymentDoc {
        id: Some(ObjectId::from_bytes([0xdd; 12])),
        name: s("d"),
        sequence,
        validation_error: None,
        full_manifest: manifest,
        active: Some(true),
    }
}

fn start_step() -> SequenceStep {
    SequenceStep { device: first_device(), module: first_module(), func: s("take") }
}

fn take_endpoint() -> Endpoint {
    endpoint_with(
        "http://10.0.0.5:5000",
        "/dddddddddddddddddddddddd/modules/cam/take",
        "get",
        vec![declared("param0", OpenApiParameterIn::Query)],
        None,
    )
}

fn working_deployment() -> DeploymentDoc {
    stored(
        vec![start_step(), SequenceStep { device: first_module(), module: first_module(), func: s("x") }],
        pairs(vec![
            ("0b0b0b0b0b0b0b0b0b0b0b0b", node_with(vec![], OrderedMap::new())),
            (
                "0a0a0a0a0a0a0a0a0a0a0a0a",
                node_with(
                    vec![(first_device(), "other"), (first_module(), "cam"), (first_module(), "late")],
                    pairs(vec![
                        ("other", pairs(vec![("take", endpoint_with("http://x", "/x", "put", vec![], None))])),
                        ("cam", pairs(vec![("zoom", take_endpoint()), ("take", take_endpoint())])),
                    ]),
                ),
            ),
        ]),
    )
}

fn json(status: Option<&str>, result: Option<ReplyValue>, has_error: bool, result_url: Option<&str>) -> DeviceReply {
    DeviceReply::Json { status: status.map(s), result, has_error, result_url: result_url.map(s) }
}

fn at(depth: usize, tries: usize, url: Option<&str>) -> ChainState {
    ChainState { depth, tries, url: url.map(s) }
}

fn finish(status: u16, outcome: ChainOutcome) -> ChainAction {
    ChainAction::Finish { status, outcome }
}

#[test]
fn the_start_endpoint_is_found_under_the_name_of_the_module() {
    let deployment = working_deployment();
    assert_eq!(get_start_endpoint(&deployment), Ok(&take_endpoint()));
}

#[test]
fn start_endpoint_errors_one_by_one() {
    let mut deployment = working_deployment();
    deployment.sequence = vec![];
    assert_eq!(get_start_endpoint(&deployment), Err(StartError::EmptySequence));
    let mut deployment = working_deployment();
    deployment.sequence[0].device = ObjectId::from_bytes([0x0c; 12]);
    assert_eq!(get_start_endpoint(&deployment), Err(StartError::DeviceNotInManifest));
    let mut deployment = working_deployment();
    deployment.sequence[0].module = ObjectId::from_bytes([0x0c; 12]);
    assert_eq!(get_start_endpoint(&deployment), Err(StartError::ModuleNotOnDevice));
    let mut deployment = working_deployment();
    deployment.sequence[0].func = s("pan");
    assert_eq!(get_start_endpoint(&deployment), Err(StartError::EndpointMissing));
    let mut deployment = working_deployment();
    deployment.sequence[0].module = first_device();
    deployment.sequence[0].func = s("zoom");
    assert_eq!(get_start_endpoint(&deployment), Err(StartError::EndpointMissing));
    let mut deployment = working_deployment();
    deployment.full_manifest.entries[1].1.modules[1].name = s("gone");
    assert_eq!(get_start_endpoint(&deployment), Err(StartError::EndpointMissing));
}

#[test]
fn the_start_request_of_a_deployment() {
    let request = schedule(&working_deployment(), &fields(vec![("param0", "7"), ("unused", "x")])).unwrap();
    assert_eq!(
        request,
        StartRequest {
            url: s("http://10.0.0.5:5000"),
            path: s("/dddddddddddddddddddddddd/modules/cam/take"),
            query: vec![(s("param0"), s("7"))],
            method: HttpMethod::Get,
            body: StartBody::Empty,
        }
    );
    assert_eq!(chain_step_header(), ("X-Chain-Step", "0"));
}

#[test]
fn a_start_endpoint_needs_a_url_that_parses() {
    let mut deployment = working_deployment();
    deployment.full_manifest.entries[1].1.endpoints.entries[1].1.entries[1].1.url = s("10.0.0.5:5000/x y");
    assert_eq!(schedule(&deployment, &fields(vec![("param0", "7")])), Err(StartError::InvalidUrl));
    deployment.full_manifest.entries[1].1.endpoints.entries[1].1.entries[1].1.url = s("");
    assert_eq!(schedule(&deployment, &fields(vec![("param0", "7")])), Err(StartError::InvalidUrl));
    deployment.sequence = vec![];
    assert_eq!(schedule(&deployment, &fields(vec![])), Err(StartError::EmptySequence));
}

#[test]
fn path_parameters_take_the_place_of_their_tokens() {
    let endpoint = endpoint_with(
        "http://h",
        "/{deployment}/modules/{name}/name/{other}",
        "POST",
        vec![
            declared("name", OpenApiParameterIn::Path),
            declared("q", OpenApiParameterIn::Query),
            declared("other", OpenApiParameterIn::Path),
            declared("deployment", OpenApiParameterIn::Path),
            declared("r", OpenApiParameterIn::Query),
        ],
        None,
    );
    let request = plan_request(
        &endpoint,
        &fields(vec![("r", "2"), ("q", "1 & 1"), ("deployment", "d1"), ("other", "{name}"), ("name", "cam")]),
    )
    .unwrap();
    assert_eq!(request.path, "/d1/modules/cam/name/{name}");
    assert_eq!(request.query, vec![(s("q"), s("1 & 1")), (s("r"), s("2"))]);
    assert_eq!(request.method, HttpMethod::Post);
    assert_eq!(request.body, StartBody::Json);
    assert_eq!(request.url, "http://h");
}

#[test]
fn a_bare_name_is_replaced_where_no_token_stands() {
    let endpoint = endpoint_with(
        "http://h",
        "/modules/id/run/id",
        "get",
        vec![declared("id", OpenApiParameterIn::Path), declared("", OpenApiParameterIn::Path)],
        None,
    );
    let request = plan_request(&endpoint, &fields(vec![("id", "42"), ("", "zz")])).unwrap();
    assert_eq!(request.path, "/modules/42/run/42");
    let braces = endpoint_with("http://h", "/a/{}/b", "get", vec![declared("", OpenApiParameterIn::Path)], None);
    assert_eq!(plan_request(&braces, &fields(vec![("", "zz")])).unwrap().path, "/a/zz/b");
}

#[test]
fn start_request_errors_one_by_one() {
    let endpoint = endpoint_with(
        "http://h",
        "/p",
        "fetch",
        vec![
            declared("a", OpenApiParameterIn::Query),
            declared("b", OpenApiParameterIn::Header),
            declared("c", OpenApiParameterIn::Query),
        ],
        None,
    );
    assert_eq!(plan_request(&endpoint, &fields(vec![])), Err(StartError::ParameterMissing));
    assert_eq!(plan_request(&endpoint, &fields(vec![("a", "1"), ("c", "3")])), Err(StartError::ParameterMissing));
    assert_eq!(
        plan_request(&endpoint, &fields(vec![("a", "1"), ("b", "2")])),
        Err(StartError::UnsupportedLocation)
    );
    for location in vec![OpenApiParameterIn::Cookie, OpenApiParameterIn::RequestBody, OpenApiParameterIn::Header] {
        let one = endpoint_with("http://h", "/p", "get", vec![declared("a", location)], None);
        assert_eq!(plan_request(&one, &fields(vec![("a", "1")])), Err(StartError::UnsupportedLocation));
    }
    let no_parameters = endpoint_with("http://h", "/p", "fetch", vec![], None);
    assert_eq!(plan_request(&no_parameters, &fields(vec![])), Err(StartError::UnsupportedMethod));
    assert_eq!(StartError::ParameterMissing.kind(), ErrorKind::BadRequest);
    assert_eq!(StartError::UnsupportedMethod.kind(), ErrorKind::Internal);
}

#[test]
fn methods_are_read_in_any_case() {
    assert_eq!(parse_method("get"), Some(HttpMethod::Get));
    assert_eq!(parse_method("GET"), Some(HttpMethod::Get));
    assert_eq!(parse_method("Head"), Some(HttpMethod::Head));
    assert_eq!(parse_method("pOsT"), Some(HttpMethod::Post));
    assert_eq!(parse_method("put"), Some(HttpMethod::Put));
    assert_eq!(parse_method("DELETE"), Some(HttpMethod::Delete));
    assert_eq!(parse_method("patch"), Some(HttpMethod::Patch));
    assert_eq!(parse_method("OPTIONS"), Some(HttpMethod::Options));
    assert_eq!(parse_method("trace"), Some(HttpMethod::Trace));
    assert_eq!(parse_method(""), None);
    assert_eq!(parse_method("get "), None);
    assert_eq!(parse_method("connect"), None);
}

#[test]
fn the_body_depends_on_the_method_and_on_the_declared_body() {
    for (method, body, expected) in vec![
        ("get", Some(plain_body()), StartBody::Empty),
        ("head", Some(plain_body()), StartBody::Empty),
        ("get", None, StartBody::Empty),
        ("post", Some(plain_body()), StartBody::Multipart),
        ("post", None, StartBody::Json),
        ("put", Some(plain_body()), StartBody::Multipart),
        ("delete", None, StartBody::Json),
        ("trace", None, StartBody::Json),
    ] {
        let endpoint = endpoint_with("http://h", "/p", method, vec![], body);
        assert_eq!(plan_request(&endpoint, &fields(vec![])).unwrap().body, expected);
    }
}

#[test]
fn a_result_that_is_ready_after_one_retry() {
    let state = start_chain();
    assert_eq!(state, at(0, 0, None));
    let first = json(Some("ok"), Some(ReplyValue::Text(s("http://dev/r/1"))), false, None);
    let (state, action) = next_action(state, 200, &first);
    assert_eq!(action, ChainAction::Fetch { url: s("http://dev/r/1") });
    assert_eq!(state, at(1, 0, Some("http://dev/r/1")));
    let (state, action) = next_action(state, 404, &DeviceReply::NotJson);
    assert_eq!(action, ChainAction::Retry { url: s("http://dev/r/1"), seconds: 5 });
    assert_eq!(state, at(1, 1, Some("http://dev/r/1")));
    let (state, action) = next_action(state, 200, &json(None, Some(ReplyValue::Other), false, None));
    assert_eq!(action, finish(200, ChainOutcome::Result));
    assert_eq!(state, at(1, 1, Some("http://dev/r/1")));
}

#[test]
fn an_error_ends_the_chain_at_once() {
    let (state, action) = next_action(start_chain(), 200, &json(None, None, true, None));
    assert_eq!(action, finish(500, ChainOutcome::Error));
    assert_eq!(state, start_chain());
    let (_, action) = next_action(start_chain(), 200, &json(None, None, true, Some("http://dev/r/1")));
    assert_eq!(action, finish(500, ChainOutcome::Error));
}

#[test]
fn a_result_that_is_no_url_is_final() {
    for result in vec![
        ReplyValue::Other,
        ReplyValue::Text(s("42")),
        ReplyValue::Text(s("")),
        ReplyValue::Text(s("/relative/path")),
        ReplyValue::Text(s("not a url")),
    ] {
        let (state, action) = next_action(at(2, 1, Some("http://d/x")), 200, &json(Some("ok"), Some(result), true, None));
        assert_eq!(action, finish(200, ChainOutcome::Result));
        assert_eq!(state, at(2, 1, Some("http://d/x")));
    }
}

#[test]
fn a_result_with_the_status_error_is_no_result() {
    let reply = json(Some("error"), Some(ReplyValue::Text(s("http://dev/r/1"))), true, None);
    assert_eq!(next_action(start_chain(), 200, &reply).1, finish(500, ChainOutcome::Error));
    let reply = json(Some("error"), Some(ReplyValue::Other), false, Some("http://dev/r/2"));
    assert_eq!(next_action(start_chain(), 200, &reply).1, ChainAction::Fetch { url: s("http://dev/r/2") });
    let reply = json(Some("error"), Some(ReplyValue::Other), false, None);
    assert_eq!(
        next_action(start_chain(), 200, &reply).1,
        finish(500, ChainOutcome::Failure(ChainFailure::UnexpectedShape))
    );
    let reply = json(Some("Error"), Some(ReplyValue::Other), false, None);
    assert_eq!(next_action(start_chain(), 200, &reply).1, finish(200, ChainOutcome::Result));
}

#[test]
fn a_pointer_under_result_url_is_followed() {
    let reply = json(None, None, false, Some("https://dev.example:8080/r/9?x=1"));
    let (state, action) = next_action(at(3, 2, Some("http://old")), 201, &reply);
    assert_eq!(action, ChainAction::Fetch { url: s("https://dev.example:8080/r/9?x=1") });
    assert_eq!(state, at(4, 2, Some("https://dev.example:8080/r/9?x=1")));
    let reply = json(None, None, false, Some("no url"));
    assert_eq!(
        next_action(start_chain(), 200, &reply).1,
        finish(500, ChainOutcome::Failure(ChainFailure::UnexpectedShape))
    );
    assert_eq!(
        next_action(start_chain(), 200, &json(None, None, false, None)).1,
        finish(500, ChainOutcome::Failure(ChainFailure::UnexpectedShape))
    );
}

#[test]
fn a_body_that_is_no_json_ends_the_chain() {
    let (state, action) = next_action(at(1, 0, Some("http://d")), 200, &DeviceReply::NotJson);
    assert_eq!(action, finish(500, ChainOutcome::Failure(ChainFailure::NotJson)));
    assert_eq!(state, at(1, 0, Some("http://d")));
}

#[test]
fn only_a_fetched_url_is_asked_again_and_only_after_404() {
    let pointer = json(None, None, false, Some("http://dev/r/1"));
    assert_eq!(
        next_action(start_chain(), 404, &pointer).1,
        finish(500, ChainOutcome::Failure(ChainFailure::FetchFailed { status: 404 }))
    );
    for status in vec![199, 300, 400, 403, 405, 500, 503] {
        let (state, action) = next_action(at(1, 0, Some("http://d")), status, &pointer);
        assert_eq!(action, finish(500, ChainOutcome::Failure(ChainFailure::FetchFailed { status })));
        assert_eq!(state, at(1, 0, Some("http://d")));
    }
    for status in vec![200, 204, 299] {
        assert_eq!(
            next_action(at(1, 0, Some("http://d")), status, &pointer).1,
            ChainAction::Fetch { url: s("http://dev/r/1") }
        );
    }
}

#[test]
fn the_budgets_bound_the_chain() {
    assert_eq!((MAX_DEPTH, MAX_TRIES, RETRY_DELAY_SECONDS), (5, 5, 5));
    let pointer = json(None, None, false, Some("http://dev/r/1"));
    let (state, action) = next_action(at(4, 0, Some("http://d")), 200, &pointer);
    assert_eq!(action, ChainAction::Fetch { url: s("http://dev/r/1") });
    assert_eq!(state.depth, 5);
    let (state, action) = next_action(state, 200, &pointer);
    assert_eq!(action, finish(500, ChainOutcome::Failure(ChainFailure::DepthExhausted)));
    assert_eq!(state.depth, 5);
    assert_eq!(
        next_action(at(5, 0, Some("http://d")), 404, &pointer).1,
        finish(500, ChainOutcome::Failure(ChainFailure::FetchFailed { status: 404 }))
    );
    assert_eq!(
        next_action(at(1, 4, Some("http://d")), 404, &pointer),
        (at(1, 5, Some("http://d")), ChainAction::Retry { url: s("http://d"), seconds: 5 })
    );
    assert_eq!(
        next_action(at(1, 5, Some("http://d")), 404, &pointer).1,
        finish(500, ChainOutcome::Failure(ChainFailure::FetchFailed { status: 404 }))
    );
}

#[test]
fn a_chain_ends_after_at_most_ten_steps_that_go_on() {
    let pointer = json(None, None, false, Some("http://dev/next"));
    let mut state = start_chain();
    let mut going = 0;
    let mut status = 200;
    loop {
        let (next, action) = next_action(state, status, &pointer);
        state = next;
        match action {
            ChainAction::Finish { .. } => break,
            ChainAction::Fetch { .. } | ChainAction::Retry { .. } => {
                status = if state.tries < 5 { 404 } else { 200 };
            }
        }
        going += 1;
        assert!(going <= 10);
    }
    assert_eq!(going, 10);
    assert_eq!((state.depth, state.tries), (5, 5));
}

#[test]
fn the_decision_takes_what_it_is_told_of_the_texts() {
    let reply = json(None, Some(ReplyValue::Text(s("anything"))), false, Some("else"));
    assert_eq!(
        chain_step(start_chain(), 200, &reply, true, false).1,
        ChainAction::Fetch { url: s("anything") }
    );
    assert_eq!(chain_step(start_chain(), 200, &reply, false, true).1, finish(200, ChainOutcome::Result));
    let pointer = json(None, None, false, Some("else"));
    assert_eq!(chain_step(start_chain(), 200, &pointer, true, true).1, ChainAction::Fetch { url: s("else") });
    assert_eq!(
        chain_step(start_chain(), 200, &pointer, true, false).1,
        finish(500, ChainOutcome::Failure(ChainFailure::UnexpectedShape))
    );
}

#[test]
fn the_words_of_a_chain_failure() {
    assert_eq!(ChainFailure::NotJson.message(), "parsing result to JSON failed");
    assert_eq!(ChainFailure::FetchFailed { status: 404 }.message(), "fetching result failed: 404");
    assert_eq!(ChainFailure::UnexpectedShape.message(), "unexpected execution response shape");
    assert_eq!(ChainFailure::DepthExhausted.message(), "too many result pointers followed");
}
