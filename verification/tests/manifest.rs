use wasmiot_orchestrator::deployment::{
    Endpoint, MountPathFile, MultipartMediaType, OperationRequest, OperationResponse,
    RequestBody, SchemaObject, SchemaProperty, SequenceStep,
};
use wasmiot_orchestrator::device::{
    CpuInfo, DeviceCommunication, DeviceDescription, DeviceDoc, MemoryInfo, OsInfo, PlatformInfo,
};
use wasmiot_orchestrator::ids::ObjectId;
use wasmiot_orchestrator::manifest::{
    build_endpoint, collect_datafile_paths, create_solution, device_id_hex, fill_server_url,
    module_data, pick_single_operation, supervisor_execution_path, BuildError,
};
use wasmiot_orchestrator::module::{
    DataFileInfo, ModuleDoc, ModuleMount, MountStage, WasmBinaryInfo, WasmExport,
    WasmRequirement,
};
use wasmiot_orchestrator::mounts::{
    declared_stage_of, is_supported, mounts_for, openapi_object_to_simple_schema,
    request_body_to_multipart, supported_file_types, MountError,
};
use wasmiot_orchestrator::openapi::{
    OpenApiDocument, OpenApiEncodingObject, OpenApiFormat, OpenApiInfo, OpenApiMediaTypeObject,
    OpenApiOperation, OpenApiParameterEnum, OpenApiParameterIn, OpenApiParameterObject,
    OpenApiPathItemObject, OpenApiPropertyEnum, OpenApiPropertyObject, OpenApiReferenceObject,
    OpenApiRequestBodyObject, OpenApiResponseObject, OpenApiSchemaEnum, OpenApiSchemaObject,
    OpenApiServerObject, RequestBodyEnum, ResponseEnum,
};
use wasmiot_orchestrator::ordered_map::OrderedMap;
use wasmiot_orchestrator::resolver::AssignedStep;

fn text(s: &str) -> String {
    s.to_string()
}

fn map_of<V>(entries: Vec<(&str, V)>) -> OrderedMap<V> {
    OrderedMap { entries: entries.into_iter().map(|(k, v)| (k.to_string(), v)).collect() }
}

fn oid(last: u8) -> ObjectId {
    let mut bytes = [0xaa_u8; 12];
    bytes[11] = last;
    ObjectId::from_bytes(bytes)
}

fn device(id: Option<ObjectId>, name: &str, addresses: Vec<&str>, port: u16, interfaces: Vec<&str>) -> DeviceDoc {
    DeviceDoc {
        id,
        name: text(name),
        communication: DeviceCommunication {
            addresses: addresses.into_iter().map(text).collect(),
            port,
        },
        description: DeviceDescription {
            platform: PlatformInfo {
                cpu: CpuInfo {
                    architecture: text("arm"),
                    clock_speed_hz: 1,
                    core_count: 4,
                    human_readable_name: text("cpu"),
                },
                memory: MemoryInfo { total_bytes: 1024 },
                system: OsInfo {
                    host_name: text(name),
                    kernel: text("k"),
                    name: text("n"),
                    os: text("o"),
                },
            },
            supervisor_interfaces: interfaces.into_iter().map(text).collect(),
        },
    }
}

fn schema(ty: &str) -> OpenApiSchemaObject {
    OpenApiSchemaObject { ty: Some(text(ty)), properties: None, format: None }
}

fn response_200(media_type: &str, schema_slot: Option<OpenApiSchemaEnum>) -> OrderedMap<ResponseEnum> {
    map_of(vec![(
        "200",
        ResponseEnum::OpenApiResponseObject(OpenApiResponseObject {
            description: text("ok"),
            content: Some(map_of(vec![(
                media_type,
                OpenApiMediaTypeObject { schema: schema_slot, encoding: None },
            )])),
        }),
    )])
}

fn operation(
    parameters: Option<Vec<OpenApiParameterEnum>>,
    request_body: Option<RequestBodyEnum>,
    responses: OrderedMap<ResponseEnum>,
) -> OpenApiOperation {
    OpenApiOperation { summary: None, parameters, request_body, responses }
}

fn empty_item() -> OpenApiPathItemObject {
    OpenApiPathItemObject {
        summary: None,
        get: None,
        put: None,
        post: None,
        delete: None,
        options: None,
        head: None,
        patch: None,
        trace: None,
        parameters: None,
    }
}

fn get_item(op: OpenApiOperation) -> OpenApiPathItemObject {
    let mut item = empty_item();
    item.get = Some(op);
    item
}

fn post_item(op: OpenApiOperation) -> OpenApiPathItemObject {
    let mut item = empty_item();
    item.post = Some(op);
    item
}

fn query_parameter(name: &str) -> OpenApiParameterEnum {
    OpenApiParameterEnum::OpenApiParameterObject(OpenApiParameterObject {
        name: text(name),
        location: OpenApiParameterIn::Query,
        description: Some(text("Auto-generated description")),
        required: true,
        schema: Some(OpenApiSchemaEnum::OpenApiSchemaObject(schema("integer"))),
    })
}

fn body_parameter(name: &str) -> OpenApiParameterEnum {
    OpenApiParameterEnum::OpenApiParameterObject(OpenApiParameterObject {
        name: text(name),
        location: OpenApiParameterIn::RequestBody,
        description: None,
        required: true,
        schema: None,
    })
}

fn binary_property() -> OpenApiPropertyEnum {
    OpenApiPropertyEnum::OpenApiPropertyObject(OpenApiPropertyObject {
        ty: Some(text("string")),
        format: Some(OpenApiFormat::Binary),
    })
}

fn encoding(content_type: &str) -> OpenApiEncodingObject {
    OpenApiEncodingObject { content_type: Some(text(content_type)) }
}

fn multipart_body(
    properties: Vec<(&str, OpenApiPropertyEnum)>,
    encodings: Vec<(&str, OpenApiEncodingObject)>,
) -> RequestBodyEnum {
    RequestBodyEnum::OpenApiRequestBodyObject(OpenApiRequestBodyObject {
        description: None,
        content: map_of(vec![(
            "multipart/form-data",
            OpenApiMediaTypeObject {
                schema: Some(OpenApiSchemaEnum::OpenApiSchemaObject(OpenApiSchemaObject {
                    ty: Some(text("object")),
                    properties: Some(map_of(properties)),
                    format: None,
                })),
                encoding: Some(map_of(encodings)),
            },
        )]),
        required: Some(true),
    })
}

fn module(
    id: Option<ObjectId>,
    name: &str,
    paths: Vec<(&str, OpenApiPathItemObject)>,
    mounts: OrderedMap<OrderedMap<ModuleMount>>,
) -> ModuleDoc {
    ModuleDoc {
        id,
        name: text(name),
        exports: vec![WasmExport { name: text("take"), parameter_count: 0 }],
        requirements: vec![WasmRequirement {
            module: text("camera"),
            name: text("takeImage"),
            kind: text("function"),
        }],
        wasm: WasmBinaryInfo {
            original_filename: text("m.wasm"),
            file_name: text("abc"),
            path: text("./files/wasm/abc"),
        },
        data_files: OrderedMap::new(),
        description: OpenApiDocument {
            info: OpenApiInfo { title: text(name), description: None, version: text("0.0.1") },
            servers: Some(vec![OpenApiServerObject {
                url: text("http://{serverIp}:{port}"),
                description: None,
            }]),
            paths: map_of(paths),
        },
        mounts,
    }
}

fn mount(media_type: &str, stage: MountStage) -> ModuleMount {
    ModuleMount { media_type: text(media_type), stage }
}

/// A module `cam` with `take`: GET, two query parameters, JSON response.
fn camera_module() -> ModuleDoc {
    module(
        Some(oid(0x10)),
        "cam",
        vec![(
            "/{deployment}/modules/cam/take",
            get_item(operation(
                Some(vec![query_parameter("param0"), query_parameter("param1")]),
                None,
                response_200(
                    "application/json",
                    Some(OpenApiSchemaEnum::OpenApiSchemaObject(schema("integer"))),
                ),
            )),
        )],
        OrderedMap::new(),
    )
}

/// A module `ml` with `infer`: POST, a multipart body of an image needed at
/// execution and a model needed at deployment, and an image as its response.
fn inference_module() -> ModuleDoc {
    module(
        Some(oid(0x20)),
        "ml",
        vec![(
            "/{deployment}/modules/ml/infer",
            post_item(operation(
                None,
                Some(multipart_body(
                    vec![("image", binary_property()), ("model", binary_property())],
                    vec![
                        ("image", encoding("image/jpeg")),
                        ("model", encoding("application/octet-stream")),
                    ],
                )),
                response_200("image/png", None),
            )),
        )],
        map_of(vec![(
            "infer",
            map_of(vec![
                ("image", mount("image/jpeg", MountStage::Execution)),
                ("model", mount("application/octet-stream", MountStage::Deployment)),
                ("out.png", mount("image/png", MountStage::Output)),
            ]),
        )]),
    )
}

fn step(device: DeviceDoc, module: ModuleDoc, func: &str) -> AssignedStep {
    AssignedStep { device, module, func: text(func) }
}

fn device_a() -> DeviceDoc {
    device(Some(oid(0x01)), "a", vec!["10.0.0.5", "10.0.0.6"], 5000, vec!["takeImage"])
}

fn device_b() -> DeviceDoc {
    device(Some(oid(0x02)), "b", vec![], 80, vec!["takeImage"])
}

const DEPLOYMENT_HEX: &str = "aaaaaaaaaaaaaaaaaaaaaaff";
const DEVICE_A_HEX: &str = "aaaaaaaaaaaaaaaaaaaaaa01";
const DEVICE_B_HEX: &str = "aaaaaaaaaaaaaaaaaaaaaa02";

fn deployment_id() -> ObjectId {
    oid(0xff)
}

fn file(path: &str, media_type: &str, stage: MountStage) -> MountPathFile {
    MountPathFile { path: text(path), media_type: text(media_type), stage: Some(stage) }
}

#[test]
fn execution_path_of_a_function() {
    assert_eq!(supervisor_execution_path("cam", "take"), "/{deployment}/modules/cam/take");
    assert_eq!(supervisor_execution_path("", ""), "/{deployment}/modules//");
}

#[test]
fn server_url_takes_first_address_and_port() {
    assert_eq!(fill_server_url("http://{serverIp}:{port}", &device_a()), "http://10.0.0.5:5000");
    assert_eq!(
        fill_server_url("{port}{serverIp}{port}/{serverIp}", &device_a()),
        "500010.0.0.55000/10.0.0.5"
    );
    assert_eq!(fill_server_url("http://fixed", &device_a()), "http://fixed");
}

#[test]
fn server_url_falls_back_to_localhost() {
    assert_eq!(fill_server_url("http://{serverIp}:{port}", &device_b()), "http://localhost:80");
}

#[test]
fn server_url_with_port_zero_and_largest_port() {
    let zero = device(Some(oid(1)), "z", vec!["h"], 0, vec![]);
    let largest = device(Some(oid(1)), "z", vec!["h"], 65535, vec![]);
    assert_eq!(fill_server_url("{serverIp}:{port}", &zero), "h:0");
    assert_eq!(fill_server_url("{serverIp}:{port}", &largest), "h:65535");
}

#[test]
fn module_data_builds_the_urls_of_the_files() {
    let mut module = camera_module();
    module.data_files = map_of(vec![
        (
            "model.pb",
            DataFileInfo {
                original_filename: text("model.pb"),
                file_name: text("x1"),
                path: text("./files/x1"),
            },
        ),
        (
            "labels",
            DataFileInfo {
                original_filename: text("labels.txt"),
                file_name: text("x2"),
                path: text("./files/x2"),
            },
        ),
    ]);
    let data = module_data(&module, "http://orch:3000///").unwrap();
    assert_eq!(data.id, oid(0x10));
    assert_eq!(data.name, "cam");
    assert_eq!(data.urls.binary, "http://orch:3000/file/module/aaaaaaaaaaaaaaaaaaaaaa10/wasm");
    assert_eq!(
        data.urls.description,
        "http://orch:3000/file/module/aaaaaaaaaaaaaaaaaaaaaa10/description"
    );
    assert_eq!(
        data.urls.other.entries,
        vec![
            (
                text("model.pb"),
                text("http://orch:3000/file/module/aaaaaaaaaaaaaaaaaaaaaa10/model.pb")
            ),
            (text("labels"), text("http://orch:3000/file/module/aaaaaaaaaaaaaaaaaaaaaa10/labels")),
        ]
    );
}

#[test]
fn the_paths_of_the_data_files_of_a_module() {
    let mut module = camera_module();
    assert!(collect_datafile_paths(&module).is_empty());
    module.data_files = map_of(vec![
        (
            "b",
            DataFileInfo { original_filename: text("b"), file_name: text("2"), path: text("./files/2") },
        ),
        (
            "a",
            DataFileInfo { original_filename: text("a"), file_name: text("1"), path: text("./files/1") },
        ),
    ]);
    assert_eq!(collect_datafile_paths(&module), vec!["./files/2", "./files/1"]);
}

#[test]
fn the_identifier_of_a_device_as_text() {
    assert_eq!(device_id_hex(&device_a()), Ok(text(DEVICE_A_HEX)));
    let mut unsaved = device_a();
    unsaved.id = None;
    assert_eq!(device_id_hex(&unsaved), Err(BuildError::DeviceIdMissing));
}

#[test]
fn module_data_needs_the_identifier() {
    let mut module = camera_module();
    module.id = None;
    assert_eq!(module_data(&module, "http://orch"), Err(BuildError::ModuleIdMissing));
}

#[test]
fn first_operation_wins_in_the_order_of_methods() {
    let mut item = empty_item();
    assert_eq!(pick_single_operation(&item), Err(BuildError::NoOperation));
    let traced = operation(None, None, response_200("a/b", None));
    let posted = operation(None, None, response_200("c/d", None));
    item.trace = Some(traced.clone());
    assert_eq!(pick_single_operation(&item), Ok(("trace", &traced)));
    item.post = Some(posted.clone());
    assert_eq!(pick_single_operation(&item), Ok(("post", &posted)));
    item.put = Some(traced.clone());
    assert_eq!(pick_single_operation(&item), Ok(("put", &traced)));
    item.get = Some(posted.clone());
    assert_eq!(pick_single_operation(&item), Ok(("get", &posted)));
}

#[test]
fn endpoint_of_a_step() {
    let endpoint = build_endpoint(&step(device_a(), camera_module(), "take"), &deployment_id()).unwrap();
    assert_eq!(endpoint.url, "http://10.0.0.5:5000");
    assert_eq!(endpoint.path, "/aaaaaaaaaaaaaaaaaaaaaaff/modules/cam/take");
    assert_eq!(endpoint.method, "get");
    assert_eq!(endpoint.request.parameters.len(), 2);
    assert_eq!(endpoint.request.parameters[0].name, "param0");
    assert_eq!(endpoint.request.parameters[1].name, "param1");
    assert_eq!(endpoint.request.parameters[1].location, OpenApiParameterIn::Query);
    assert_eq!(endpoint.request.request_body, None);
    assert_eq!(endpoint.response.media_type, "application/json");
    assert_eq!(endpoint.response.schema, Some(schema("integer")));
}

#[test]
fn endpoint_takes_the_first_media_type_of_the_body() {
    let endpoint = build_endpoint(&step(device_b(), inference_module(), "infer"), &deployment_id()).unwrap();
    assert_eq!(endpoint.method, "post");
    let body = endpoint.request.request_body.unwrap();
    assert_eq!(body.media_type, "multipart/form-data");
    assert_eq!(body.encoding.unwrap().get("model"), Some(&encoding("application/octet-stream")));
    assert_eq!(body.schema.unwrap().properties.unwrap().len(), 2);
    assert_eq!(endpoint.response.media_type, "image/png");
    assert_eq!(endpoint.response.schema, None);
}

fn with_operation(op: OpenApiOperation) -> AssignedStep {
    step(
        device_a(),
        module(
            Some(oid(0x10)),
            "cam",
            vec![("/{deployment}/modules/cam/take", get_item(op))],
            OrderedMap::new(),
        ),
        "take",
    )
}

fn reference() -> OpenApiReferenceObject {
    OpenApiReferenceObject { reference: text("#/components/x") }
}

#[test]
fn endpoint_errors_one_by_one() {
    let id = deployment_id();
    assert_eq!(
        build_endpoint(&step(device_a(), camera_module(), "missing"), &id),
        Err(BuildError::PathMissing)
    );
    let no_operation = step(
        device_a(),
        module(
            Some(oid(0x10)),
            "cam",
            vec![("/{deployment}/modules/cam/take", empty_item())],
            OrderedMap::new(),
        ),
        "take",
    );
    assert_eq!(build_endpoint(&no_operation, &id), Err(BuildError::NoOperation));
    assert_eq!(
        build_endpoint(&with_operation(operation(None, None, OrderedMap::new())), &id),
        Err(BuildError::ResponseMissing)
    );
    assert_eq!(
        build_endpoint(
            &with_operation(operation(
                None,
                None,
                map_of(vec![("200", ResponseEnum::OpenApiReferenceObject(reference()))])
            )),
            &id
        ),
        Err(BuildError::ResponseReference)
    );
    assert_eq!(
        build_endpoint(
            &with_operation(operation(
                None,
                None,
                map_of(vec![(
                    "200",
                    ResponseEnum::OpenApiResponseObject(OpenApiResponseObject {
                        description: text("d"),
                        content: None
                    })
                )])
            )),
            &id
        ),
        Err(BuildError::ResponseContentMissing)
    );
    assert_eq!(
        build_endpoint(
            &with_operation(operation(
                None,
                None,
                map_of(vec![(
                    "200",
                    ResponseEnum::OpenApiResponseObject(OpenApiResponseObject {
                        description: text("d"),
                        content: Some(OrderedMap::new())
                    })
                )])
            )),
            &id
        ),
        Err(BuildError::ResponseContentEmpty)
    );
    assert_eq!(
        build_endpoint(
            &with_operation(operation(
                None,
                None,
                response_200("a/b", Some(OpenApiSchemaEnum::OpenApiReferenceObject(reference())))
            )),
            &id
        ),
        Err(BuildError::ResponseSchemaReference)
    );
    assert_eq!(
        build_endpoint(
            &with_operation(operation(
                None,
                Some(RequestBodyEnum::OpenApiReferenceObject(reference())),
                response_200("a/b", None)
            )),
            &id
        ),
        Err(BuildError::RequestBodyReference)
    );
    assert_eq!(
        build_endpoint(
            &with_operation(operation(
                None,
                Some(RequestBodyEnum::OpenApiRequestBodyObject(OpenApiRequestBodyObject {
                    description: None,
                    content: map_of(vec![(
                        "a/b",
                        OpenApiMediaTypeObject {
                            schema: Some(OpenApiSchemaEnum::OpenApiReferenceObject(reference())),
                            encoding: None
                        }
                    )]),
                    required: None
                })),
                response_200("a/b", None)
            )),
            &id
        ),
        Err(BuildError::RequestBodySchemaReference)
    );
    assert_eq!(
        build_endpoint(
            &with_operation(operation(
                Some(vec![
                    query_parameter("p"),
                    OpenApiParameterEnum::OpenApiReferenceObject(reference())
                ]),
                None,
                response_200("a/b", None)
            )),
            &id
        ),
        Err(BuildError::ParameterReference)
    );
    let mut no_server = with_operation(operation(None, None, response_200("a/b", None)));
    no_server.module.description.servers = Some(vec![]);
    assert_eq!(build_endpoint(&no_server, &id), Err(BuildError::ServerMissing));
    no_server.module.description.servers = None;
    assert_eq!(build_endpoint(&no_server, &id), Err(BuildError::ServerMissing));
}

#[test]
fn an_empty_body_content_is_no_body() {
    let body = RequestBodyEnum::OpenApiRequestBodyObject(OpenApiRequestBodyObject {
        description: None,
        content: OrderedMap::new(),
        required: None,
    });
    let endpoint = build_endpoint(
        &with_operation(operation(None, Some(body), response_200("a/b", None))),
        &deployment_id(),
    )
    .unwrap();
    assert_eq!(endpoint.request.request_body, None);
}

#[test]
fn supported_types() {
    let types = supported_file_types();
    assert_eq!(types, vec!["application/octet-stream", "image/jpeg", "image/png"]);
    assert!(is_supported(&types, "image/png"));
    assert!(!is_supported(&types, "image/gif"));
    assert!(!is_supported(&types, "IMAGE/PNG"));
    assert!(!is_supported(&Vec::new(), "image/png"));
}

#[test]
fn mounts_are_sorted_by_stage() {
    let module = inference_module();
    let endpoint = build_endpoint(&step(device_a(), module.clone(), "infer"), &deployment_id()).unwrap();
    let mounts = mounts_for(&module, "infer", &endpoint, &supported_file_types()).unwrap();
    assert_eq!(mounts.execution, vec![file("image", "image/jpeg", MountStage::Execution)]);
    assert_eq!(
        mounts.deployment,
        vec![file("model", "application/octet-stream", MountStage::Deployment)]
    );
    assert_eq!(mounts.output, vec![file("out.png", "image/png", MountStage::Output)]);
}

fn plain_endpoint(parameters: Vec<OpenApiParameterObject>, body: Option<RequestBody>, response: &str) -> Endpoint {
    Endpoint {
        url: text("http://h"),
        path: text("/p"),
        method: text("post"),
        request: OperationRequest { parameters, request_body: body },
        response: OperationResponse { media_type: text(response), schema: None },
    }
}

fn body_of(properties: Vec<(&str, OpenApiPropertyEnum)>, encodings: Vec<(&str, OpenApiEncodingObject)>) -> RequestBody {
    RequestBody {
        media_type: text("multipart/form-data"),
        schema: Some(OpenApiSchemaObject {
            ty: Some(text("object")),
            properties: Some(map_of(properties)),
            format: None,
        }),
        encoding: Some(map_of(encodings)),
    }
}

fn parameter(name: &str, location: OpenApiParameterIn) -> OpenApiParameterObject {
    OpenApiParameterObject {
        name: text(name),
        location,
        description: None,
        required: true,
        schema: None,
    }
}

#[test]
fn parameters_in_the_request_body_are_execution_files() {
    let module = camera_module();
    let endpoint = plain_endpoint(
        vec![
            parameter("first", OpenApiParameterIn::RequestBody),
            parameter("q", OpenApiParameterIn::Query),
            parameter("", OpenApiParameterIn::RequestBody),
            parameter("second", OpenApiParameterIn::RequestBody),
        ],
        None,
        "application/json",
    );
    let mounts = mounts_for(&module, "take", &endpoint, &supported_file_types()).unwrap();
    assert_eq!(
        mounts.execution,
        vec![
            file("first", "application/octet-stream", MountStage::Execution),
            file("second", "application/octet-stream", MountStage::Execution),
        ]
    );
    assert!(mounts.deployment.is_empty());
    assert!(mounts.output.is_empty());
}

#[test]
fn parameter_files_come_before_body_files() {
    let module = inference_module();
    let endpoint = plain_endpoint(
        vec![parameter("raw", OpenApiParameterIn::RequestBody)],
        Some(body_of(
            vec![("image", binary_property())],
            vec![("image", encoding("image/jpeg"))],
        )),
        "text/plain",
    );
    let mounts = mounts_for(&module, "infer", &endpoint, &supported_file_types()).unwrap();
    assert_eq!(
        mounts.execution,
        vec![
            file("raw", "application/octet-stream", MountStage::Execution),
            file("image", "image/jpeg", MountStage::Execution),
        ]
    );
    assert!(mounts.output.is_empty());
}

#[test]
fn a_body_that_is_not_multipart_carries_no_files() {
    let module = camera_module();
    let body = RequestBody { media_type: text("application/json"), schema: None, encoding: None };
    let endpoint = plain_endpoint(vec![], Some(body), "application/json");
    let mounts = mounts_for(&module, "take", &endpoint, &supported_file_types()).unwrap();
    assert!(mounts.execution.is_empty() && mounts.deployment.is_empty() && mounts.output.is_empty());
}

#[test]
fn properties_that_are_no_files_are_left_out() {
    let module = inference_module();
    let not_binary = OpenApiPropertyEnum::OpenApiPropertyObject(OpenApiPropertyObject {
        ty: Some(text("string")),
        format: Some(OpenApiFormat::Date),
    });
    let no_type = OpenApiPropertyEnum::OpenApiPropertyObject(OpenApiPropertyObject {
        ty: None,
        format: Some(OpenApiFormat::Binary),
    });
    let endpoint = plain_endpoint(
        vec![],
        Some(body_of(
            vec![
                ("note", not_binary),
                ("odd", no_type),
                ("unencoded", binary_property()),
                ("untyped", binary_property()),
                ("image", binary_property()),
            ],
            vec![
                ("note", encoding("text/plain")),
                ("untyped", OpenApiEncodingObject { content_type: None }),
                ("image", encoding("image/jpeg")),
            ],
        )),
        "text/plain",
    );
    let mounts = mounts_for(&module, "infer", &endpoint, &supported_file_types()).unwrap();
    assert_eq!(mounts.execution, vec![file("image", "image/jpeg", MountStage::Execution)]);
    assert!(mounts.deployment.is_empty());
}

#[test]
fn a_file_without_declared_mount_fails_the_build() {
    let module = inference_module();
    let endpoint = plain_endpoint(
        vec![],
        Some(body_of(
            vec![("image", binary_property()), ("extra", binary_property())],
            vec![("image", encoding("image/jpeg")), ("extra", encoding("image/png"))],
        )),
        "text/plain",
    );
    assert_eq!(
        mounts_for(&module, "infer", &endpoint, &supported_file_types()),
        Err(MountError::MountMetadataMissing)
    );
    assert_eq!(
        mounts_for(&module, "other", &endpoint, &supported_file_types()),
        Err(MountError::MountMetadataMissing)
    );
}

#[test]
fn a_file_of_the_initialization_function_needs_no_mount_of_its_own() {
    let mut module = inference_module();
    module.mounts = map_of(vec![
        ("infer", map_of(vec![("image", mount("image/jpeg", MountStage::Execution))])),
        (
            "_wasmiot_init",
            map_of(vec![
                ("extra", mount("image/png", MountStage::Deployment)),
                ("image", mount("image/jpeg", MountStage::Output)),
            ]),
        ),
    ]);
    let endpoint = plain_endpoint(
        vec![],
        Some(body_of(
            vec![("image", binary_property()), ("extra", binary_property())],
            vec![("image", encoding("image/jpeg")), ("extra", encoding("image/png"))],
        )),
        "text/plain",
    );
    let mounts = mounts_for(&module, "infer", &endpoint, &supported_file_types()).unwrap();
    assert_eq!(mounts.execution, vec![file("image", "image/jpeg", MountStage::Execution)]);
    assert_eq!(mounts.deployment, vec![file("extra", "image/png", MountStage::Deployment)]);
    assert!(mounts.output.is_empty());
    assert_eq!(declared_stage_of(&module.mounts, "infer", "extra"), Some(MountStage::Deployment));
    assert_eq!(declared_stage_of(&module.mounts, "infer", "image"), Some(MountStage::Execution));
    assert_eq!(declared_stage_of(&module.mounts, "none", "image"), Some(MountStage::Output));
    assert_eq!(declared_stage_of(&module.mounts, "infer", "nothing"), None);
}

#[test]
fn an_unsupported_file_type_fails_the_build() {
    let mut module = inference_module();
    module.mounts = map_of(vec![(
        "infer",
        map_of(vec![("clip", mount("video/mp4", MountStage::Execution))]),
    )]);
    let endpoint = plain_endpoint(
        vec![],
        Some(body_of(vec![("clip", binary_property())], vec![("clip", encoding("video/mp4"))])),
        "text/plain",
    );
    assert_eq!(
        mounts_for(&module, "infer", &endpoint, &supported_file_types()),
        Err(MountError::UnsupportedFileType)
    );
    assert!(mounts_for(&module, "infer", &endpoint, &vec!["video/mp4"]).is_ok());
}

#[test]
fn multipart_body_errors_one_by_one() {
    let module = inference_module();
    let types = supported_file_types();
    let mut body = body_of(vec![("image", binary_property())], vec![("image", encoding("image/jpeg"))]);
    body.schema = None;
    assert_eq!(
        mounts_for(&module, "infer", &plain_endpoint(vec![], Some(body.clone()), "t/p"), &types),
        Err(MountError::SchemaMissing)
    );
    body.schema = Some(OpenApiSchemaObject { ty: Some(text("array")), properties: None, format: None });
    assert_eq!(
        mounts_for(&module, "infer", &plain_endpoint(vec![], Some(body.clone()), "t/p"), &types),
        Err(MountError::SchemaNotObject)
    );
    body.schema = Some(OpenApiSchemaObject { ty: None, properties: None, format: None });
    assert_eq!(
        mounts_for(&module, "infer", &plain_endpoint(vec![], Some(body.clone()), "t/p"), &types),
        Err(MountError::SchemaNotObject)
    );
    body.schema = Some(OpenApiSchemaObject { ty: Some(text("object")), properties: None, format: None });
    assert_eq!(
        mounts_for(&module, "infer", &plain_endpoint(vec![], Some(body.clone()), "t/p"), &types),
        Err(MountError::PropertiesMissing)
    );
    body.schema = Some(OpenApiSchemaObject {
        ty: Some(text("object")),
        properties: Some(map_of(vec![
            ("image", binary_property()),
            ("ref", OpenApiPropertyEnum::OpenApiReferenceObject(reference())),
        ])),
        format: None,
    });
    assert_eq!(
        mounts_for(&module, "infer", &plain_endpoint(vec![], Some(body.clone()), "t/p"), &types),
        Err(MountError::PropertyReference)
    );
    body.schema = Some(OpenApiSchemaObject {
        ty: Some(text("object")),
        properties: Some(OrderedMap::new()),
        format: None,
    });
    assert_eq!(
        mounts_for(&module, "infer", &plain_endpoint(vec![], Some(body.clone()), "t/p"), &types),
        Err(MountError::PropertiesEmpty)
    );
    body.encoding = None;
    assert_eq!(
        mounts_for(&module, "infer", &plain_endpoint(vec![], Some(body.clone()), "t/p"), &types),
        Err(MountError::EncodingMissing)
    );
}

#[test]
fn reading_a_body_as_multipart() {
    let body = body_of(
        vec![
            ("image", binary_property()),
            (
                "note",
                OpenApiPropertyEnum::OpenApiPropertyObject(OpenApiPropertyObject {
                    ty: None,
                    format: Some(OpenApiFormat::Date),
                }),
            ),
        ],
        vec![("image", encoding("image/jpeg"))],
    );
    let multipart = request_body_to_multipart(&body).unwrap();
    assert_eq!(multipart.media_type, "multipart/form-data");
    assert_eq!(multipart.schema.ty, "object");
    assert_eq!(
        multipart.schema.properties.entries,
        vec![
            (text("image"), SchemaProperty { ty: text("string"), format: Some(text("binary")) }),
            (text("note"), SchemaProperty { ty: text(""), format: None }),
        ]
    );
    assert_eq!(multipart.encoding.get("image"), Some(&encoding("image/jpeg")));
    let other = RequestBody { media_type: text("application/json"), schema: None, encoding: None };
    assert_eq!(request_body_to_multipart(&other), Err(MountError::NotMultipart));
    let simple = openapi_object_to_simple_schema(&body.schema.clone().unwrap()).unwrap();
    assert_eq!(simple, multipart.schema);
}

#[test]
fn listing_the_files_of_a_multipart_body() {
    let body = MultipartMediaType {
        media_type: text("multipart/form-data"),
        schema: SchemaObject {
            ty: text("object"),
            properties: map_of(vec![
                ("b", SchemaProperty { ty: text("string"), format: Some(text("binary")) }),
                ("text", SchemaProperty { ty: text("string"), format: None }),
                ("number", SchemaProperty { ty: text("integer"), format: Some(text("binary")) }),
                ("a", SchemaProperty { ty: text("string"), format: Some(text("binary")) }),
            ]),
        },
        encoding: map_of(vec![
            ("a", encoding("image/png")),
            ("b", encoding("image/jpeg")),
            ("text", encoding("text/plain")),
        ]),
    };
    assert_eq!(
        MountPathFile::list_from_multipart(&body),
        Ok(vec![
            MountPathFile { path: text("b"), media_type: text("image/jpeg"), stage: None },
            MountPathFile { path: text("a"), media_type: text("image/png"), stage: None },
        ])
    );
    let mut wrong = body.clone();
    wrong.media_type = text("application/json");
    assert_eq!(MountPathFile::list_from_multipart(&wrong), Err(MountError::NotMultipart));
    let mut wrong = body.clone();
    wrong.schema.ty = text("array");
    assert_eq!(MountPathFile::list_from_multipart(&wrong), Err(MountError::SchemaNotObject));
    let mut wrong = body.clone();
    wrong.schema.properties = OrderedMap::new();
    assert_eq!(MountPathFile::list_from_multipart(&wrong), Err(MountError::PropertiesEmpty));
}

#[test]
fn a_file_response_is_written_to_the_first_output_mount() {
    let mut module = inference_module();
    module.mounts = map_of(vec![(
        "infer",
        map_of(vec![
            ("in", mount("image/jpeg", MountStage::Execution)),
            ("first.png", mount("image/png", MountStage::Output)),
            ("second.png", mount("image/png", MountStage::Output)),
        ]),
    )]);
    let endpoint = plain_endpoint(vec![], None, "image/jpeg");
    let mounts = mounts_for(&module, "infer", &endpoint, &supported_file_types()).unwrap();
    assert_eq!(mounts.output, vec![file("first.png", "image/jpeg", MountStage::Output)]);
    assert!(mounts.execution.is_empty());
}

#[test]
fn response_errors_one_by_one() {
    let mut module = inference_module();
    let types = supported_file_types();
    assert_eq!(
        mounts_for(&module, "infer", &plain_endpoint(vec![], None, "multipart/form-data"), &types),
        Err(MountError::MultipartResponse)
    );
    assert_eq!(
        mounts_for(&module, "unknown", &plain_endpoint(vec![], None, "image/png"), &types),
        Err(MountError::FunctionMountsMissing)
    );
    module.mounts = map_of(vec![(
        "infer",
        map_of(vec![("in", mount("image/jpeg", MountStage::Execution))]),
    )]);
    assert_eq!(
        mounts_for(&module, "infer", &plain_endpoint(vec![], None, "image/png"), &types),
        Err(MountError::OutputMountMissing)
    );
    assert!(mounts_for(&module, "unknown", &plain_endpoint(vec![], None, "text/html"), &types).is_ok());
}

#[test]
fn one_manifest_for_each_device() {
    let sequence = vec![
        step(device_a(), camera_module(), "take"),
        step(device_b(), inference_module(), "infer"),
        step(device_a(), inference_module(), "infer"),
    ];
    let solution =
        create_solution(&deployment_id(), &sequence, "http://orch:3000", &supported_file_types()).unwrap();
    assert_eq!(solution.full_manifest.len(), 2);
    assert_eq!(solution.full_manifest.entries[0].0, DEVICE_A_HEX);
    assert_eq!(solution.full_manifest.entries[1].0, DEVICE_B_HEX);
    let a = solution.full_manifest.get(DEVICE_A_HEX).unwrap();
    let b = solution.full_manifest.get(DEVICE_B_HEX).unwrap();
    assert_eq!(a.deployment_id, deployment_id());
    assert_eq!(a.deployment_id.to_hex(), DEPLOYMENT_HEX);
    assert_eq!(a.modules.len(), 2);
    assert_eq!(a.modules[0].name, "cam");
    assert_eq!(a.modules[1].name, "ml");
    assert_eq!(b.modules.len(), 1);
    assert_eq!(a.endpoints.len(), 2);
    assert_eq!(b.endpoints.len(), 1);
    assert_eq!(
        solution.sequence,
        vec![
            SequenceStep { device: oid(1), module: oid(0x10), func: text("take") },
            SequenceStep { device: oid(2), module: oid(0x20), func: text("infer") },
            SequenceStep { device: oid(1), module: oid(0x20), func: text("infer") },
        ]
    );
}

#[test]
fn results_are_forwarded_to_the_next_step() {
    let sequence = vec![
        step(device_a(), camera_module(), "take"),
        step(device_b(), inference_module(), "infer"),
    ];
    let solution =
        create_solution(&deployment_id(), &sequence, "http://orch:3000", &supported_file_types()).unwrap();
    let a = solution.full_manifest.get(DEVICE_A_HEX).unwrap();
    let b = solution.full_manifest.get(DEVICE_B_HEX).unwrap();
    let take = a.endpoints.get("cam").unwrap().get("take").unwrap();
    let infer = b.endpoints.get("ml").unwrap().get("infer").unwrap();
    assert_eq!(take.url, "http://10.0.0.5:5000");
    assert_eq!(infer.url, "http://localhost:80");
    assert_eq!(infer.path, "/aaaaaaaaaaaaaaaaaaaaaaff/modules/ml/infer");
    let first = a.instructions.modules.get("cam").unwrap().get("take").unwrap();
    assert_eq!(&first.from, take);
    assert_eq!(first.to.as_ref(), Some(infer));
    let last = b.instructions.modules.get("ml").unwrap().get("infer").unwrap();
    assert_eq!(&last.from, infer);
    assert_eq!(last.to, None);
    let mounts = b.mounts.get("ml").unwrap().get("infer").unwrap();
    assert_eq!(mounts.output, vec![file("out.png", "image/png", MountStage::Output)]);
    let none = a.mounts.get("cam").unwrap().get("take").unwrap();
    assert!(none.execution.is_empty() && none.deployment.is_empty() && none.output.is_empty());
}

#[test]
fn a_module_that_occurs_twice_on_a_device_is_listed_twice() {
    let sequence = vec![
        step(device_a(), camera_module(), "take"),
        step(device_a(), camera_module(), "take"),
    ];
    let solution =
        create_solution(&deployment_id(), &sequence, "http://orch:3000", &supported_file_types()).unwrap();
    assert_eq!(solution.full_manifest.len(), 1);
    let a = solution.full_manifest.get(DEVICE_A_HEX).unwrap();
    assert_eq!(a.modules.len(), 2);
    assert_eq!(a.modules[0], a.modules[1]);
    assert_eq!(a.endpoints.len(), 1);
    assert_eq!(a.endpoints.get("cam").unwrap().len(), 1);
    let instruction = a.instructions.modules.get("cam").unwrap().get("take").unwrap();
    assert_eq!(instruction.to, None);
}

#[test]
fn a_single_step_has_no_next() {
    let sequence = vec![step(device_a(), camera_module(), "take")];
    let solution = create_solution(&deployment_id(), &sequence, "b", &supported_file_types()).unwrap();
    let a = solution.full_manifest.get(DEVICE_A_HEX).unwrap();
    assert_eq!(a.instructions.modules.get("cam").unwrap().get("take").unwrap().to, None);
    assert_eq!(a.modules[0].urls.binary, "b/file/module/aaaaaaaaaaaaaaaaaaaaaa10/wasm");
}

#[test]
fn no_steps_give_an_empty_manifest() {
    let solution = create_solution(&deployment_id(), &vec![], "b", &supported_file_types()).unwrap();
    assert!(solution.full_manifest.is_empty());
    assert!(solution.sequence.is_empty());
}

#[test]
fn any_failing_step_fails_the_whole_build() {
    let types = supported_file_types();
    let mut nameless = device_a();
    nameless.id = None;
    assert_eq!(
        create_solution(
            &deployment_id(),
            &vec![step(device_a(), camera_module(), "take"), step(nameless, camera_module(), "take")],
            "b",
            &types
        ),
        Err(BuildError::DeviceIdMissing)
    );
    let mut unsaved = camera_module();
    unsaved.id = None;
    assert_eq!(
        create_solution(&deployment_id(), &vec![step(device_a(), unsaved, "take")], "b", &types),
        Err(BuildError::ModuleIdMissing)
    );
    assert_eq!(
        create_solution(
            &deployment_id(),
            &vec![step(device_a(), camera_module(), "take"), step(device_b(), camera_module(), "zoom")],
            "b",
            &types
        ),
        Err(BuildError::PathMissing)
    );
    let mut undeclared = inference_module();
    undeclared.mounts = OrderedMap::new();
    assert_eq!(
        create_solution(&deployment_id(), &vec![step(device_a(), undeclared, "infer")], "b", &types),
        Err(BuildError::Mount(MountError::MountMetadataMissing))
    );
}
