use wasmiot_orchestrator::description::{
    functions_output_mount_mediatype, is_primitive, missing_deployment_mounts,
    module_endpoint_descriptions, mounts_from_functions, output_type_of, FunctionParam,
    FunctionSpec, MountSpec,
};
use wasmiot_orchestrator::device::default_device_description;
use wasmiot_orchestrator::ids::ObjectId;
use wasmiot_orchestrator::manifest::{create_solution, solve_result, SolveResult};
use wasmiot_orchestrator::module::{ModuleDoc, ModuleMount, MountStage, WasmBinaryInfo};
use wasmiot_orchestrator::mounts::supported_file_types;
use wasmiot_orchestrator::openapi::{
    OpenApiEncodingObject, OpenApiFormat, OpenApiParameterEnum, OpenApiParameterIn,
    OpenApiPropertyEnum, OpenApiPropertyObject, OpenApiSchemaEnum, OpenApiSchemaObject,
    RequestBodyEnum, ResponseEnum,
};
use wasmiot_orchestrator::ordered_map::OrderedMap;
use wasmiot_orchestrator::resolver::{
    deployment_to_update, names_device, ApiSequenceStep, AssignedStep, Sequence, UpdateError,
};
use wasmiot_orchestrator::device::{DeviceCommunication, DeviceDoc};

fn w(s: &str) -> String {
    s.to_string()
}

fn keyed<V>(entries: Vec<(&str, V)>) -> OrderedMap<V> {
    OrderedMap { entries: entries.into_iter().map(|(k, v)| (k.to_string(), v)).collect() }
}

fn spec_mount(media_type: &str, stage: &str) -> MountSpec {
    MountSpec { media_type: w(media_type), stage: w(stage) }
}

fn function(method: &str, parameters: Vec<(&str, &str)>, mounts: Vec<(&str, MountSpec)>, output: &str) -> FunctionSpec {
    FunctionSpec {
        method: w(method),
        parameters: parameters
            .into_iter()
            .map(|(name, ty)| FunctionParam { name: w(name), ty: w(ty) })
            .collect(),
        mounts: keyed(mounts),
        output_type: w(output),
    }
}

fn string_schema(ty: &str, format: Option<OpenApiFormat>) -> OpenApiSchemaEnum {
    OpenApiSchemaEnum::OpenApiSchemaObject(OpenApiSchemaObject { ty: Some(w(ty)), properties: None, format })
}

#[test]
fn numbers_are_primitive() {
    assert!(is_primitive("integer"));
    assert!(is_primitive("float"));
    assert!(!is_primitive("Integer"));
    assert!(!is_primitive("image/png"));
    assert!(!is_primitive(""));
}

#[test]
fn the_first_output_mount_gives_the_media_type() {
    let mounts = keyed(vec![
        ("in", spec_mount("image/jpeg", "execution")),
        ("loud", spec_mount("audio/wav", "OUTPUT")),
        ("out", spec_mount("image/png", "output")),
        ("late", spec_mount("image/gif", "output")),
    ]);
    assert_eq!(functions_output_mount_mediatype(&mounts), Some(w("image/png")));
    assert_eq!(functions_output_mount_mediatype(&OrderedMap::new()), None);
    assert_eq!(output_type_of(&mounts, Some("integer")), "image/png");
    let generic = keyed(vec![("out", spec_mount("Application/Octet-Stream", "output"))]);
    assert_eq!(output_type_of(&generic, Some("integer")), "integer");
    assert_eq!(output_type_of(&generic, None), "application/octet-stream");
    assert_eq!(output_type_of(&OrderedMap::new(), Some("float")), "float");
    assert_eq!(output_type_of(&OrderedMap::new(), None), "application/octet-stream");
}

#[test]
fn the_description_of_a_function_with_parameters() {
    let functions = keyed(vec![("take", function("get", vec![("param0", "integer"), ("param1", "float")], vec![], "integer"))]);
    let document = module_endpoint_descriptions("cam", &functions);
    assert_eq!(document.info.title, "cam");
    assert_eq!(document.info.version, "0.0.1");
    assert_eq!(
        document.info.description,
        Some(w("Calling microservices defined as WebAssembly functions"))
    );
    let servers = document.servers.unwrap();
    assert_eq!(servers.len(), 1);
    assert_eq!(servers[0].url, "http://{serverIp}:{port}");
    assert_eq!(document.paths.len(), 1);
    let item = document.paths.get("/{deployment}/modules/cam/take").unwrap();
    assert_eq!(item.summary, Some(w("Auto-generated description of function")));
    assert!(item.post.is_none() && item.put.is_none() && item.trace.is_none());
    let deployment = match &item.parameters.as_ref().unwrap()[0] {
        OpenApiParameterEnum::OpenApiParameterObject(parameter) => parameter,
        OpenApiParameterEnum::OpenApiReferenceObject(_) => panic!("a reference"),
    };
    assert_eq!(deployment.name, "deployment");
    assert_eq!(deployment.location, OpenApiParameterIn::Path);
    assert_eq!(deployment.description, Some(w("Deployment ID")));
    assert_eq!(deployment.schema, Some(string_schema("string", None)));
    let operation = item.get.as_ref().unwrap();
    assert_eq!(operation.summary, Some(w("Auto-generated description of function call method")));
    assert_eq!(operation.request_body, None);
    let parameters = operation.parameters.as_ref().unwrap();
    assert_eq!(parameters.len(), 2);
    match &parameters[1] {
        OpenApiParameterEnum::OpenApiParameterObject(parameter) => {
            assert_eq!(parameter.name, "param1");
            assert_eq!(parameter.location, OpenApiParameterIn::Query);
            assert_eq!(parameter.description, Some(w("Auto-generated description")));
            assert!(parameter.required);
            assert_eq!(parameter.schema, Some(string_schema("float", None)));
        }
        OpenApiParameterEnum::OpenApiReferenceObject(_) => panic!("a reference"),
    }
    assert_eq!(operation.responses.len(), 1);
    match operation.responses.get("200").unwrap() {
        ResponseEnum::OpenApiResponseObject(response) => {
            assert_eq!(response.description, "Auto-generated description of response");
            let content = response.content.as_ref().unwrap();
            assert_eq!(content.len(), 1);
            assert_eq!(content.get("application/json").unwrap().schema, Some(string_schema("integer", None)));
        }
        ResponseEnum::OpenApiReferenceObject(_) => panic!("a reference"),
    }
}

#[test]
fn the_description_of_a_function_with_mounts() {
    let functions = keyed(vec![(
        "infer",
        function(
            "post",
            vec![],
            vec![
                ("image", spec_mount("image/jpeg", "execution")),
                ("result", spec_mount("image/png", "Output")),
                ("model", spec_mount("application/octet-stream", "deployment")),
            ],
            "image/png",
        ),
    )]);
    let document = module_endpoint_descriptions("ml", &functions);
    let item = document.paths.get("/{deployment}/modules/ml/infer").unwrap();
    assert!(item.get.is_none());
    let operation = item.post.as_ref().unwrap();
    assert_eq!(operation.parameters, None);
    let body = match operation.request_body.as_ref().unwrap() {
        RequestBodyEnum::OpenApiRequestBodyObject(body) => body,
        RequestBodyEnum::OpenApiReferenceObject(_) => panic!("a reference"),
    };
    assert_eq!(body.required, Some(true));
    assert_eq!(body.content.len(), 1);
    let media = body.content.get("multipart/form-data").unwrap();
    let binary = OpenApiPropertyEnum::OpenApiPropertyObject(OpenApiPropertyObject {
        ty: Some(w("string")),
        format: Some(OpenApiFormat::Binary),
    });
    match media.schema.as_ref().unwrap() {
        OpenApiSchemaEnum::OpenApiSchemaObject(schema) => {
            assert_eq!(schema.ty, Some(w("object")));
            assert_eq!(
                schema.properties.as_ref().unwrap().entries,
                vec![(w("image"), binary.clone()), (w("model"), binary)]
            );
        }
        OpenApiSchemaEnum::OpenApiReferenceObject(_) => panic!("a reference"),
    }
    assert_eq!(
        media.encoding.as_ref().unwrap().entries,
        vec![
            (w("image"), OpenApiEncodingObject { content_type: Some(w("image/jpeg")) }),
            (w("model"), OpenApiEncodingObject { content_type: Some(w("application/octet-stream")) }),
        ]
    );
    match operation.responses.get("200").unwrap() {
        ResponseEnum::OpenApiResponseObject(response) => {
            let content = response.content.as_ref().unwrap();
            assert_eq!(
                content.get("image/png").unwrap().schema,
                Some(string_schema("string", Some(OpenApiFormat::Binary)))
            );
        }
        ResponseEnum::OpenApiReferenceObject(_) => panic!("a reference"),
    }
}

#[test]
fn the_operation_stands_under_its_method() {
    for (method, slot) in vec![
        ("get", 0),
        ("put", 1),
        ("post", 2),
        ("delete", 3),
        ("options", 4),
        ("head", 5),
        ("patch", 6),
        ("trace", 7),
        ("POST", 0),
        ("", 0),
        ("connect", 0),
    ] {
        let document = module_endpoint_descriptions("m", &keyed(vec![("f", function(method, vec![], vec![], "float"))]));
        let item = document.paths.get("/{deployment}/modules/m/f").unwrap();
        let slots = vec![
            item.get.is_some(),
            item.put.is_some(),
            item.post.is_some(),
            item.delete.is_some(),
            item.options.is_some(),
            item.head.is_some(),
            item.patch.is_some(),
            item.trace.is_some(),
        ];
        for (at, filled) in slots.into_iter().enumerate() {
            assert_eq!(filled, at == slot);
        }
    }
}

#[test]
fn a_described_function_can_be_deployed() {
    let functions = keyed(vec![
        ("take", function("get", vec![("param0", "integer")], vec![], "integer")),
        (
            "infer",
            function(
                "post",
                vec![],
                vec![
                    ("image", spec_mount("image/jpeg", "execution")),
                    ("out.png", spec_mount("image/png", "output")),
                ],
                "image/png",
            ),
        ),
    ]);
    let module = ModuleDoc {
        id: Some(ObjectId::from_bytes([3; 12])),
        name: w("cam"),
        exports: vec![],
        requirements: vec![],
        wasm: WasmBinaryInfo { original_filename: w(""), file_name: w(""), path: w("") },
        data_files: OrderedMap::new(),
        description: module_endpoint_descriptions("cam", &functions),
        mounts: keyed(vec![(
            "infer",
            keyed(vec![
                ("image", ModuleMount { media_type: w("image/jpeg"), stage: MountStage::Execution }),
                ("out.png", ModuleMount { media_type: w("image/png"), stage: MountStage::Output }),
            ]),
        )]),
    };
    let device = DeviceDoc {
        id: Some(ObjectId::from_bytes([4; 12])),
        name: w("d"),
        communication: DeviceCommunication { addresses: vec![w("192.168.1.2")], port: 8080 },
        description: default_device_description(),
    };
    let sequence = vec![
        AssignedStep { device: device.clone(), module: module.clone(), func: w("take") },
        AssignedStep { device, module, func: w("infer") },
    ];
    let deployment = ObjectId::from_bytes([5; 12]);
    let solution = create_solution(&deployment, &sequence, "http://o/", &supported_file_types()).unwrap();
    let node = solution.full_manifest.get("040404040404040404040404").unwrap();
    let take = node.endpoints.get("cam").unwrap().get("take").unwrap();
    assert_eq!(take.url, "http://192.168.1.2:8080");
    assert_eq!(take.method, "get");
    assert_eq!(take.response.media_type, "application/json");
    let infer = node.endpoints.get("cam").unwrap().get("infer").unwrap();
    assert_eq!(infer.request.request_body.as_ref().unwrap().media_type, "multipart/form-data");
    let mounts = node.mounts.get("cam").unwrap().get("infer").unwrap();
    assert_eq!(mounts.execution.len(), 1);
    assert_eq!(mounts.output.len(), 1);
    assert_eq!(mounts.output[0].path, "out.png");
    let first = node.instructions.modules.get("cam").unwrap().get("take").unwrap();
    assert_eq!(first.to.as_ref(), Some(infer));
    assert_eq!(
        solve_result(false, deployment, solution.clone()),
        SolveResult::DeploymentId(deployment)
    );
    assert_eq!(solve_result(true, deployment, solution.clone()), SolveResult::Solution(solution));
}

#[test]
fn mounts_by_function() {
    let functions = keyed(vec![
        ("a", function("get", vec![], vec![("x", spec_mount("t/x", "output"))], "t/x")),
        ("b", function("get", vec![], vec![], "integer")),
    ]);
    let mounts = mounts_from_functions(&functions);
    assert_eq!(
        mounts,
        keyed(vec![("a", keyed(vec![("x", spec_mount("t/x", "output"))])), ("b", OrderedMap::new())])
    );
}

#[test]
fn deployment_mounts_without_a_file_are_missing() {
    let functions = keyed(vec![
        (
            "infer",
            function(
                "post",
                vec![],
                vec![
                    ("model", spec_mount("a/b", "deployment")),
                    ("image", spec_mount("image/jpeg", "execution")),
                    ("labels", spec_mount("text/plain", "deployment")),
                    ("shared", spec_mount("a/b", "deployment")),
                    ("loud", spec_mount("a/b", "Deployment")),
                ],
                "integer",
            ),
        ),
        ("train", function("post", vec![], vec![("data", spec_mount("a/b", "deployment"))], "integer")),
    ]);
    assert_eq!(
        missing_deployment_mounts(&functions, &vec![w("labels")]),
        vec![(w("infer"), w("model")), (w("infer"), w("shared")), (w("train"), w("data"))]
    );
    assert_eq!(
        missing_deployment_mounts(&functions, &vec![w("data"), w("model"), w("shared"), w("labels")]),
        Vec::<(String, String)>::new()
    );
    let mut with_init = functions.clone();
    with_init.entries.push((
        w("_wasmiot_init"),
        function(
            "get",
            vec![],
            vec![("shared", spec_mount("a/b", "execution")), ("own", spec_mount("a/b", "deployment"))],
            "integer",
        ),
    ));
    assert_eq!(
        missing_deployment_mounts(&with_init, &vec![w("labels")]),
        vec![(w("infer"), w("model")), (w("train"), w("data"))]
    );
}

#[test]
fn a_device_without_a_description_gets_the_default() {
    let description = default_device_description();
    assert_eq!(description.platform.cpu.architecture, "unknown");
    assert_eq!(description.platform.cpu.clock_speed_hz, 0);
    assert_eq!(description.platform.cpu.core_count, 0);
    assert_eq!(description.platform.cpu.human_readable_name, "");
    assert_eq!(description.platform.memory.total_bytes, 0);
    assert_eq!(description.platform.system.host_name, "");
    assert_eq!(description.platform.system.os, "");
    assert!(description.supervisor_interfaces.is_empty());
}

#[test]
fn the_deployment_to_solve_again() {
    let mut submitted = Sequence {
        id: None,
        name: w("d"),
        sequence: vec![ApiSequenceStep { device: w(""), module: w("m"), func: w("f") }],
    };
    assert_eq!(deployment_to_update(&submitted), Err(UpdateError::IdMissing));
    submitted.id = Some(w("not an id"));
    assert_eq!(deployment_to_update(&submitted), Err(UpdateError::IdInvalid));
    submitted.id = Some(w("0505050505050505050505FF"));
    assert_eq!(
        deployment_to_update(&submitted),
        Ok(ObjectId::from_bytes([5, 5, 5, 5, 5, 5, 5, 5, 5, 5, 5, 0xff]))
    );
    assert!(!names_device(&submitted.sequence[0]));
    submitted.sequence[0].device = w("cam-1");
    assert!(names_device(&submitted.sequence[0]));
}
