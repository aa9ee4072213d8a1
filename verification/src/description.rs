//! The description of a module's functions, written from what is declared of
//! each function: its method, its parameters, its mounts and its output.

use vstd::prelude::*;
use crate::execution::HttpMethod;
use crate::manifest::{execution_path, supervisor_execution_path};
use crate::mounts::init_function;
use crate::openapi::{
    OpenApiDocument, OpenApiDocumentView, OpenApiEncodingObject, OpenApiEncodingObjectView,
    OpenApiFormat, OpenApiInfo, OpenApiInfoView, OpenApiMediaTypeObject,
    OpenApiMediaTypeObjectView, OpenApiOperation, OpenApiOperationView, OpenApiParameterEnum,
    OpenApiParameterEnumView, OpenApiParameterIn, OpenApiParameterObject,
    OpenApiParameterObjectView, OpenApiPathItemObject, OpenApiPathItemObjectView,
    OpenApiPropertyEnum, OpenApiPropertyEnumView, OpenApiPropertyObject,
    OpenApiPropertyObjectView, OpenApiRequestBodyObject, OpenApiRequestBodyObjectView,
    OpenApiResponseObject, OpenApiResponseObjectView, OpenApiSchemaEnum, OpenApiSchemaEnumView,
    OpenApiSchemaObject, OpenApiSchemaObjectView, OpenApiServerObject, OpenApiServerObjectView,
    RequestBodyEnum, RequestBodyEnumView, ResponseEnum, ResponseEnumView,
};
use crate::ordered_map::{model_put, OrderedMap};
use crate::text::{ascii_lowercase, str_ascii_lowercase, str_eq};

verus! {

/// Name and type of a parameter of a function.
#[derive(Clone, Debug, PartialEq, Eq)]
pub struct FunctionParam {
    pub name: String,
    pub ty: String,
}

/// A mount as declared with a function.
#[derive(Clone, Debug, PartialEq, Eq)]
pub struct MountSpec {
    pub media_type: String,
    /// `deployment`, `execution` or `output`.
    pub stage: String,
}

/// What is declared of a function.
#[derive(Clone, Debug, PartialEq, Eq)]
pub struct FunctionSpec {
    /// The HTTP method by which the function is called, in lowercase.
    pub method: String,
    pub parameters: Vec<FunctionParam>,
    /// Mounts by path.
    pub mounts: OrderedMap<MountSpec>,
    /// `integer` or `float`, or the media type of a file.
    pub output_type: String,
}

/// Whether an output type is a number rather than a file.
pub open spec fn primitive(ty: Seq<char>) -> bool {
    ty == "integer"@ || ty == "float"@
}

/// Whether an output type is a number rather than a file.
pub fn is_primitive(ty: &str) -> (yes: bool)
    ensures
        yes == primitive(ty@),
{
    str_eq(ty, "integer") || str_eq(ty, "float")
}

/// Whether a mount is written by the function rather than read.
pub open spec fn is_output(mount: MountSpec) -> bool {
    ascii_lowercase(mount.stage@) == "output"@
}

/// The media type of the first mount whose stage is exactly `output`.
pub open spec fn output_media_type(mounts: Seq<(String, MountSpec)>) -> Option<Seq<char>>
    decreases mounts.len(),
{
    if mounts.len() == 0 {
        None
    } else if mounts[0].1.stage@ == "output"@ {
        Some(mounts[0].1.media_type@)
    } else {
        output_media_type(mounts.subrange(1, mounts.len() as int))
    }
}

/// The media type of the first output mount of a function.
pub fn functions_output_mount_mediatype(mounts: &OrderedMap<MountSpec>) -> (found: Option<String>)
    ensures
        found.deep_view() == output_media_type(mounts.entries@),
{
    let mut i: usize = 0;
    assert(mounts.entries@.subrange(0, mounts.entries@.len() as int) =~= mounts.entries@);
    while i < mounts.entries.len()
        invariant
            i <= mounts.entries@.len(),
            output_media_type(mounts.entries@) == output_media_type(
                mounts.entries@.subrange(i as int, mounts.entries@.len() as int),
            ),
        decreases mounts.entries@.len() - i,
    {
        let ghost rest = mounts.entries@.subrange(i as int, mounts.entries@.len() as int);
        assert(rest[0] == mounts.entries@[i as int]);
        assert(rest.subrange(1, rest.len() as int) =~= mounts.entries@.subrange(
            i + 1,
            mounts.entries@.len() as int,
        ));
        if str_eq(mounts.entries[i].1.stage.as_str(), "output") {
            return Some(mounts.entries[i].1.media_type.clone());
        }
        i += 1;
    }
    None
}

/// A schema of a type and, where given, a format, without properties.
pub open spec fn plain_schema(ty: Seq<char>, format: Option<OpenApiFormat>) -> OpenApiSchemaEnumView {
    OpenApiSchemaEnumView::OpenApiSchemaObject(
        OpenApiSchemaObjectView { ty: Some(ty), properties: None, format },
    )
}

fn schema_of(ty: &str, format: Option<OpenApiFormat>) -> (schema: OpenApiSchemaEnum)
    ensures
        schema.deep_view() == plain_schema(ty@, format),
{
    OpenApiSchemaEnum::OpenApiSchemaObject(
        OpenApiSchemaObject { ty: Some(ty.to_string()), properties: None, format },
    )
}

/// The parameter that stands for the deployment in every path.
pub open spec fn deployment_parameter() -> OpenApiParameterEnumView {
    OpenApiParameterEnumView::OpenApiParameterObject(
        OpenApiParameterObjectView {
            name: "deployment"@,
            location: OpenApiParameterIn::Path,
            description: Some("Deployment ID"@),
            required: true,
            schema: Some(plain_schema("string"@, None)),
        },
    )
}

/// A parameter of a function as a query parameter of its operation.
pub open spec fn query_parameter(parameter: FunctionParam) -> OpenApiParameterEnumView {
    OpenApiParameterEnumView::OpenApiParameterObject(
        OpenApiParameterObjectView {
            name: parameter.name@,
            location: OpenApiParameterIn::Query,
            description: Some("Auto-generated description"@),
            required: true,
            schema: Some(plain_schema(parameter.ty@, None)),
        },
    )
}

/// The content of the response of a function: JSON for a number, else a
/// binary string under the output's media type.
pub open spec fn response_content(output_type: Seq<char>) -> Seq<
    (Seq<char>, OpenApiMediaTypeObjectView),
> {
    if primitive(output_type) {
        seq![
            (
                "application/json"@,
                OpenApiMediaTypeObjectView {
                    schema: Some(plain_schema(output_type, None)),
                    encoding: None,
                },
            ),
        ]
    } else {
        seq![
            (
                output_type,
                OpenApiMediaTypeObjectView {
                    schema: Some(plain_schema("string"@, Some(OpenApiFormat::Binary))),
                    encoding: None,
                },
            ),
        ]
    }
}

/// The mounts that a function reads, the first `n` considered, in order.
pub open spec fn input_mounts(mounts: Seq<(String, MountSpec)>, n: nat) -> Seq<
    (Seq<char>, Seq<char>),
>
    decreases n,
{
    if n == 0 || n > mounts.len() {
        Seq::empty()
    } else {
        let before = input_mounts(mounts, (n - 1) as nat);
        if is_output(mounts[n - 1].1) {
            before
        } else {
            before.push((mounts[n - 1].0@, mounts[n - 1].1.media_type@))
        }
    }
}

/// The binary property that stands for a file in a multipart schema.
pub open spec fn file_property() -> OpenApiPropertyEnumView {
    OpenApiPropertyEnumView::OpenApiPropertyObject(
        OpenApiPropertyObjectView { ty: Some("string"@), format: Some(OpenApiFormat::Binary) },
    )
}

/// The request body of a function that reads the mounts `inputs`, given as
/// path and media type: a multipart form with a binary property for each,
/// encoded by its media type. A function that reads no mount has no body.
pub open spec fn request_body_for(inputs: Seq<(Seq<char>, Seq<char>)>) -> Option<
    RequestBodyEnumView,
> {
    if inputs.len() == 0 {
        None
    } else {
        Some(
            RequestBodyEnumView::OpenApiRequestBodyObject(
                OpenApiRequestBodyObjectView {
                    description: None,
                    content: seq![
                        (
                            "multipart/form-data"@,
                            OpenApiMediaTypeObjectView {
                                schema: Some(
                                    OpenApiSchemaEnumView::OpenApiSchemaObject(
                                        OpenApiSchemaObjectView {
                                            ty: Some("object"@),
                                            properties: Some(
                                                Seq::new(
                                                    inputs.len(),
                                                    |i: int| (inputs[i].0, file_property()),
                                                ),
                                            ),
                                            format: None,
                                        },
                                    ),
                                ),
                                encoding: Some(
                                    Seq::new(
                                        inputs.len(),
                                        |i: int|
                                            (
                                                inputs[i].0,
                                                OpenApiEncodingObjectView {
                                                    content_type: Some(inputs[i].1),
                                                },
                                            ),
                                    ),
                                ),
                            },
                        ),
                    ],
                    required: Some(true),
                },
            ),
        )
    }
}

/// The operation of a function.
pub open spec fn operation_for(function: FunctionSpec) -> OpenApiOperationView {
    OpenApiOperationView {
        summary: Some("Auto-generated description of function call method"@),
        parameters: if function.parameters@.len() == 0 {
            None
        } else {
            Some(
                Seq::new(
                    function.parameters@.len(),
                    |i: int| query_parameter(function.parameters@[i]),
                ),
            )
        },
        request_body: request_body_for(
            input_mounts(function.mounts.entries@, function.mounts.entries@.len()),
        ),
        responses: seq![
            (
                "200"@,
                ResponseEnumView::OpenApiResponseObject(
                    OpenApiResponseObjectView {
                        description: "Auto-generated description of response"@,
                        content: Some(response_content(function.output_type@)),
                    },
                ),
            ),
        ],
    }
}

/// The slot of a path item that a method names: its own, or that of `get`
/// where the text names none of the eight methods.
pub open spec fn method_slot(method: Seq<char>) -> HttpMethod {
    if method == "post"@ {
        HttpMethod::Post
    } else if method == "put"@ {
        HttpMethod::Put
    } else if method == "delete"@ {
        HttpMethod::Delete
    } else if method == "patch"@ {
        HttpMethod::Patch
    } else if method == "head"@ {
        HttpMethod::Head
    } else if method == "options"@ {
        HttpMethod::Options
    } else if method == "trace"@ {
        HttpMethod::Trace
    } else {
        HttpMethod::Get
    }
}

/// The operation of a function where `slot` is the slot of its method, else nothing.
pub open spec fn in_slot(function: FunctionSpec, slot: HttpMethod) -> Option<OpenApiOperationView> {
    if method_slot(function.method@) == slot {
        Some(operation_for(function))
    } else {
        None
    }
}

/// The path item of a function: its operation in the slot of its method.
pub open spec fn path_item_for(function: FunctionSpec) -> OpenApiPathItemObjectView {
    OpenApiPathItemObjectView {
        summary: Some("Auto-generated description of function"@),
        get: in_slot(function, HttpMethod::Get),
        put: in_slot(function, HttpMethod::Put),
        post: in_slot(function, HttpMethod::Post),
        delete: in_slot(function, HttpMethod::Delete),
        options: in_slot(function, HttpMethod::Options),
        head: in_slot(function, HttpMethod::Head),
        patch: in_slot(function, HttpMethod::Patch),
        trace: in_slot(function, HttpMethod::Trace),
        parameters: Some(seq![deployment_parameter()]),
    }
}

/// The path items of the first `n` functions, each under the execution path
/// of its function.
pub open spec fn paths_for(
    module_name: Seq<char>,
    functions: Seq<(String, FunctionSpec)>,
    n: nat,
) -> Seq<(Seq<char>, OpenApiPathItemObjectView)>
    decreases n,
{
    if n == 0 || n > functions.len() {
        Seq::empty()
    } else {
        model_put(
            paths_for(module_name, functions, (n - 1) as nat),
            execution_path(module_name, functions[n - 1].0@),
            path_item_for(functions[n - 1].1),
        )
    }
}

/// The description of a module with these functions.
pub open spec fn description_of(module_name: Seq<char>, functions: OrderedMap<FunctionSpec>) -> OpenApiDocumentView {
    OpenApiDocumentView {
        info: OpenApiInfoView {
            title: module_name,
            description: Some("Calling microservices defined as WebAssembly functions"@),
            version: "0.0.1"@,
        },
        servers: Some(
            seq![OpenApiServerObjectView { url: "http://{serverIp}:{port}"@, description: None }],
        ),
        paths: paths_for(module_name, functions.entries@, functions.entries@.len()),
    }
}

fn describe_parameters(function: &FunctionSpec) -> (out: Option<Vec<OpenApiParameterEnum>>)
    ensures
        out.deep_view() == operation_for(*function).parameters,
{
    if function.parameters.len() == 0 {
        return None;
    }
    let mut list: Vec<OpenApiParameterEnum> = Vec::new();
    let mut i: usize = 0;
    while i < function.parameters.len()
        invariant
            i <= function.parameters@.len(),
            list.deep_view() =~= Seq::new(
                i as nat,
                |j: int| query_parameter(function.parameters@[j]),
            ),
        decreases function.parameters@.len() - i,
    {
        let parameter = &function.parameters[i];
        let ghost before = list.deep_view();
        list.push(
            OpenApiParameterEnum::OpenApiParameterObject(
                OpenApiParameterObject {
                    name: parameter.name.clone(),
                    location: OpenApiParameterIn::Query,
                    description: Some("Auto-generated description".to_string()),
                    required: true,
                    schema: Some(schema_of(parameter.ty.as_str(), None)),
                },
            ),
        );
        assert(list.deep_view() =~= before.push(query_parameter(*parameter)));
        i += 1;
    }
    Some(list)
}

fn describe_request_body(function: &FunctionSpec) -> (out: Option<RequestBodyEnum>)
    ensures
        out.deep_view() == operation_for(*function).request_body,
{
    let mounts = &function.mounts.entries;
    let ghost inputs = input_mounts(mounts@, mounts@.len());
    let mut properties: Vec<(String, OpenApiPropertyEnum)> = Vec::new();
    let mut encoding: Vec<(String, OpenApiEncodingObject)> = Vec::new();
    let mut i: usize = 0;
    while i < mounts.len()
        invariant
            i <= mounts@.len(),
            mounts == &function.mounts.entries,
            properties@.len() == encoding@.len(),
            properties@.len() == input_mounts(mounts@, i as nat).len(),
            properties.deep_view() =~= Seq::new(
                input_mounts(mounts@, i as nat).len(),
                |j: int| (input_mounts(mounts@, i as nat)[j].0, file_property()),
            ),
            encoding.deep_view() =~= Seq::new(
                input_mounts(mounts@, i as nat).len(),
                |j: int|
                    (
                        input_mounts(mounts@, i as nat)[j].0,
                        OpenApiEncodingObjectView {
                            content_type: Some(input_mounts(mounts@, i as nat)[j].1),
                        },
                    ),
            ),
        decreases mounts@.len() - i,
    {
        let name = &mounts[i].0;
        let mount = &mounts[i].1;
        let stage = str_ascii_lowercase(mount.stage.as_str());
        if !str_eq(stage.as_str(), "output") {
            let ghost before_properties = properties.deep_view();
            let ghost before_encoding = encoding.deep_view();
            properties.push(
                (
                    name.clone(),
                    OpenApiPropertyEnum::OpenApiPropertyObject(
                        OpenApiPropertyObject {
                            ty: Some("string".to_string()),
                            format: Some(OpenApiFormat::Binary),
                        },
                    ),
                ),
            );
            encoding.push(
                (name.clone(), OpenApiEncodingObject { content_type: Some(mount.media_type.clone()) }),
            );
            assert(properties.deep_view() =~= before_properties.push((name@, file_property())));
            assert(encoding.deep_view() =~= before_encoding.push(
                (name@, OpenApiEncodingObjectView { content_type: Some(mount.media_type@) }),
            ));
        }
        i += 1;
    }
    if properties.len() == 0 {
        return None;
    }
    let media = OpenApiMediaTypeObject {
        schema: Some(
            OpenApiSchemaEnum::OpenApiSchemaObject(
                OpenApiSchemaObject {
                    ty: Some("object".to_string()),
                    properties: Some(OrderedMap { entries: properties }),
                    format: None,
                },
            ),
        ),
        encoding: Some(OrderedMap { entries: encoding }),
    };
    let mut content: Vec<(String, OpenApiMediaTypeObject)> = Vec::new();
    content.push(("multipart/form-data".to_string(), media));
    let body = OpenApiRequestBodyObject {
        description: None,
        content: OrderedMap { entries: content },
        required: Some(true),
    };
    assert(body.deep_view().content =~= request_body_for(
        inputs,
    )->Some_0->OpenApiRequestBodyObject_0.content);
    Some(RequestBodyEnum::OpenApiRequestBodyObject(body))
}

fn describe_operation(function: &FunctionSpec) -> (operation: OpenApiOperation)
    ensures
        operation.deep_view() == operation_for(*function),
{
    let mut content: Vec<(String, OpenApiMediaTypeObject)> = Vec::new();
    if is_primitive(function.output_type.as_str()) {
        content.push(
            (
                "application/json".to_string(),
                OpenApiMediaTypeObject {
                    schema: Some(schema_of(function.output_type.as_str(), None)),
                    encoding: None,
                },
            ),
        );
    } else {
        content.push(
            (
                function.output_type.clone(),
                OpenApiMediaTypeObject {
                    schema: Some(schema_of("string", Some(OpenApiFormat::Binary))),
                    encoding: None,
                },
            ),
        );
    }
    assert(content.deep_view() =~= response_content(function.output_type@));
    let mut responses: Vec<(String, ResponseEnum)> = Vec::new();
    let response = ResponseEnum::OpenApiResponseObject(
        OpenApiResponseObject {
            description: "Auto-generated description of response".to_string(),
            content: Some(OrderedMap { entries: content }),
        },
    );
    responses.push(("200".to_string(), response));
    assert(responses.deep_view() =~= operation_for(*function).responses);
    OpenApiOperation {
        summary: Some("Auto-generated description of function call method".to_string()),
        parameters: describe_parameters(function),
        request_body: describe_request_body(function),
        responses: OrderedMap { entries: responses },
    }
}

fn describe_path_item(function: &FunctionSpec) -> (item: OpenApiPathItemObject)
    ensures
        item.deep_view() == path_item_for(*function),
{
    let operation = describe_operation(function);
    let mut parameters: Vec<OpenApiParameterEnum> = Vec::new();
    parameters.push(
        OpenApiParameterEnum::OpenApiParameterObject(
            OpenApiParameterObject {
                name: "deployment".to_string(),
                location: OpenApiParameterIn::Path,
                description: Some("Deployment ID".to_string()),
                required: true,
                schema: Some(schema_of("string", None)),
            },
        ),
    );
    assert(parameters.deep_view() =~= seq![deployment_parameter()]);
    let mut item = OpenApiPathItemObject {
        summary: Some("Auto-generated description of function".to_string()),
        get: None,
        put: None,
        post: None,
        delete: None,
        options: None,
        head: None,
        patch: None,
        trace: None,
        parameters: Some(parameters),
    };
    let method = function.method.as_str();
    if str_eq(method, "post") {
        item.post = Some(operation);
    } else if str_eq(method, "put") {
        item.put = Some(operation);
    } else if str_eq(method, "delete") {
        item.delete = Some(operation);
    } else if str_eq(method, "patch") {
        item.patch = Some(operation);
    } else if str_eq(method, "head") {
        item.head = Some(operation);
    } else if str_eq(method, "options") {
        item.options = Some(operation);
    } else if str_eq(method, "trace") {
        item.trace = Some(operation);
    } else {
        item.get = Some(operation);
    }
    item
}

/// Writes the description of a module from what is declared of its
/// functions: a path for each function, with one operation, its query
/// parameters, a multipart body for the mounts that it reads, and a response
/// `200`.
pub fn module_endpoint_descriptions(module_name: &str, functions: &OrderedMap<FunctionSpec>) -> (out:
    OpenApiDocument)
    ensures
        out.deep_view() == description_of(module_name@, *functions),
{
    let mut paths: OrderedMap<OpenApiPathItemObject> = OrderedMap::new();
    assert(paths.deep_view() =~= Seq::empty());
    let mut i: usize = 0;
    while i < functions.entries.len()
        invariant
            i <= functions.entries@.len(),
            paths.deep_view() == paths_for(module_name@, functions.entries@, i as nat),
        decreases functions.entries@.len() - i,
    {
        let name = &functions.entries[i].0;
        let item = describe_path_item(&functions.entries[i].1);
        paths.put(supervisor_execution_path(module_name, name.as_str()), item);
        i += 1;
    }
    let mut servers: Vec<OpenApiServerObject> = Vec::new();
    servers.push(
        OpenApiServerObject { url: "http://{serverIp}:{port}".to_string(), description: None },
    );
    assert(servers.deep_view() =~= seq![
        OpenApiServerObjectView { url: "http://{serverIp}:{port}"@, description: None },
    ]);
    OpenApiDocument {
        info: OpenApiInfo {
            title: module_name.to_string(),
            description: Some("Calling microservices defined as WebAssembly functions".to_string()),
            version: "0.0.1".to_string(),
        },
        servers: Some(servers),
        paths,
    }
}

/// The mounts of every function, by function and path.
pub fn mounts_from_functions(functions: &OrderedMap<FunctionSpec>) -> (out: OrderedMap<
    OrderedMap<MountSpec>,
>)
    ensures
        out.entries@.len() == functions.entries@.len(),
        forall|i: int|
            0 <= i < functions.entries@.len() ==> {
                &&& (#[trigger] out.entries@[i]).0@ == functions.entries@[i].0@
                &&& out.entries@[i].1.entries@.len() == functions.entries@[i].1.mounts.entries@.len()
                &&& forall|j: int|
                    0 <= j < out.entries@[i].1.entries@.len() ==> {
                        let copy = #[trigger] out.entries@[i].1.entries@[j];
                        let mount = functions.entries@[i].1.mounts.entries@[j];
                        &&& copy.0@ == mount.0@
                        &&& copy.1.media_type@ == mount.1.media_type@
                        &&& copy.1.stage@ == mount.1.stage@
                    }
            },
{
    let mut entries: Vec<(String, OrderedMap<MountSpec>)> = Vec::new();
    let mut i: usize = 0;
    while i < functions.entries.len()
        invariant
            i <= functions.entries@.len(),
            entries@.len() == i,
            forall|k: int|
                0 <= k < i ==> {
                    &&& (#[trigger] entries@[k]).0@ == functions.entries@[k].0@
                    &&& entries@[k].1.entries@.len() == functions.entries@[k].1.mounts.entries@.len()
                    &&& forall|j: int|
                        0 <= j < entries@[k].1.entries@.len() ==> {
                            let copy = #[trigger] entries@[k].1.entries@[j];
                            let mount = functions.entries@[k].1.mounts.entries@[j];
                            &&& copy.0@ == mount.0@
                            &&& copy.1.media_type@ == mount.1.media_type@
                            &&& copy.1.stage@ == mount.1.stage@
                        }
                },
        decreases functions.entries@.len() - i,
    {
        let mounts = &functions.entries[i].1.mounts.entries;
        let mut copies: Vec<(String, MountSpec)> = Vec::new();
        let mut j: usize = 0;
        while j < mounts.len()
            invariant
                j <= mounts@.len(),
                copies@.len() == j,
                forall|k: int|
                    0 <= k < j ==> {
                        &&& (#[trigger] copies@[k]).0@ == mounts@[k].0@
                        &&& copies@[k].1.media_type@ == mounts@[k].1.media_type@
                        &&& copies@[k].1.stage@ == mounts@[k].1.stage@
                    },
            decreases mounts@.len() - j,
        {
            copies.push(
                (
                    mounts[j].0.clone(),
                    MountSpec {
                        media_type: mounts[j].1.media_type.clone(),
                        stage: mounts[j].1.stage.clone(),
                    },
                ),
            );
            j += 1;
        }
        entries.push((functions.entries[i].0.clone(), OrderedMap { entries: copies }));
        i += 1;
    }
    OrderedMap { entries }
}

/// The output type of a function: the media type of its output mount,
/// unless that is the generic one; else the type that was declared for the
/// output; else the generic media type.
pub open spec fn chosen_output_type(
    mounts: Seq<(String, MountSpec)>,
    declared: Option<Seq<char>>,
) -> Seq<char> {
    let fallback = match declared {
        Some(ty) => ty,
        None => "application/octet-stream"@,
    };
    match output_media_type(mounts) {
        Some(media) => if ascii_lowercase(media) == "application/octet-stream"@ {
            fallback
        } else {
            media
        },
        None => fallback,
    }
}

/// Chooses the output type of a function from its mounts and from the type
/// that was declared for its output.
pub fn output_type_of(mounts: &OrderedMap<MountSpec>, declared: Option<&str>) -> (ty: String)
    ensures
        ty@ == chosen_output_type(mounts.entries@, declared.deep_view()),
{
    if let Some(media) = functions_output_mount_mediatype(mounts) {
        let lower = str_ascii_lowercase(media.as_str());
        if !str_eq(lower.as_str(), "application/octet-stream") {
            return media;
        }
    }
    match declared {
        Some(ty) => ty.to_string(),
        None => "application/octet-stream".to_string(),
    }
}

/// Whether a mount of a function lacks its file: it is needed at deployment,
/// no file of its name was uploaded, and the initialization function does
/// not mount it either.
pub open spec fn lacks_file(
    functions: OrderedMap<FunctionSpec>,
    uploaded: Seq<Seq<char>>,
    name: Seq<char>,
    mount: MountSpec,
) -> bool {
    &&& mount.stage@ == "deployment"@
    &&& !uploaded.contains(name)
    &&& !(functions.has(init_function()) && functions.at(init_function()).mounts.has(
        name,
    ))
}

/// The mounts that lack their file among the first `n` mounts of a function,
/// each with the name of the function.
pub open spec fn missing_of_function(
    functions: OrderedMap<FunctionSpec>,
    uploaded: Seq<Seq<char>>,
    function: Seq<char>,
    mounts: Seq<(String, MountSpec)>,
    n: nat,
) -> Seq<(Seq<char>, Seq<char>)>
    decreases n,
{
    if n == 0 || n > mounts.len() {
        Seq::empty()
    } else {
        let before = missing_of_function(functions, uploaded, function, mounts, (n - 1) as nat);
        if lacks_file(functions, uploaded, mounts[n - 1].0@, mounts[n - 1].1) {
            before.push((function, mounts[n - 1].0@))
        } else {
            before
        }
    }
}

/// The mounts that lack their file among the first `n` functions.
pub open spec fn missing_among(
    functions: OrderedMap<FunctionSpec>,
    uploaded: Seq<Seq<char>>,
    n: nat,
) -> Seq<(Seq<char>, Seq<char>)>
    decreases n,
{
    if n == 0 || n > functions.entries@.len() {
        Seq::empty()
    } else {
        let function = functions.entries@[n - 1];
        missing_among(functions, uploaded, (n - 1) as nat) + missing_of_function(
            functions,
            uploaded,
            function.0@,
            function.1.mounts.entries@,
            function.1.mounts.entries@.len(),
        )
    }
}

fn was_uploaded(uploaded: &Vec<String>, name: &str) -> (found: bool)
    ensures
        found == uploaded.deep_view().contains(name@),
{
    let mut i: usize = 0;
    while i < uploaded.len()
        invariant
            i <= uploaded@.len(),
            forall|j: int| 0 <= j < i ==> uploaded.deep_view()[j] != name@,
        decreases uploaded@.len() - i,
    {
        if str_eq(uploaded[i].as_str(), name) {
            assert(uploaded.deep_view()[i as int] == name@);
            return true;
        }
        i += 1;
    }
    false
}

/// Lists the mounts whose files are missing, each as the name of its
/// function and its own: the mounts that are needed at deployment and for
/// which no file was uploaded under their name. What the initialization
/// function mounts is never missing.
pub fn missing_deployment_mounts(functions: &OrderedMap<FunctionSpec>, uploaded: &Vec<String>) -> (out:
    Vec<(String, String)>)
    ensures
        out.deep_view() == missing_among(
            *functions,
            uploaded.deep_view(),
            functions.entries@.len(),
        ),
{
    let ghost given = uploaded.deep_view();
    let init = functions.get("_wasmiot_init");
    let mut missing: Vec<(String, String)> = Vec::new();
    assert(missing.deep_view() =~= Seq::empty());
    let mut i: usize = 0;
    while i < functions.entries.len()
        invariant
            i <= functions.entries@.len(),
            given == uploaded.deep_view(),
            init is Some == functions.has(init_function()),
            init matches Some(found) ==> *found == functions.at(init_function()),
            missing.deep_view() == missing_among(*functions, given, i as nat),
        decreases functions.entries@.len() - i,
    {
        let name = &functions.entries[i].0;
        let mounts = &functions.entries[i].1.mounts.entries;
        let ghost before = missing.deep_view();
        let mut j: usize = 0;
        while j < mounts.len()
            invariant
                j <= mounts@.len(),
                i < functions.entries@.len(),
                name == &functions.entries@[i as int].0,
                mounts == &functions.entries@[i as int].1.mounts.entries,
                given == uploaded.deep_view(),
                init is Some == functions.has(init_function()),
                init matches Some(found) ==> *found == functions.at(init_function()),
                missing.deep_view() =~= before + missing_of_function(
                    *functions,
                    given,
                    name@,
                    mounts@,
                    j as nat,
                ),
            decreases mounts@.len() - j,
        {
            let mount_name = &mounts[j].0;
            let exempt = match init {
                Some(found) => found.mounts.contains_key(mount_name.as_str()),
                None => false,
            };
            if str_eq(mounts[j].1.stage.as_str(), "deployment") && !was_uploaded(
                uploaded,
                mount_name.as_str(),
            ) && !exempt {
                let ghost so_far = missing.deep_view();
                missing.push((name.clone(), mount_name.clone()));
                assert(missing.deep_view() =~= so_far.push((name@, mount_name@)));
            }
            j += 1;
        }
        i += 1;
    }
    missing
}

} // verus!
