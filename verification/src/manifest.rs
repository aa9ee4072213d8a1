//! From assigned steps to the manifest of every device: its modules, the
//! endpoints of its functions, their mounts, and where each result goes next.

use vstd::prelude::*;
use crate::deployment::{
    CreateSolutionResult, CreateSolutionResultView, DeploymentNode, DeploymentNodeView,
    DeviceModule, DeviceModuleUrls, DeviceModuleUrlsView, DeviceModuleView, Endpoint,
    EndpointView, Instruction, InstructionView, Instructions, InstructionsView,
    OperationRequest, OperationRequestView, OperationResponse, OperationResponseView,
    RequestBody, RequestBodyView, SequenceStep, SequenceStepView, StageMounts, StageMountsView,
};
use crate::device::{DeviceDoc, DeviceDocView};
use crate::ids::ObjectId;
use crate::module::ModuleDoc;
use crate::mounts::{mounts_for, mounts_of, MountError};
use crate::results::agrees;
use crate::openapi::{
    OpenApiDocument, OpenApiOperation, OpenApiParameterEnum, OpenApiParameterObject,
    OpenApiParameterObjectView, OpenApiPathItemObject, OpenApiSchemaEnum, RequestBodyEnum,
    ResponseEnum,
};
use crate::ordered_map::{
    lemma_first_position, lemma_model_of_map, model_at, model_has, model_keys, model_put,
    model_put_nested, put_nested, OrderedMap,
};
use crate::resolver::AssignedStep;
use crate::text::{
    decimal, replaced, str_replace, str_trim_end, u16_text, without_trailing,
};

verus! {

/// Why a manifest cannot be built.
#[derive(Clone, Copy, Debug, PartialEq, Eq, Structural)]
pub enum BuildError {
    /// The device of a step has no identifier.
    DeviceIdMissing,
    /// The module of a step has no identifier.
    ModuleIdMissing,
    /// The description of the module has no entry for the function's path.
    PathMissing,
    /// The path of the function defines no operation.
    NoOperation,
    /// The operation defines no response `200`.
    ResponseMissing,
    /// The response `200` is a reference.
    ResponseReference,
    /// The response `200` has no content.
    ResponseContentMissing,
    /// The response `200` has an empty content.
    ResponseContentEmpty,
    /// The schema of the response `200` is a reference.
    ResponseSchemaReference,
    /// The request body is a reference.
    RequestBodyReference,
    /// The schema of the request body is a reference.
    RequestBodySchemaReference,
    /// The description of the module names no server.
    ServerMissing,
    /// A parameter of the operation is a reference.
    ParameterReference,
    /// The mounts of the function cannot be determined.
    Mount(MountError),
}

/// The path under which a supervisor offers a function, with the deployment left open.
pub open spec fn execution_path(module_name: Seq<char>, func_name: Seq<char>) -> Seq<char> {
    "/{deployment}/modules/"@ + module_name + "/"@ + func_name
}

/// The path under which a supervisor offers a function of a module.
pub fn supervisor_execution_path(module_name: &str, func_name: &str) -> (path: String)
    ensures
        path@ == execution_path(module_name@, func_name@),
{
    let mut path = "/{deployment}/modules/".to_string();
    path.append(module_name);
    path.append("/");
    path.append(func_name);
    path
}

/// The identifier of a device as text, under which the manifest of the device is kept.
pub fn device_id_hex(device: &DeviceDoc) -> (out: Result<String, BuildError>)
    ensures
        match out {
            Ok(text) => device.id is Some && text@ == device.id->Some_0.hex(),
            Err(error) => device.id is None && error == BuildError::DeviceIdMissing,
        },
{
    match device.id {
        Some(id) => Ok(id.to_hex()),
        None => Err(BuildError::DeviceIdMissing),
    }
}

/// The address under which a device is reached: its first, or `localhost` where it has none.
pub open spec fn device_address(device: DeviceDocView) -> Seq<char> {
    if device.communication.addresses.len() > 0 {
        device.communication.addresses[0]
    } else {
        "localhost"@
    }
}

/// A server URL template filled for a device: `{serverIp}` becomes the
/// device's address, then `{port}` its port.
pub open spec fn server_url(template: Seq<char>, device: DeviceDocView) -> Seq<char> {
    replaced(
        replaced(template, "{serverIp}"@, device_address(device)),
        "{port}"@,
        decimal(device.communication.port as nat),
    )
}

/// Fills a server URL template with the address and the port of a device.
pub fn fill_server_url(template: &str, device: &DeviceDoc) -> (url: String)
    ensures
        url@ == server_url(template@, device.deep_view()),
{
    proof {
        reveal_strlit("{serverIp}");
        reveal_strlit("{port}");
    }
    let port = u16_text(device.communication.port);
    if device.communication.addresses.len() > 0 {
        let address = &device.communication.addresses[0];
        assert(device.deep_view().communication.addresses[0] == address@);
        let with_address = str_replace(template, "{serverIp}", address.as_str());
        str_replace(with_address.as_str(), "{port}", port.as_str())
    } else {
        let with_address = str_replace(template, "{serverIp}", "localhost");
        str_replace(with_address.as_str(), "{port}", port.as_str())
    }
}

/// The URL of a file of a module: the base without trailing slashes, the
/// module's identifier, and the name of the file.
pub open spec fn module_file_url(base: Seq<char>, id: ObjectId, file: Seq<char>) -> Seq<char> {
    without_trailing(base, '/') + "/file/module/"@ + id.hex() + "/"@ + file
}

/// What a device needs to know of a module: where to fetch its binary, its
/// description and each of its data files.
pub open spec fn module_data_of(module: ModuleDoc, base: Seq<char>) -> Result<
    DeviceModuleView,
    BuildError,
> {
    match module.id {
        None => Err(BuildError::ModuleIdMissing),
        Some(id) => Ok(
            DeviceModuleView {
                id,
                name: module.name@,
                urls: DeviceModuleUrlsView {
                    binary: module_file_url(base, id, "wasm"@),
                    description: module_file_url(base, id, "description"@),
                    other: Seq::new(
                        module.data_files.entries@.len(),
                        |i: int|
                            (
                                module.data_files.entries@[i].0@,
                                module_file_url(base, id, module.data_files.entries@[i].0@),
                            ),
                    ),
                },
            },
        ),
    }
}

fn file_url(base: &str, id: &str, file: &str) -> (url: String)
    ensures
        url@ == base@ + "/file/module/"@ + id@ + "/"@ + file@,
{
    let mut url = base.to_string();
    url.append("/file/module/");
    url.append(id);
    url.append("/");
    url.append(file);
    url
}

/// Gathers what a device needs to know of a module, with the URLs under
/// `package_base_url` from which it fetches the module's files.
pub fn module_data(module: &ModuleDoc, package_base_url: &str) -> (out: Result<
    DeviceModule,
    BuildError,
>)
    ensures
        agrees(out, module_data_of(*module, package_base_url@)),
{
    let id = match module.id {
        Some(id) => id,
        None => {
            return Err(BuildError::ModuleIdMissing);
        },
    };
    let base = str_trim_end(package_base_url, '/');
    let hex = id.to_hex();
    let binary = file_url(base.as_str(), hex.as_str(), "wasm");
    let description = file_url(base.as_str(), hex.as_str(), "description");
    let mut entries: Vec<(String, String)> = Vec::new();
    let mut i: usize = 0;
    while i < module.data_files.entries.len()
        invariant
            i <= module.data_files.entries@.len(),
            base@ == without_trailing(package_base_url@, '/'),
            hex@ == id.hex(),
            entries.deep_view() =~= Seq::new(
                i as nat,
                |j: int|
                    (
                        module.data_files.entries@[j].0@,
                        module_file_url(
                            package_base_url@,
                            id,
                            module.data_files.entries@[j].0@,
                        ),
                    ),
            ),
        decreases module.data_files.entries@.len() - i,
    {
        let name = &module.data_files.entries[i].0;
        let url = file_url(base.as_str(), hex.as_str(), name.as_str());
        let ghost before = entries.deep_view();
        entries.push((name.clone(), url));
        assert(entries.deep_view() =~= before.push(
            (name@, module_file_url(package_base_url@, id, name@)),
        ));
        i += 1;
    }
    let other = OrderedMap { entries };
    Ok(
        DeviceModule {
            id,
            name: module.name.clone(),
            urls: DeviceModuleUrls { binary, description, other },
        },
    )
}

/// Where the data files of a module are stored, in the order of the files.
pub fn collect_datafile_paths(module: &ModuleDoc) -> (paths: Vec<String>)
    ensures
        paths.deep_view() == Seq::new(
            module.data_files.entries@.len(),
            |i: int| module.data_files.entries@[i].1.path@,
        ),
{
    let mut paths: Vec<String> = Vec::new();
    let mut i: usize = 0;
    while i < module.data_files.entries.len()
        invariant
            i <= module.data_files.entries@.len(),
            paths.deep_view() =~= Seq::new(
                i as nat,
                |j: int| module.data_files.entries@[j].1.path@,
            ),
        decreases module.data_files.entries@.len() - i,
    {
        let ghost before = paths.deep_view();
        paths.push(module.data_files.entries[i].1.path.clone());
        assert(paths.deep_view() =~= before.push(module.data_files.entries@[i as int].1.path@));
        i += 1;
    }
    paths
}

/// The operation of a path: the first that it defines, in the order get, put,
/// post, delete, options, head, patch, trace.
pub open spec fn single_operation(item: OpenApiPathItemObject) -> Option<
    (Seq<char>, OpenApiOperation),
> {
    if let Some(operation) = item.get {
        Some(("get"@, operation))
    } else if let Some(operation) = item.put {
        Some(("put"@, operation))
    } else if let Some(operation) = item.post {
        Some(("post"@, operation))
    } else if let Some(operation) = item.delete {
        Some(("delete"@, operation))
    } else if let Some(operation) = item.options {
        Some(("options"@, operation))
    } else if let Some(operation) = item.head {
        Some(("head"@, operation))
    } else if let Some(operation) = item.patch {
        Some(("patch"@, operation))
    } else if let Some(operation) = item.trace {
        Some(("trace"@, operation))
    } else {
        None
    }
}

/// Picks the operation of a path. Where a path defines several, the first
/// in the fixed order of methods is taken.
pub fn pick_single_operation<'a>(item: &'a OpenApiPathItemObject) -> (out: Result<
    (&'static str, &'a OpenApiOperation),
    BuildError,
>)
    ensures
        match out {
            Ok((method, operation)) => single_operation(*item) == Some((method@, *operation)),
            Err(error) => error == BuildError::NoOperation && single_operation(*item) is None,
        },
{
    if let Some(operation) = &item.get {
        Ok(("get", operation))
    } else if let Some(operation) = &item.put {
        Ok(("put", operation))
    } else if let Some(operation) = &item.post {
        Ok(("post", operation))
    } else if let Some(operation) = &item.delete {
        Ok(("delete", operation))
    } else if let Some(operation) = &item.options {
        Ok(("options", operation))
    } else if let Some(operation) = &item.head {
        Ok(("head", operation))
    } else if let Some(operation) = &item.patch {
        Ok(("patch", operation))
    } else if let Some(operation) = &item.trace {
        Ok(("trace", operation))
    } else {
        Err(BuildError::NoOperation)
    }
}

/// What the response `200` of an operation returns: the first media type of its content.
pub open spec fn response_of(operation: OpenApiOperation) -> Result<
    OperationResponseView,
    BuildError,
> {
    if !operation.responses.has("200"@) {
        Err(BuildError::ResponseMissing)
    } else {
        match operation.responses.at("200"@) {
            ResponseEnum::OpenApiReferenceObject(_) => Err(BuildError::ResponseReference),
            ResponseEnum::OpenApiResponseObject(response) => match response.content {
                None => Err(BuildError::ResponseContentMissing),
                Some(content) => if content.entries@.len() == 0 {
                    Err(BuildError::ResponseContentEmpty)
                } else {
                    match content.entries@[0].1.schema {
                        Some(OpenApiSchemaEnum::OpenApiReferenceObject(_)) => Err(
                            BuildError::ResponseSchemaReference,
                        ),
                        Some(OpenApiSchemaEnum::OpenApiSchemaObject(schema)) => Ok(
                            OperationResponseView {
                                media_type: content.entries@[0].0@,
                                schema: Some(schema.deep_view()),
                            },
                        ),
                        None => Ok(
                            OperationResponseView {
                                media_type: content.entries@[0].0@,
                                schema: None,
                            },
                        ),
                    }
                },
            },
        }
    }
}

fn build_response(operation: &OpenApiOperation) -> (out: Result<OperationResponse, BuildError>)
    ensures
        agrees(out, response_of(*operation)),
{
    let response = match operation.responses.get("200") {
        Some(ResponseEnum::OpenApiResponseObject(response)) => response,
        Some(ResponseEnum::OpenApiReferenceObject(_)) => {
            return Err(BuildError::ResponseReference);
        },
        None => {
            return Err(BuildError::ResponseMissing);
        },
    };
    let content = match &response.content {
        Some(content) => content,
        None => {
            return Err(BuildError::ResponseContentMissing);
        },
    };
    if content.is_empty() {
        return Err(BuildError::ResponseContentEmpty);
    }
    let media_type = content.entries[0].0.clone();
    match &content.entries[0].1.schema {
        Some(OpenApiSchemaEnum::OpenApiReferenceObject(_)) => Err(
            BuildError::ResponseSchemaReference,
        ),
        Some(OpenApiSchemaEnum::OpenApiSchemaObject(schema)) => Ok(
            OperationResponse { media_type, schema: Some(schema.clone()) },
        ),
        None => Ok(OperationResponse { media_type, schema: None }),
    }
}

/// The request body of an operation: the first media type of its content, if
/// it has a body with content.
pub open spec fn request_body_of(operation: OpenApiOperation) -> Result<
    Option<RequestBodyView>,
    BuildError,
> {
    match operation.request_body {
        None => Ok(None),
        Some(RequestBodyEnum::OpenApiReferenceObject(_)) => Err(BuildError::RequestBodyReference),
        Some(RequestBodyEnum::OpenApiRequestBodyObject(body)) => if body.content.entries@.len()
            == 0 {
            Ok(None)
        } else {
            match body.content.entries@[0].1.schema {
                Some(OpenApiSchemaEnum::OpenApiReferenceObject(_)) => Err(
                    BuildError::RequestBodySchemaReference,
                ),
                Some(OpenApiSchemaEnum::OpenApiSchemaObject(schema)) => Ok(
                    Some(
                        RequestBodyView {
                            media_type: body.content.entries@[0].0@,
                            schema: Some(schema.deep_view()),
                            encoding: body.content.entries@[0].1.encoding.deep_view(),
                        },
                    ),
                ),
                None => Ok(
                    Some(
                        RequestBodyView {
                            media_type: body.content.entries@[0].0@,
                            schema: None,
                            encoding: body.content.entries@[0].1.encoding.deep_view(),
                        },
                    ),
                ),
            }
        },
    }
}

fn build_request_body(operation: &OpenApiOperation) -> (out: Result<
    Option<RequestBody>,
    BuildError,
>)
    ensures
        agrees(out, request_body_of(*operation)),
{
    let body = match &operation.request_body {
        None => {
            return Ok(None);
        },
        Some(RequestBodyEnum::OpenApiReferenceObject(_)) => {
            return Err(BuildError::RequestBodyReference);
        },
        Some(RequestBodyEnum::OpenApiRequestBodyObject(body)) => body,
    };
    if body.content.is_empty() {
        return Ok(None);
    }
    let media_type = body.content.entries[0].0.clone();
    let media = &body.content.entries[0].1;
    let schema = match &media.schema {
        Some(OpenApiSchemaEnum::OpenApiReferenceObject(_)) => {
            return Err(BuildError::RequestBodySchemaReference);
        },
        Some(OpenApiSchemaEnum::OpenApiSchemaObject(schema)) => Some(schema.clone()),
        None => None,
    };
    let encoding = media.encoding.clone();
    assert(encoding.deep_view() =~= media.encoding.deep_view());
    Ok(Some(RequestBody { media_type, schema, encoding }))
}

/// The parameters of an operation, none of which may be a reference.
pub open spec fn parameters_of(operation: OpenApiOperation) -> Result<
    Seq<OpenApiParameterObjectView>,
    BuildError,
> {
    match operation.parameters {
        None => Ok(Seq::empty()),
        Some(parameters) => if exists|i: int|
            0 <= i < parameters@.len() && #[trigger] parameters@[i] is OpenApiReferenceObject {
            Err(BuildError::ParameterReference)
        } else {
            Ok(
                Seq::new(
                    parameters@.len(),
                    |i: int| parameters@[i]->OpenApiParameterObject_0.deep_view(),
                ),
            )
        },
    }
}

#[verifier::loop_isolation(false)]
fn build_parameters(operation: &OpenApiOperation) -> (out: Result<
    Vec<OpenApiParameterObject>,
    BuildError,
>)
    ensures
        agrees(out, parameters_of(*operation)),
{
    let mut list: Vec<OpenApiParameterObject> = Vec::new();
    let parameters = match &operation.parameters {
        Some(parameters) => parameters,
        None => {
            assert(list.deep_view() =~= Seq::empty());
            return Ok(list);
        },
    };
    let mut i: usize = 0;
    while i < parameters.len()
        invariant
            i <= parameters@.len(),
            forall|j: int| 0 <= j < i ==> !(#[trigger] parameters@[j] is OpenApiReferenceObject),
            list.deep_view() =~= Seq::new(
                i as nat,
                |j: int| parameters@[j]->OpenApiParameterObject_0.deep_view(),
            ),
        decreases parameters@.len() - i,
    {
        match &parameters[i] {
            OpenApiParameterEnum::OpenApiParameterObject(parameter) => {
                let ghost before = list.deep_view();
                list.push(parameter.clone());
                assert(list.deep_view() =~= before.push(parameter.deep_view()));
            },
            OpenApiParameterEnum::OpenApiReferenceObject(_) => {
                return Err(BuildError::ParameterReference);
            },
        }
        i += 1;
    }
    Ok(list)
}

/// The URL template of the first server of a description.
pub open spec fn server_template(description: OpenApiDocument) -> Option<Seq<char>> {
    match description.servers {
        Some(servers) => if servers@.len() > 0 {
            Some(servers@[0].url@)
        } else {
            None
        },
        None => None,
    }
}

/// The endpoint of a step: where and how the step's function is called on
/// the step's device, as the module's description says.
pub open spec fn endpoint_of(step: AssignedStep, deployment: ObjectId) -> Result<
    EndpointView,
    BuildError,
> {
    let key = execution_path(step.module.name@, step.func@);
    let paths = step.module.description.paths;
    if !paths.has(key) {
        Err(BuildError::PathMissing)
    } else {
        match single_operation(paths.at(key)) {
            None => Err(BuildError::NoOperation),
            Some((method, operation)) => match response_of(operation) {
                Err(error) => Err(error),
                Ok(response) => match request_body_of(operation) {
                    Err(error) => Err(error),
                    Ok(request_body) => match server_template(step.module.description) {
                        None => Err(BuildError::ServerMissing),
                        Some(template) => match parameters_of(operation) {
                            Err(error) => Err(error),
                            Ok(parameters) => Ok(
                                EndpointView {
                                    url: server_url(template, step.device.deep_view()),
                                    path: replaced(key, "{deployment}"@, deployment.hex()),
                                    method,
                                    request: OperationRequestView { parameters, request_body },
                                    response,
                                },
                            ),
                        },
                    },
                },
            },
        }
    }
}

/// Builds the endpoint of a step of the deployment `deployment_id`.
pub fn build_endpoint(step: &AssignedStep, deployment_id: &ObjectId) -> (out: Result<
    Endpoint,
    BuildError,
>)
    ensures
        agrees(out, endpoint_of(*step, *deployment_id)),
{
    let key = supervisor_execution_path(step.module.name.as_str(), step.func.as_str());
    let item = match step.module.description.paths.get(key.as_str()) {
        Some(item) => item,
        None => {
            return Err(BuildError::PathMissing);
        },
    };
    let (method, operation) = match pick_single_operation(item) {
        Ok(found) => found,
        Err(error) => {
            return Err(error);
        },
    };
    let response = match build_response(operation) {
        Ok(response) => response,
        Err(error) => {
            return Err(error);
        },
    };
    let request_body = match build_request_body(operation) {
        Ok(request_body) => request_body,
        Err(error) => {
            return Err(error);
        },
    };
    let template = match &step.module.description.servers {
        Some(servers) => {
            if servers.len() > 0 {
                &servers[0].url
            } else {
                return Err(BuildError::ServerMissing);
            }
        },
        None => {
            return Err(BuildError::ServerMissing);
        },
    };
    let url = fill_server_url(template.as_str(), &step.device);
    proof {
        reveal_strlit("{deployment}");
    }
    let hex = deployment_id.to_hex();
    let path = str_replace(key.as_str(), "{deployment}", hex.as_str());
    let parameters = match build_parameters(operation) {
        Ok(parameters) => parameters,
        Err(error) => {
            return Err(error);
        },
    };
    Ok(
        Endpoint {
            url,
            path,
            method: method.to_string(),
            request: OperationRequest { parameters, request_body },
            response,
        },
    )
}

/// What one step adds to a manifest.
#[derive(Clone, Debug, PartialEq, Eq)]
pub struct StepPlan {
    /// Identifier of the step's device.
    pub device: ObjectId,
    pub module: DeviceModule,
    pub func: String,
    pub endpoint: Endpoint,
    pub mounts: StageMounts,
}

/// What a [`StepPlan`] holds, as mathematical values.
pub struct StepPlanView {
    pub device: ObjectId,
    pub module: DeviceModuleView,
    pub func: Seq<char>,
    pub endpoint: EndpointView,
    pub mounts: StageMountsView,
}

impl DeepView for StepPlan {
    type V = StepPlanView;

    open spec fn deep_view(&self) -> StepPlanView {
        StepPlanView {
            device: self.device,
            module: self.module.deep_view(),
            func: self.func.deep_view(),
            endpoint: self.endpoint.deep_view(),
            mounts: self.mounts.deep_view(),
        }
    }
}

/// What a step adds to a manifest: the module's data, the endpoint of the
/// function and its mounts. The first thing that is missing decides the error.
pub open spec fn plan_of(
    step: AssignedStep,
    deployment: ObjectId,
    base: Seq<char>,
    supported: Seq<Seq<char>>,
) -> Result<StepPlanView, BuildError> {
    match step.device.id {
        None => Err(BuildError::DeviceIdMissing),
        Some(device) => match module_data_of(step.module, base) {
            Err(error) => Err(error),
            Ok(module) => match endpoint_of(step, deployment) {
                Err(error) => Err(error),
                Ok(endpoint) => match mounts_of(step.module.mounts, step.func@, endpoint, supported) {
                    Err(error) => Err(BuildError::Mount(error)),
                    Ok(mounts) => Ok(
                        StepPlanView { device, module, func: step.func@, endpoint, mounts },
                    ),
                },
            },
        },
    }
}

/// Plans one step of the deployment `deployment_id`.
pub fn plan_step(
    step: &AssignedStep,
    deployment_id: &ObjectId,
    package_base_url: &str,
    supported_file_types: &[&str],
) -> (out: Result<StepPlan, BuildError>)
    ensures
        agrees(
            out,
            plan_of(*step, *deployment_id, package_base_url@, supported_file_types.deep_view()),
        ),
{
    let device = match step.device.id {
        Some(device) => device,
        None => {
            return Err(BuildError::DeviceIdMissing);
        },
    };
    let module = match module_data(&step.module, package_base_url) {
        Ok(module) => module,
        Err(error) => {
            return Err(error);
        },
    };
    let endpoint = match build_endpoint(step, deployment_id) {
        Ok(endpoint) => endpoint,
        Err(error) => {
            return Err(error);
        },
    };
    let mounts = match mounts_for(
        &step.module,
        step.func.as_str(),
        &endpoint,
        supported_file_types,
    ) {
        Ok(mounts) => mounts,
        Err(error) => {
            return Err(BuildError::Mount(error));
        },
    };
    Ok(StepPlan { device, module, func: step.func.clone(), endpoint, mounts })
}

/// The plans of the first `n` steps, or the error of the first step that has one.
pub open spec fn plans_of(
    sequence: Seq<AssignedStep>,
    deployment: ObjectId,
    base: Seq<char>,
    supported: Seq<Seq<char>>,
    n: nat,
) -> Result<Seq<StepPlanView>, BuildError>
    decreases n,
{
    if n == 0 || n > sequence.len() {
        Ok(Seq::empty())
    } else {
        match plans_of(sequence, deployment, base, supported, (n - 1) as nat) {
            Err(error) => Err(error),
            Ok(before) => match plan_of(sequence[n - 1], deployment, base, supported) {
                Err(error) => Err(error),
                Ok(plan) => Ok(before.push(plan)),
            },
        }
    }
}

/// The manifest of a device that no step has touched yet.
pub open spec fn empty_node(deployment: ObjectId) -> DeploymentNodeView {
    DeploymentNodeView {
        deployment_id: deployment,
        modules: Seq::empty(),
        endpoints: Seq::empty(),
        instructions: InstructionsView { modules: Seq::empty() },
        mounts: Seq::empty(),
    }
}

/// A device's manifest after one more step: the module is appended, and the
/// endpoint and the mounts are set under the module's name and the function.
pub open spec fn node_with_step(node: DeploymentNodeView, plan: StepPlanView) -> DeploymentNodeView {
    DeploymentNodeView {
        deployment_id: node.deployment_id,
        modules: node.modules.push(plan.module),
        endpoints: model_put_nested(node.endpoints, plan.module.name, plan.func, plan.endpoint),
        instructions: node.instructions,
        mounts: model_put_nested(node.mounts, plan.module.name, plan.func, plan.mounts),
    }
}

/// A manifest after one more step: the step's device gets a manifest of its
/// own if it has none, and the step is added to it.
pub open spec fn manifest_with_step(
    manifest: Seq<(Seq<char>, DeploymentNodeView)>,
    plan: StepPlanView,
    deployment: ObjectId,
) -> Seq<(Seq<char>, DeploymentNodeView)> {
    let key = plan.device.hex();
    let node = if model_has(manifest, key) {
        model_at(manifest, key)
    } else {
        empty_node(deployment)
    };
    model_put(manifest, key, node_with_step(node, plan))
}

/// The manifest after the first `n` steps, without forwarding instructions.
pub open spec fn manifest_of(plans: Seq<StepPlanView>, deployment: ObjectId, n: nat) -> Seq<
    (Seq<char>, DeploymentNodeView),
>
    decreases n,
{
    if n == 0 || n > plans.len() {
        Seq::empty()
    } else {
        manifest_with_step(manifest_of(plans, deployment, (n - 1) as nat), plans[n - 1], deployment)
    }
}

/// Where the result of step `i` comes from and where it goes: from the step's
/// own endpoint to that of the next step, or nowhere after the last step.
pub open spec fn instruction_for(plans: Seq<StepPlanView>, i: int) -> InstructionView {
    InstructionView {
        from: plans[i].endpoint,
        to: if i + 1 < plans.len() {
            Some(plans[i + 1].endpoint)
        } else {
            None
        },
    }
}

/// A device's manifest with an instruction set under a module's name and a function.
pub open spec fn node_with_instruction(
    node: DeploymentNodeView,
    module_name: Seq<char>,
    func: Seq<char>,
    instruction: InstructionView,
) -> DeploymentNodeView {
    DeploymentNodeView {
        deployment_id: node.deployment_id,
        modules: node.modules,
        endpoints: node.endpoints,
        instructions: InstructionsView {
            modules: model_put_nested(node.instructions.modules, module_name, func, instruction),
        },
        mounts: node.mounts,
    }
}

/// A manifest with the instruction of step `i` set on the step's device.
pub open spec fn manifest_with_instruction(
    manifest: Seq<(Seq<char>, DeploymentNodeView)>,
    plans: Seq<StepPlanView>,
    i: int,
) -> Seq<(Seq<char>, DeploymentNodeView)> {
    let key = plans[i].device.hex();
    if model_has(manifest, key) {
        model_put(
            manifest,
            key,
            node_with_instruction(
                model_at(manifest, key),
                plans[i].module.name,
                plans[i].func,
                instruction_for(plans, i),
            ),
        )
    } else {
        manifest
    }
}

/// A manifest with the instructions of the first `n` steps.
pub open spec fn instructed(
    manifest: Seq<(Seq<char>, DeploymentNodeView)>,
    plans: Seq<StepPlanView>,
    n: nat,
) -> Seq<(Seq<char>, DeploymentNodeView)>
    decreases n,
{
    if n == 0 || n > plans.len() {
        manifest
    } else {
        manifest_with_instruction(instructed(manifest, plans, (n - 1) as nat), plans, n - 1)
    }
}

/// The steps by the identifiers of their devices and modules.
pub open spec fn sequence_ids(plans: Seq<StepPlanView>) -> Seq<SequenceStepView> {
    Seq::new(
        plans.len(),
        |i: int|
            SequenceStepView {
                device: plans[i].device,
                module: plans[i].module.id,
                func: plans[i].func,
            },
    )
}

/// The solved deployment of a sequence: every step is planned, the plans are
/// gathered by device, and each device learns where its results go.
pub open spec fn solution_of(
    sequence: Seq<AssignedStep>,
    deployment: ObjectId,
    base: Seq<char>,
    supported: Seq<Seq<char>>,
) -> Result<CreateSolutionResultView, BuildError> {
    match plans_of(sequence, deployment, base, supported, sequence.len()) {
        Err(error) => Err(error),
        Ok(plans) => Ok(
            CreateSolutionResultView {
                full_manifest: instructed(
                    manifest_of(plans, deployment, plans.len()),
                    plans,
                    plans.len(),
                ),
                sequence: sequence_ids(plans),
            },
        ),
    }
}

fn extend_node(node: &mut DeploymentNode, plan: &StepPlan)
    ensures
        final(node).deep_view() == node_with_step(old(node).deep_view(), plan.deep_view()),
{
    let ghost modules = node.modules.deep_view();
    let module = plan.module.clone();
    node.modules.push(module);
    assert(node.modules.deep_view() =~= modules.push(plan.module.deep_view()));
    put_nested(
        &mut node.endpoints,
        plan.module.name.as_str(),
        plan.func.clone(),
        plan.endpoint.clone(),
    );
    put_nested(
        &mut node.mounts,
        plan.module.name.as_str(),
        plan.func.clone(),
        plan.mounts.clone(),
    );
}

fn add_step(manifest: &mut OrderedMap<DeploymentNode>, plan: &StepPlan, deployment_id: &ObjectId)
    ensures
        final(manifest).deep_view() == manifest_with_step(
            old(manifest).deep_view(),
            plan.deep_view(),
            *deployment_id,
        ),
{
    proof {
        lemma_model_of_map(*manifest);
    }
    let ghost before = manifest.deep_view();
    let key = plan.device.to_hex();
    match manifest.position(key.as_str()) {
        Some(i) => {
            let ghost node_before = manifest.entries@[i as int].1.deep_view();
            let ghost key_before = manifest.entries@[i as int].0;
            extend_node(&mut manifest.entries[i].1, plan);
            proof {
                lemma_first_position(model_keys(before), key@);
                assert(manifest.entries@[i as int].0 == key_before);
                assert(manifest.deep_view() =~= before.update(
                    i as int,
                    (key@, node_with_step(node_before, plan.deep_view())),
                ));
            }
        },
        None => {
            let mut node = DeploymentNode {
                deployment_id: *deployment_id,
                modules: Vec::new(),
                endpoints: OrderedMap::new(),
                instructions: Instructions { modules: OrderedMap::new() },
                mounts: OrderedMap::new(),
            };
            assert(node.deep_view().modules =~= Seq::empty());
            assert(node.deep_view().endpoints =~= Seq::empty());
            assert(node.deep_view().mounts =~= Seq::empty());
            assert(node.deep_view().instructions.modules =~= Seq::empty());
            extend_node(&mut node, plan);
            manifest.put(key, node);
        },
    }
}

fn add_instruction(manifest: &mut OrderedMap<DeploymentNode>, plans: &Vec<StepPlan>, i: usize)
    requires
        i < plans@.len(),
    ensures
        final(manifest).deep_view() == manifest_with_instruction(
            old(manifest).deep_view(),
            plans.deep_view(),
            i as int,
        ),
{
    proof {
        lemma_model_of_map(*manifest);
    }
    let ghost before = manifest.deep_view();
    let plan = &plans[i];
    assert(plans.deep_view()[i as int] == plan.deep_view());
    let key = plan.device.to_hex();
    if let Some(at) = manifest.position(key.as_str()) {
        let count = plans.len();
        let to = if i < count - 1 {
            assert(plans.deep_view()[i + 1] == plans@[i + 1].deep_view());
            Some(plans[i + 1].endpoint.clone())
        } else {
            None
        };
        let instruction = Instruction { from: plan.endpoint.clone(), to };
        assert(instruction.deep_view() == instruction_for(plans.deep_view(), i as int));
        let ghost node_before = manifest.entries@[at as int].1.deep_view();
        let ghost key_before = manifest.entries@[at as int].0;
        put_nested(
            &mut manifest.entries[at].1.instructions.modules,
            plan.module.name.as_str(),
            plan.func.clone(),
            instruction,
        );
        proof {
            lemma_first_position(model_keys(before), key@);
            assert(manifest.entries@[at as int].0 == key_before);
            assert(manifest.deep_view() =~= before.update(
                at as int,
                (
                    key@,
                    node_with_instruction(
                        node_before,
                        plan.module.name@,
                        plan.func@,
                        instruction.deep_view(),
                    ),
                ),
            ));
        }
    }
}

/// Builds the manifest of every device of a sequence, with the endpoints,
/// the mounts and the forwarding instructions of its steps, and the sequence
/// by identifiers. Any step that cannot be planned fails the whole build.
pub fn create_solution(
    deployment_id: &ObjectId,
    sequence: &[AssignedStep],
    package_base_url: &str,
    supported_file_types: &[&str],
) -> (out: Result<CreateSolutionResult, BuildError>)
    ensures
        agrees(
            out,
            solution_of(
                sequence@,
                *deployment_id,
                package_base_url@,
                supported_file_types.deep_view(),
            ),
        ),
{
    let ghost supported = supported_file_types.deep_view();
    let mut plans: Vec<StepPlan> = Vec::new();
    assert(plans.deep_view() =~= Seq::empty());
    let mut i: usize = 0;
    while i < sequence.len()
        invariant
            i <= sequence@.len(),
            supported == supported_file_types.deep_view(),
            plans@.len() == i,
            plans_of(sequence@, *deployment_id, package_base_url@, supported, i as nat) == Ok::<
                Seq<StepPlanView>,
                BuildError,
            >(plans.deep_view()),
        decreases sequence@.len() - i,
    {
        let ghost before = plans.deep_view();
        let plan = match plan_step(
            &sequence[i],
            deployment_id,
            package_base_url,
            supported_file_types,
        ) {
            Ok(plan) => plan,
            Err(error) => {
                proof {
                    lemma_plans_error(
                        sequence@,
                        *deployment_id,
                        package_base_url@,
                        supported,
                        (i + 1) as nat,
                        sequence@.len(),
                    );
                }
                return Err(error);
            },
        };
        plans.push(plan);
        assert(plans.deep_view() =~= before.push(plan.deep_view()));
        i += 1;
    }
    let ghost planned = plans.deep_view();
    let mut manifest: OrderedMap<DeploymentNode> = OrderedMap::new();
    assert(manifest.deep_view() =~= Seq::empty());
    let mut j: usize = 0;
    while j < plans.len()
        invariant
            j <= plans@.len(),
            planned == plans.deep_view(),
            manifest.deep_view() == manifest_of(planned, *deployment_id, j as nat),
        decreases plans@.len() - j,
    {
        assert(planned[j as int] == plans@[j as int].deep_view());
        add_step(&mut manifest, &plans[j], deployment_id);
        j += 1;
    }
    let ghost base_manifest = manifest.deep_view();
    let mut k: usize = 0;
    while k < plans.len()
        invariant
            k <= plans@.len(),
            planned == plans.deep_view(),
            manifest.deep_view() == instructed(base_manifest, planned, k as nat),
        decreases plans@.len() - k,
    {
        add_instruction(&mut manifest, &plans, k);
        k += 1;
    }
    let mut ids: Vec<SequenceStep> = Vec::new();
    let mut n: usize = 0;
    while n < plans.len()
        invariant
            n <= plans@.len(),
            planned == plans.deep_view(),
            ids.deep_view() =~= sequence_ids(planned).take(n as int),
        decreases plans@.len() - n,
    {
        let ghost before = ids.deep_view();
        assert(planned[n as int] == plans@[n as int].deep_view());
        ids.push(
            SequenceStep {
                device: plans[n].device,
                module: plans[n].module.id,
                func: plans[n].func.clone(),
            },
        );
        assert(ids.deep_view() =~= before.push(sequence_ids(planned)[n as int]));
        n += 1;
    }
    assert(ids.deep_view() =~= sequence_ids(planned));
    Ok(CreateSolutionResult { full_manifest: manifest, sequence: ids })
}

/// Once a step has an error, every longer prefix of the sequence has that error.
proof fn lemma_plans_error(
    sequence: Seq<AssignedStep>,
    deployment: ObjectId,
    base: Seq<char>,
    supported: Seq<Seq<char>>,
    failing: nat,
    n: nat,
)
    requires
        plans_of(sequence, deployment, base, supported, failing) is Err,
        failing <= n <= sequence.len(),
    ensures
        plans_of(sequence, deployment, base, supported, n) == plans_of(
            sequence,
            deployment,
            base,
            supported,
            failing,
        ),
    decreases n,
{
    if n > failing {
        lemma_plans_error(sequence, deployment, base, supported, failing, (n - 1) as nat);
    }
}

/// What solving a sequence gives back: the identifier of the deployment that
/// was created, or the solution of the deployment that was solved again.
#[derive(Clone, Debug, PartialEq, Eq)]
pub enum SolveResult {
    DeploymentId(ObjectId),
    Solution(CreateSolutionResult),
}

/// What solving gives back: the solution where an existing deployment was
/// solved again, else the identifier of the new deployment.
pub fn solve_result(resolving: bool, deployment_id: ObjectId, solution: CreateSolutionResult) -> (out:
    SolveResult)
    ensures
        resolving ==> out == SolveResult::Solution(solution),
        !resolving ==> out == SolveResult::DeploymentId(deployment_id),
{
    if resolving {
        SolveResult::Solution(solution)
    } else {
        SolveResult::DeploymentId(deployment_id)
    }
}

} // verus!
