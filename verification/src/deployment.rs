//! Deployments: sequences, endpoints, mounts and per-device manifests.

use vstd::prelude::*;
use crate::ids::ObjectId;
use crate::module::MountStage;
use crate::openapi::{
    OpenApiEncodingObject, OpenApiEncodingObjectView, OpenApiParameterObject,
    OpenApiParameterObjectView, OpenApiSchemaObject, OpenApiSchemaObjectView,
};
use crate::ordered_map::OrderedMap;

verus! {

/// One step of a stored sequence, by identifiers.
#[derive(Debug, PartialEq, Eq)]
pub struct SequenceStep {
    pub device: ObjectId,
    pub module: ObjectId,
    pub func: String,
}

/// What a [`SequenceStep`] holds, as mathematical values.
pub struct SequenceStepView {
    pub device: ObjectId,
    pub module: ObjectId,
    pub func: Seq<char>,
}

impl DeepView for SequenceStep {
    type V = SequenceStepView;

    open spec fn deep_view(&self) -> SequenceStepView {
        SequenceStepView {
            device: self.device.deep_view(),
            module: self.module.deep_view(),
            func: self.func.deep_view(),
        }
    }
}

impl Clone for SequenceStep {
    fn clone(&self) -> (copy: SequenceStep)
        ensures
            copy.deep_view() == self.deep_view(),
    {
        SequenceStep {
            device: self.device,
            module: self.module,
            func: self.func.clone(),
        }
    }
}

/// Request body of an endpoint: the first media type that the description offers.
#[derive(Debug, PartialEq, Eq)]
pub struct RequestBody {
    pub media_type: String,
    pub schema: Option<OpenApiSchemaObject>,
    pub encoding: Option<OrderedMap<OpenApiEncodingObject>>,
}

/// What a [`RequestBody`] holds, as mathematical values.
pub struct RequestBodyView {
    pub media_type: Seq<char>,
    pub schema: Option<OpenApiSchemaObjectView>,
    pub encoding: Option<Seq<(Seq<char>, OpenApiEncodingObjectView)>>,
}

impl DeepView for RequestBody {
    type V = RequestBodyView;

    open spec fn deep_view(&self) -> RequestBodyView {
        RequestBodyView {
            media_type: self.media_type.deep_view(),
            schema: self.schema.deep_view(),
            encoding: self.encoding.deep_view(),
        }
    }
}

impl Clone for RequestBody {
    fn clone(&self) -> (copy: RequestBody)
        ensures
            copy.deep_view() == self.deep_view(),
    {
        let copy = RequestBody {
            media_type: self.media_type.clone(),
            schema: self.schema.clone(),
            encoding: self.encoding.clone(),
        };
        assert(copy.encoding.deep_view() =~= self.encoding.deep_view());
        copy
    }
}

/// What a call of an endpoint takes.
#[derive(Debug, PartialEq, Eq)]
pub struct OperationRequest {
    pub parameters: Vec<OpenApiParameterObject>,
    pub request_body: Option<RequestBody>,
}

/// What a [`OperationRequest`] holds, as mathematical values.
pub struct OperationRequestView {
    pub parameters: Seq<OpenApiParameterObjectView>,
    pub request_body: Option<RequestBodyView>,
}

impl DeepView for OperationRequest {
    type V = OperationRequestView;

    open spec fn deep_view(&self) -> OperationRequestView {
        OperationRequestView {
            parameters: self.parameters.deep_view(),
            request_body: self.request_body.deep_view(),
        }
    }
}

impl Clone for OperationRequest {
    fn clone(&self) -> (copy: OperationRequest)
        ensures
            copy.deep_view() == self.deep_view(),
    {
        let copy = OperationRequest {
            parameters: self.parameters.clone(),
            request_body: self.request_body.clone(),
        };
        assert(copy.parameters.deep_view() =~= self.parameters.deep_view());
        copy
    }
}

/// What a call of an endpoint returns.
#[derive(Debug, PartialEq, Eq)]
pub struct OperationResponse {
    pub media_type: String,
    pub schema: Option<OpenApiSchemaObject>,
}

/// What a [`OperationResponse`] holds, as mathematical values.
pub struct OperationResponseView {
    pub media_type: Seq<char>,
    pub schema: Option<OpenApiSchemaObjectView>,
}

impl DeepView for OperationResponse {
    type V = OperationResponseView;

    open spec fn deep_view(&self) -> OperationResponseView {
        OperationResponseView {
            media_type: self.media_type.deep_view(),
            schema: self.schema.deep_view(),
        }
    }
}

impl Clone for OperationResponse {
    fn clone(&self) -> (copy: OperationResponse)
        ensures
            copy.deep_view() == self.deep_view(),
    {
        OperationResponse {
            media_type: self.media_type.clone(),
            schema: self.schema.clone(),
        }
    }
}

/// Where and how one function of a module is called on a device.
#[derive(Debug, PartialEq, Eq)]
pub struct Endpoint {
    pub url: String,
    pub path: String,
    pub method: String,
    pub request: OperationRequest,
    pub response: OperationResponse,
}

/// What a [`Endpoint`] holds, as mathematical values.
pub struct EndpointView {
    pub url: Seq<char>,
    pub path: Seq<char>,
    pub method: Seq<char>,
    pub request: OperationRequestView,
    pub response: OperationResponseView,
}

impl DeepView for Endpoint {
    type V = EndpointView;

    open spec fn deep_view(&self) -> EndpointView {
        EndpointView {
            url: self.url.deep_view(),
            path: self.path.deep_view(),
            method: self.method.deep_view(),
            request: self.request.deep_view(),
            response: self.response.deep_view(),
        }
    }
}

impl Clone for Endpoint {
    fn clone(&self) -> (copy: Endpoint)
        ensures
            copy.deep_view() == self.deep_view(),
    {
        Endpoint {
            url: self.url.clone(),
            path: self.path.clone(),
            method: self.method.clone(),
            request: self.request.clone(),
            response: self.response.clone(),
        }
    }
}

/// Where a device fetches the files of a module.
#[derive(Debug, PartialEq, Eq)]
pub struct DeviceModuleUrls {
    pub binary: String,
    pub description: String,
    /// Data files by name.
    pub other: OrderedMap<String>,
}

/// What a [`DeviceModuleUrls`] holds, as mathematical values.
pub struct DeviceModuleUrlsView {
    pub binary: Seq<char>,
    pub description: Seq<char>,
    pub other: Seq<(Seq<char>, Seq<char>)>,
}

impl DeepView for DeviceModuleUrls {
    type V = DeviceModuleUrlsView;

    open spec fn deep_view(&self) -> DeviceModuleUrlsView {
        DeviceModuleUrlsView {
            binary: self.binary.deep_view(),
            description: self.description.deep_view(),
            other: self.other.deep_view(),
        }
    }
}

impl Clone for DeviceModuleUrls {
    fn clone(&self) -> (copy: DeviceModuleUrls)
        ensures
            copy.deep_view() == self.deep_view(),
    {
        let copy = DeviceModuleUrls {
            binary: self.binary.clone(),
            description: self.description.clone(),
            other: self.other.clone(),
        };
        assert(copy.other.deep_view() =~= self.other.deep_view());
        copy
    }
}

/// A module as a device needs to know it.
#[derive(Debug, PartialEq, Eq)]
pub struct DeviceModule {
    pub id: ObjectId,
    pub name: String,
    pub urls: DeviceModuleUrls,
}

/// What a [`DeviceModule`] holds, as mathematical values.
pub struct DeviceModuleView {
    pub id: ObjectId,
    pub name: Seq<char>,
    pub urls: DeviceModuleUrlsView,
}

impl DeepView for DeviceModule {
    type V = DeviceModuleView;

    open spec fn deep_view(&self) -> DeviceModuleView {
        DeviceModuleView {
            id: self.id.deep_view(),
            name: self.name.deep_view(),
            urls: self.urls.deep_view(),
        }
    }
}

impl Clone for DeviceModule {
    fn clone(&self) -> (copy: DeviceModule)
        ensures
            copy.deep_view() == self.deep_view(),
    {
        DeviceModule {
            id: self.id,
            name: self.name.clone(),
            urls: self.urls.clone(),
        }
    }
}

/// Where the result of a function comes from and where it goes next.
#[derive(Debug, PartialEq, Eq)]
pub struct Instruction {
    pub from: Endpoint,
    /// Absent on the last step of a sequence.
    pub to: Option<Endpoint>,
}

/// What a [`Instruction`] holds, as mathematical values.
pub struct InstructionView {
    pub from: EndpointView,
    pub to: Option<EndpointView>,
}

impl DeepView for Instruction {
    type V = InstructionView;

    open spec fn deep_view(&self) -> InstructionView {
        InstructionView {
            from: self.from.deep_view(),
            to: self.to.deep_view(),
        }
    }
}

impl Clone for Instruction {
    fn clone(&self) -> (copy: Instruction)
        ensures
            copy.deep_view() == self.deep_view(),
    {
        Instruction {
            from: self.from.clone(),
            to: self.to.clone(),
        }
    }
}

/// Forwarding instructions of a device: by module, then by function.
#[derive(Clone, Debug, PartialEq, Eq)]
pub struct Instructions {
    pub modules: OrderedMap<OrderedMap<Instruction>>,
}

/// What a [`Instructions`] holds, as mathematical values.
pub struct InstructionsView {
    pub modules: Seq<(Seq<char>, Seq<(Seq<char>, InstructionView)>)>,
}

impl DeepView for Instructions {
    type V = InstructionsView;

    open spec fn deep_view(&self) -> InstructionsView {
        InstructionsView { modules: self.modules.deep_view() }
    }
}

/// One property of a multipart schema.
#[derive(Debug, PartialEq, Eq)]
pub struct SchemaProperty {
    pub ty: String,
    pub format: Option<String>,
}

/// What a [`SchemaProperty`] holds, as mathematical values.
pub struct SchemaPropertyView {
    pub ty: Seq<char>,
    pub format: Option<Seq<char>>,
}

impl DeepView for SchemaProperty {
    type V = SchemaPropertyView;

    open spec fn deep_view(&self) -> SchemaPropertyView {
        SchemaPropertyView {
            ty: self.ty.deep_view(),
            format: self.format.deep_view(),
        }
    }
}

impl Clone for SchemaProperty {
    fn clone(&self) -> (copy: SchemaProperty)
        ensures
            copy.deep_view() == self.deep_view(),
    {
        SchemaProperty {
            ty: self.ty.clone(),
            format: self.format.clone(),
        }
    }
}

/// A multipart schema, reduced to what mounts are read from.
#[derive(Debug, PartialEq, Eq)]
pub struct SchemaObject {
    pub ty: String,
    pub properties: OrderedMap<SchemaProperty>,
}

/// What a [`SchemaObject`] holds, as mathematical values.
pub struct SchemaObjectView {
    pub ty: Seq<char>,
    pub properties: Seq<(Seq<char>, SchemaPropertyView)>,
}

impl DeepView for SchemaObject {
    type V = SchemaObjectView;

    open spec fn deep_view(&self) -> SchemaObjectView {
        SchemaObjectView {
            ty: self.ty.deep_view(),
            properties: self.properties.deep_view(),
        }
    }
}

impl Clone for SchemaObject {
    fn clone(&self) -> (copy: SchemaObject)
        ensures
            copy.deep_view() == self.deep_view(),
    {
        let copy = SchemaObject {
            ty: self.ty.clone(),
            properties: self.properties.clone(),
        };
        assert(copy.properties.deep_view() =~= self.properties.deep_view());
        copy
    }
}

/// A multipart request body with its schema and encodings.
#[derive(Debug, PartialEq, Eq)]
pub struct MultipartMediaType {
    pub media_type: String,
    pub schema: SchemaObject,
    pub encoding: OrderedMap<OpenApiEncodingObject>,
}

/// What a [`MultipartMediaType`] holds, as mathematical values.
pub struct MultipartMediaTypeView {
    pub media_type: Seq<char>,
    pub schema: SchemaObjectView,
    pub encoding: Seq<(Seq<char>, OpenApiEncodingObjectView)>,
}

impl DeepView for MultipartMediaType {
    type V = MultipartMediaTypeView;

    open spec fn deep_view(&self) -> MultipartMediaTypeView {
        MultipartMediaTypeView {
            media_type: self.media_type.deep_view(),
            schema: self.schema.deep_view(),
            encoding: self.encoding.deep_view(),
        }
    }
}

impl Clone for MultipartMediaType {
    fn clone(&self) -> (copy: MultipartMediaType)
        ensures
            copy.deep_view() == self.deep_view(),
    {
        let copy = MultipartMediaType {
            media_type: self.media_type.clone(),
            schema: self.schema.clone(),
            encoding: self.encoding.clone(),
        };
        assert(copy.encoding.deep_view() =~= self.encoding.deep_view());
        copy
    }
}

/// A file that a function call mounts.
#[derive(Debug, PartialEq, Eq)]
pub struct MountPathFile {
    pub path: String,
    pub media_type: String,
    pub stage: Option<MountStage>,
}

/// What a [`MountPathFile`] holds, as mathematical values.
pub struct MountPathFileView {
    pub path: Seq<char>,
    pub media_type: Seq<char>,
    pub stage: Option<MountStage>,
}

impl DeepView for MountPathFile {
    type V = MountPathFileView;

    open spec fn deep_view(&self) -> MountPathFileView {
        MountPathFileView {
            path: self.path.deep_view(),
            media_type: self.media_type.deep_view(),
            stage: self.stage.deep_view(),
        }
    }
}

impl Clone for MountPathFile {
    fn clone(&self) -> (copy: MountPathFile)
        ensures
            copy.deep_view() == self.deep_view(),
    {
        MountPathFile {
            path: self.path.clone(),
            media_type: self.media_type.clone(),
            stage: self.stage.clone(),
        }
    }
}

/// The mounts of a function, by the stage at which each is needed.
#[derive(Debug, PartialEq, Eq)]
pub struct StageMounts {
    pub execution: Vec<MountPathFile>,
    pub deployment: Vec<MountPathFile>,
    pub output: Vec<MountPathFile>,
}

/// What a [`StageMounts`] holds, as mathematical values.
pub struct StageMountsView {
    pub execution: Seq<MountPathFileView>,
    pub deployment: Seq<MountPathFileView>,
    pub output: Seq<MountPathFileView>,
}

impl DeepView for StageMounts {
    type V = StageMountsView;

    open spec fn deep_view(&self) -> StageMountsView {
        StageMountsView {
            execution: self.execution.deep_view(),
            deployment: self.deployment.deep_view(),
            output: self.output.deep_view(),
        }
    }
}

impl Clone for StageMounts {
    fn clone(&self) -> (copy: StageMounts)
        ensures
            copy.deep_view() == self.deep_view(),
    {
        let copy = StageMounts {
            execution: self.execution.clone(),
            deployment: self.deployment.clone(),
            output: self.output.clone(),
        };
        assert(copy.execution.deep_view() =~= self.execution.deep_view());
        assert(copy.deployment.deep_view() =~= self.deployment.deep_view());
        assert(copy.output.deep_view() =~= self.output.deep_view());
        copy
    }
}

/// What one device receives of a deployment.
#[derive(Clone, Debug, PartialEq, Eq)]
pub struct DeploymentNode {
    pub deployment_id: ObjectId,
    pub modules: Vec<DeviceModule>,
    /// By module, then by function.
    pub endpoints: OrderedMap<OrderedMap<Endpoint>>,
    pub instructions: Instructions,
    /// By module, then by function.
    pub mounts: OrderedMap<OrderedMap<StageMounts>>,
}

/// What a [`DeploymentNode`] holds, as mathematical values.
pub struct DeploymentNodeView {
    pub deployment_id: ObjectId,
    pub modules: Seq<DeviceModuleView>,
    pub endpoints: Seq<(Seq<char>, Seq<(Seq<char>, EndpointView)>)>,
    pub instructions: InstructionsView,
    pub mounts: Seq<(Seq<char>, Seq<(Seq<char>, StageMountsView)>)>,
}

impl DeepView for DeploymentNode {
    type V = DeploymentNodeView;

    open spec fn deep_view(&self) -> DeploymentNodeView {
        DeploymentNodeView {
            deployment_id: self.deployment_id.deep_view(),
            modules: self.modules.deep_view(),
            endpoints: self.endpoints.deep_view(),
            instructions: self.instructions.deep_view(),
            mounts: self.mounts.deep_view(),
        }
    }
}

/// A solved deployment: the manifest of every device, and the sequence by identifiers.
#[derive(Clone, Debug, PartialEq, Eq)]
pub struct CreateSolutionResult {
    /// Device manifests by the device identifier in hexadecimal.
    pub full_manifest: OrderedMap<DeploymentNode>,
    pub sequence: Vec<SequenceStep>,
}

/// What a [`CreateSolutionResult`] holds, as mathematical values.
pub struct CreateSolutionResultView {
    pub full_manifest: Seq<(Seq<char>, DeploymentNodeView)>,
    pub sequence: Seq<SequenceStepView>,
}

impl DeepView for CreateSolutionResult {
    type V = CreateSolutionResultView;

    open spec fn deep_view(&self) -> CreateSolutionResultView {
        CreateSolutionResultView {
            full_manifest: self.full_manifest.deep_view(),
            sequence: self.sequence.deep_view(),
        }
    }
}

/// A stored deployment.
#[derive(Clone, Debug, PartialEq, Eq)]
pub struct DeploymentDoc {
    pub id: Option<ObjectId>,
    pub name: String,
    pub sequence: Vec<SequenceStep>,
    pub validation_error: Option<String>,
    pub full_manifest: OrderedMap<DeploymentNode>,
    pub active: Option<bool>,
}

} // verus!
