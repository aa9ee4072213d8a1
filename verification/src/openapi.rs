//! The part of an OpenAPI description that a module carries for its functions.

use vstd::prelude::*;
use crate::ordered_map::OrderedMap;

verus! {

/// Format hint of a schema.
#[derive(Clone, Copy, Debug, PartialEq, Eq, Structural)]
pub enum OpenApiFormat {
    Int32,
    Int64,
    Float,
    Double,
    Byte,
    Binary,
    Date,
    DateTime,
    Password,
}

impl DeepView for OpenApiFormat {
    type V = OpenApiFormat;

    open spec fn deep_view(&self) -> OpenApiFormat {
        *self
    }
}

/// Where a parameter travels in a request.
#[derive(Clone, Copy, Debug, PartialEq, Eq, Structural)]
pub enum OpenApiParameterIn {
    Query,
    Header,
    Path,
    Cookie,
    RequestBody,
}

impl DeepView for OpenApiParameterIn {
    type V = OpenApiParameterIn;

    open spec fn deep_view(&self) -> OpenApiParameterIn {
        *self
    }
}

/// A reference to a component defined elsewhere. References are never resolved here.
#[derive(Debug, PartialEq, Eq)]
pub struct OpenApiReferenceObject {
    /// The `$ref` target.
    pub reference: String,
}

/// What a [`OpenApiReferenceObject`] holds, as mathematical values.
pub struct OpenApiReferenceObjectView {
    pub reference: Seq<char>,
}

impl DeepView for OpenApiReferenceObject {
    type V = OpenApiReferenceObjectView;

    open spec fn deep_view(&self) -> OpenApiReferenceObjectView {
        OpenApiReferenceObjectView { reference: self.reference.deep_view() }
    }
}

impl Clone for OpenApiReferenceObject {
    fn clone(&self) -> (copy: OpenApiReferenceObject)
        ensures
            copy.deep_view() == self.deep_view(),
    {
        OpenApiReferenceObject { reference: self.reference.clone() }
    }
}

/// Schema of one property of an object schema.
#[derive(Debug, PartialEq, Eq)]
pub struct OpenApiPropertyObject {
    /// The `type` keyword.
    pub ty: Option<String>,
    pub format: Option<OpenApiFormat>,
}

/// What a [`OpenApiPropertyObject`] holds, as mathematical values.
pub struct OpenApiPropertyObjectView {
    pub ty: Option<Seq<char>>,
    pub format: Option<OpenApiFormat>,
}

impl DeepView for OpenApiPropertyObject {
    type V = OpenApiPropertyObjectView;

    open spec fn deep_view(&self) -> OpenApiPropertyObjectView {
        OpenApiPropertyObjectView {
            ty: self.ty.deep_view(),
            format: self.format.deep_view(),
        }
    }
}

impl Clone for OpenApiPropertyObject {
    fn clone(&self) -> (copy: OpenApiPropertyObject)
        ensures
            copy.deep_view() == self.deep_view(),
    {
        OpenApiPropertyObject {
            ty: self.ty.clone(),
            format: self.format.clone(),
        }
    }
}

/// A property slot: a schema written in place, or a reference.
#[derive(Debug, PartialEq, Eq)]
pub enum OpenApiPropertyEnum {
    OpenApiPropertyObject(OpenApiPropertyObject),
    OpenApiReferenceObject(OpenApiReferenceObject),
}

/// What a [`OpenApiPropertyEnum`] holds, as mathematical values.
pub enum OpenApiPropertyEnumView {
    OpenApiPropertyObject(OpenApiPropertyObjectView),
    OpenApiReferenceObject(OpenApiReferenceObjectView),
}

impl DeepView for OpenApiPropertyEnum {
    type V = OpenApiPropertyEnumView;

    open spec fn deep_view(&self) -> OpenApiPropertyEnumView {
        match self {
            OpenApiPropertyEnum::OpenApiPropertyObject(inner) => OpenApiPropertyEnumView::OpenApiPropertyObject(inner.deep_view()),
            OpenApiPropertyEnum::OpenApiReferenceObject(inner) => OpenApiPropertyEnumView::OpenApiReferenceObject(inner.deep_view()),
        }
    }
}

impl Clone for OpenApiPropertyEnum {
    fn clone(&self) -> (copy: OpenApiPropertyEnum)
        ensures
            copy.deep_view() == self.deep_view(),
    {
        match self {
            OpenApiPropertyEnum::OpenApiPropertyObject(inner) => OpenApiPropertyEnum::OpenApiPropertyObject(inner.clone()),
            OpenApiPropertyEnum::OpenApiReferenceObject(inner) => OpenApiPropertyEnum::OpenApiReferenceObject(inner.clone()),
        }
    }
}

/// A schema written in place.
#[derive(Debug, PartialEq, Eq)]
pub struct OpenApiSchemaObject {
    /// The `type` keyword.
    pub ty: Option<String>,
    pub properties: Option<OrderedMap<OpenApiPropertyEnum>>,
    pub format: Option<OpenApiFormat>,
}

/// What a [`OpenApiSchemaObject`] holds, as mathematical values.
pub struct OpenApiSchemaObjectView {
    pub ty: Option<Seq<char>>,
    pub properties: Option<Seq<(Seq<char>, OpenApiPropertyEnumView)>>,
    pub format: Option<OpenApiFormat>,
}

impl DeepView for OpenApiSchemaObject {
    type V = OpenApiSchemaObjectView;

    open spec fn deep_view(&self) -> OpenApiSchemaObjectView {
        OpenApiSchemaObjectView {
            ty: self.ty.deep_view(),
            properties: self.properties.deep_view(),
            format: self.format.deep_view(),
        }
    }
}

impl Clone for OpenApiSchemaObject {
    fn clone(&self) -> (copy: OpenApiSchemaObject)
        ensures
            copy.deep_view() == self.deep_view(),
    {
        let copy = OpenApiSchemaObject {
            ty: self.ty.clone(),
            properties: self.properties.clone(),
            format: self.format.clone(),
        };
        assert(copy.properties.deep_view() =~= self.properties.deep_view());
        copy
    }
}

/// A schema slot: a schema written in place, or a reference.
#[derive(Debug, PartialEq, Eq)]
pub enum OpenApiSchemaEnum {
    OpenApiSchemaObject(OpenApiSchemaObject),
    OpenApiReferenceObject(OpenApiReferenceObject),
}

/// What a [`OpenApiSchemaEnum`] holds, as mathematical values.
pub enum OpenApiSchemaEnumView {
    OpenApiSchemaObject(OpenApiSchemaObjectView),
    OpenApiReferenceObject(OpenApiReferenceObjectView),
}

impl DeepView for OpenApiSchemaEnum {
    type V = OpenApiSchemaEnumView;

    open spec fn deep_view(&self) -> OpenApiSchemaEnumView {
        match self {
            OpenApiSchemaEnum::OpenApiSchemaObject(inner) => OpenApiSchemaEnumView::OpenApiSchemaObject(inner.deep_view()),
            OpenApiSchemaEnum::OpenApiReferenceObject(inner) => OpenApiSchemaEnumView::OpenApiReferenceObject(inner.deep_view()),
        }
    }
}

impl Clone for OpenApiSchemaEnum {
    fn clone(&self) -> (copy: OpenApiSchemaEnum)
        ensures
            copy.deep_view() == self.deep_view(),
    {
        match self {
            OpenApiSchemaEnum::OpenApiSchemaObject(inner) => OpenApiSchemaEnum::OpenApiSchemaObject(inner.clone()),
            OpenApiSchemaEnum::OpenApiReferenceObject(inner) => OpenApiSchemaEnum::OpenApiReferenceObject(inner.clone()),
        }
    }
}

/// Encoding of one multipart property.
#[derive(Debug, PartialEq, Eq)]
pub struct OpenApiEncodingObject {
    pub content_type: Option<String>,
}

/// What a [`OpenApiEncodingObject`] holds, as mathematical values.
pub struct OpenApiEncodingObjectView {
    pub content_type: Option<Seq<char>>,
}

impl DeepView for OpenApiEncodingObject {
    type V = OpenApiEncodingObjectView;

    open spec fn deep_view(&self) -> OpenApiEncodingObjectView {
        OpenApiEncodingObjectView { content_type: self.content_type.deep_view() }
    }
}

impl Clone for OpenApiEncodingObject {
    fn clone(&self) -> (copy: OpenApiEncodingObject)
        ensures
            copy.deep_view() == self.deep_view(),
    {
        OpenApiEncodingObject { content_type: self.content_type.clone() }
    }
}

/// Content offered under one media type.
#[derive(Debug, PartialEq, Eq)]
pub struct OpenApiMediaTypeObject {
    pub schema: Option<OpenApiSchemaEnum>,
    pub encoding: Option<OrderedMap<OpenApiEncodingObject>>,
}

/// What a [`OpenApiMediaTypeObject`] holds, as mathematical values.
pub struct OpenApiMediaTypeObjectView {
    pub schema: Option<OpenApiSchemaEnumView>,
    pub encoding: Option<Seq<(Seq<char>, OpenApiEncodingObjectView)>>,
}

impl DeepView for OpenApiMediaTypeObject {
    type V = OpenApiMediaTypeObjectView;

    open spec fn deep_view(&self) -> OpenApiMediaTypeObjectView {
        OpenApiMediaTypeObjectView {
            schema: self.schema.deep_view(),
            encoding: self.encoding.deep_view(),
        }
    }
}

impl Clone for OpenApiMediaTypeObject {
    fn clone(&self) -> (copy: OpenApiMediaTypeObject)
        ensures
            copy.deep_view() == self.deep_view(),
    {
        let copy = OpenApiMediaTypeObject {
            schema: self.schema.clone(),
            encoding: self.encoding.clone(),
        };
        assert(copy.encoding.deep_view() =~= self.encoding.deep_view());
        copy
    }
}

/// One declared parameter of an operation.
#[derive(Debug, PartialEq, Eq)]
pub struct OpenApiParameterObject {
    pub name: String,
    /// The `in` keyword.
    pub location: OpenApiParameterIn,
    pub description: Option<String>,
    pub required: bool,
    pub schema: Option<OpenApiSchemaEnum>,
}

/// What a [`OpenApiParameterObject`] holds, as mathematical values.
pub struct OpenApiParameterObjectView {
    pub name: Seq<char>,
    pub location: OpenApiParameterIn,
    pub description: Option<Seq<char>>,
    pub required: bool,
    pub schema: Option<OpenApiSchemaEnumView>,
}

impl DeepView for OpenApiParameterObject {
    type V = OpenApiParameterObjectView;

    open spec fn deep_view(&self) -> OpenApiParameterObjectView {
        OpenApiParameterObjectView {
            name: self.name.deep_view(),
            location: self.location.deep_view(),
            description: self.description.deep_view(),
            required: self.required.deep_view(),
            schema: self.schema.deep_view(),
        }
    }
}

impl Clone for OpenApiParameterObject {
    fn clone(&self) -> (copy: OpenApiParameterObject)
        ensures
            copy.deep_view() == self.deep_view(),
    {
        OpenApiParameterObject {
            name: self.name.clone(),
            location: self.location,
            description: self.description.clone(),
            required: self.required,
            schema: self.schema.clone(),
        }
    }
}

/// A parameter slot: a parameter written in place, or a reference.
#[derive(Debug, PartialEq, Eq)]
pub enum OpenApiParameterEnum {
    OpenApiParameterObject(OpenApiParameterObject),
    OpenApiReferenceObject(OpenApiReferenceObject),
}

/// What a [`OpenApiParameterEnum`] holds, as mathematical values.
pub enum OpenApiParameterEnumView {
    OpenApiParameterObject(OpenApiParameterObjectView),
    OpenApiReferenceObject(OpenApiReferenceObjectView),
}

impl DeepView for OpenApiParameterEnum {
    type V = OpenApiParameterEnumView;

    open spec fn deep_view(&self) -> OpenApiParameterEnumView {
        match self {
            OpenApiParameterEnum::OpenApiParameterObject(inner) => OpenApiParameterEnumView::OpenApiParameterObject(inner.deep_view()),
            OpenApiParameterEnum::OpenApiReferenceObject(inner) => OpenApiParameterEnumView::OpenApiReferenceObject(inner.deep_view()),
        }
    }
}

impl Clone for OpenApiParameterEnum {
    fn clone(&self) -> (copy: OpenApiParameterEnum)
        ensures
            copy.deep_view() == self.deep_view(),
    {
        match self {
            OpenApiParameterEnum::OpenApiParameterObject(inner) => OpenApiParameterEnum::OpenApiParameterObject(inner.clone()),
            OpenApiParameterEnum::OpenApiReferenceObject(inner) => OpenApiParameterEnum::OpenApiReferenceObject(inner.clone()),
        }
    }
}

/// Request body of an operation, by media type.
#[derive(Debug, PartialEq, Eq)]
pub struct OpenApiRequestBodyObject {
    pub description: Option<String>,
    pub content: OrderedMap<OpenApiMediaTypeObject>,
    pub required: Option<bool>,
}

/// What a [`OpenApiRequestBodyObject`] holds, as mathematical values.
pub struct OpenApiRequestBodyObjectView {
    pub description: Option<Seq<char>>,
    pub content: Seq<(Seq<char>, OpenApiMediaTypeObjectView)>,
    pub required: Option<bool>,
}

impl DeepView for OpenApiRequestBodyObject {
    type V = OpenApiRequestBodyObjectView;

    open spec fn deep_view(&self) -> OpenApiRequestBodyObjectView {
        OpenApiRequestBodyObjectView {
            description: self.description.deep_view(),
            content: self.content.deep_view(),
            required: self.required.deep_view(),
        }
    }
}

impl Clone for OpenApiRequestBodyObject {
    fn clone(&self) -> (copy: OpenApiRequestBodyObject)
        ensures
            copy.deep_view() == self.deep_view(),
    {
        let copy = OpenApiRequestBodyObject {
            description: self.description.clone(),
            content: self.content.clone(),
            required: self.required.clone(),
        };
        assert(copy.content.deep_view() =~= self.content.deep_view());
        copy
    }
}

/// A request body slot: a body written in place, or a reference.
#[derive(Debug, PartialEq, Eq)]
pub enum RequestBodyEnum {
    OpenApiRequestBodyObject(OpenApiRequestBodyObject),
    OpenApiReferenceObject(OpenApiReferenceObject),
}

/// What a [`RequestBodyEnum`] holds, as mathematical values.
pub enum RequestBodyEnumView {
    OpenApiRequestBodyObject(OpenApiRequestBodyObjectView),
    OpenApiReferenceObject(OpenApiReferenceObjectView),
}

impl DeepView for RequestBodyEnum {
    type V = RequestBodyEnumView;

    open spec fn deep_view(&self) -> RequestBodyEnumView {
        match self {
            RequestBodyEnum::OpenApiRequestBodyObject(inner) => RequestBodyEnumView::OpenApiRequestBodyObject(inner.deep_view()),
            RequestBodyEnum::OpenApiReferenceObject(inner) => RequestBodyEnumView::OpenApiReferenceObject(inner.deep_view()),
        }
    }
}

impl Clone for RequestBodyEnum {
    fn clone(&self) -> (copy: RequestBodyEnum)
        ensures
            copy.deep_view() == self.deep_view(),
    {
        match self {
            RequestBodyEnum::OpenApiRequestBodyObject(inner) => RequestBodyEnum::OpenApiRequestBodyObject(inner.clone()),
            RequestBodyEnum::OpenApiReferenceObject(inner) => RequestBodyEnum::OpenApiReferenceObject(inner.clone()),
        }
    }
}

/// One response of an operation, by media type.
#[derive(Debug, PartialEq, Eq)]
pub struct OpenApiResponseObject {
    pub description: String,
    pub content: Option<OrderedMap<OpenApiMediaTypeObject>>,
}

/// What a [`OpenApiResponseObject`] holds, as mathematical values.
pub struct OpenApiResponseObjectView {
    pub description: Seq<char>,
    pub content: Option<Seq<(Seq<char>, OpenApiMediaTypeObjectView)>>,
}

impl DeepView for OpenApiResponseObject {
    type V = OpenApiResponseObjectView;

    open spec fn deep_view(&self) -> OpenApiResponseObjectView {
        OpenApiResponseObjectView {
            description: self.description.deep_view(),
            content: self.content.deep_view(),
        }
    }
}

impl Clone for OpenApiResponseObject {
    fn clone(&self) -> (copy: OpenApiResponseObject)
        ensures
            copy.deep_view() == self.deep_view(),
    {
        let copy = OpenApiResponseObject {
            description: self.description.clone(),
            content: self.content.clone(),
        };
        assert(copy.content.deep_view() =~= self.content.deep_view());
        copy
    }
}

/// A response slot: a response written in place, or a reference.
#[derive(Debug, PartialEq, Eq)]
pub enum ResponseEnum {
    OpenApiResponseObject(OpenApiResponseObject),
    OpenApiReferenceObject(OpenApiReferenceObject),
}

/// What a [`ResponseEnum`] holds, as mathematical values.
pub enum ResponseEnumView {
    OpenApiResponseObject(OpenApiResponseObjectView),
    OpenApiReferenceObject(OpenApiReferenceObjectView),
}

impl DeepView for ResponseEnum {
    type V = ResponseEnumView;

    open spec fn deep_view(&self) -> ResponseEnumView {
        match self {
            ResponseEnum::OpenApiResponseObject(inner) => ResponseEnumView::OpenApiResponseObject(inner.deep_view()),
            ResponseEnum::OpenApiReferenceObject(inner) => ResponseEnumView::OpenApiReferenceObject(inner.deep_view()),
        }
    }
}

impl Clone for ResponseEnum {
    fn clone(&self) -> (copy: ResponseEnum)
        ensures
            copy.deep_view() == self.deep_view(),
    {
        match self {
            ResponseEnum::OpenApiResponseObject(inner) => ResponseEnum::OpenApiResponseObject(inner.clone()),
            ResponseEnum::OpenApiReferenceObject(inner) => ResponseEnum::OpenApiReferenceObject(inner.clone()),
        }
    }
}

/// One HTTP operation of a path.
#[derive(Debug, PartialEq, Eq)]
pub struct OpenApiOperation {
    pub summary: Option<String>,
    pub parameters: Option<Vec<OpenApiParameterEnum>>,
    pub request_body: Option<RequestBodyEnum>,
    /// Responses by status code.
    pub responses: OrderedMap<ResponseEnum>,
}

/// What a [`OpenApiOperation`] holds, as mathematical values.
pub struct OpenApiOperationView {
    pub summary: Option<Seq<char>>,
    pub parameters: Option<Seq<OpenApiParameterEnumView>>,
    pub request_body: Option<RequestBodyEnumView>,
    pub responses: Seq<(Seq<char>, ResponseEnumView)>,
}

impl DeepView for OpenApiOperation {
    type V = OpenApiOperationView;

    open spec fn deep_view(&self) -> OpenApiOperationView {
        OpenApiOperationView {
            summary: self.summary.deep_view(),
            parameters: self.parameters.deep_view(),
            request_body: self.request_body.deep_view(),
            responses: self.responses.deep_view(),
        }
    }
}

impl Clone for OpenApiOperation {
    fn clone(&self) -> (copy: OpenApiOperation)
        ensures
            copy.deep_view() == self.deep_view(),
    {
        let copy = OpenApiOperation {
            summary: self.summary.clone(),
            parameters: self.parameters.clone(),
            request_body: self.request_body.clone(),
            responses: self.responses.clone(),
        };
        assert(copy.parameters.deep_view() =~= self.parameters.deep_view());
        assert(copy.responses.deep_view() =~= self.responses.deep_view());
        copy
    }
}

/// The operations of one path, one slot per HTTP method.
#[derive(Debug, PartialEq, Eq)]
pub struct OpenApiPathItemObject {
    pub summary: Option<String>,
    pub get: Option<OpenApiOperation>,
    pub put: Option<OpenApiOperation>,
    pub post: Option<OpenApiOperation>,
    pub delete: Option<OpenApiOperation>,
    pub options: Option<OpenApiOperation>,
    pub head: Option<OpenApiOperation>,
    pub patch: Option<OpenApiOperation>,
    pub trace: Option<OpenApiOperation>,
    pub parameters: Option<Vec<OpenApiParameterEnum>>,
}

/// What a [`OpenApiPathItemObject`] holds, as mathematical values.
pub struct OpenApiPathItemObjectView {
    pub summary: Option<Seq<char>>,
    pub get: Option<OpenApiOperationView>,
    pub put: Option<OpenApiOperationView>,
    pub post: Option<OpenApiOperationView>,
    pub delete: Option<OpenApiOperationView>,
    pub options: Option<OpenApiOperationView>,
    pub head: Option<OpenApiOperationView>,
    pub patch: Option<OpenApiOperationView>,
    pub trace: Option<OpenApiOperationView>,
    pub parameters: Option<Seq<OpenApiParameterEnumView>>,
}

impl DeepView for OpenApiPathItemObject {
    type V = OpenApiPathItemObjectView;

    open spec fn deep_view(&self) -> OpenApiPathItemObjectView {
        OpenApiPathItemObjectView {
            summary: self.summary.deep_view(),
            get: self.get.deep_view(),
            put: self.put.deep_view(),
            post: self.post.deep_view(),
            delete: self.delete.deep_view(),
            options: self.options.deep_view(),
            head: self.head.deep_view(),
            patch: self.patch.deep_view(),
            trace: self.trace.deep_view(),
            parameters: self.parameters.deep_view(),
        }
    }
}

impl Clone for OpenApiPathItemObject {
    fn clone(&self) -> (copy: OpenApiPathItemObject)
        ensures
            copy.deep_view() == self.deep_view(),
    {
        let copy = OpenApiPathItemObject {
            summary: self.summary.clone(),
            get: self.get.clone(),
            put: self.put.clone(),
            post: self.post.clone(),
            delete: self.delete.clone(),
            options: self.options.clone(),
            head: self.head.clone(),
            patch: self.patch.clone(),
            trace: self.trace.clone(),
            parameters: self.parameters.clone(),
        };
        assert(copy.parameters.deep_view() =~= self.parameters.deep_view());
        copy
    }
}

/// A server that offers the paths.
#[derive(Debug, PartialEq, Eq)]
pub struct OpenApiServerObject {
    /// May hold the placeholders `{serverIp}` and `{port}`.
    pub url: String,
    pub description: Option<String>,
}

/// What a [`OpenApiServerObject`] holds, as mathematical values.
pub struct OpenApiServerObjectView {
    pub url: Seq<char>,
    pub description: Option<Seq<char>>,
}

impl DeepView for OpenApiServerObject {
    type V = OpenApiServerObjectView;

    open spec fn deep_view(&self) -> OpenApiServerObjectView {
        OpenApiServerObjectView {
            url: self.url.deep_view(),
            description: self.description.deep_view(),
        }
    }
}

impl Clone for OpenApiServerObject {
    fn clone(&self) -> (copy: OpenApiServerObject)
        ensures
            copy.deep_view() == self.deep_view(),
    {
        OpenApiServerObject {
            url: self.url.clone(),
            description: self.description.clone(),
        }
    }
}

/// Title and version of a description.
#[derive(Debug, PartialEq, Eq)]
pub struct OpenApiInfo {
    pub title: String,
    pub description: Option<String>,
    pub version: String,
}

/// What a [`OpenApiInfo`] holds, as mathematical values.
pub struct OpenApiInfoView {
    pub title: Seq<char>,
    pub description: Option<Seq<char>>,
    pub version: Seq<char>,
}

impl DeepView for OpenApiInfo {
    type V = OpenApiInfoView;

    open spec fn deep_view(&self) -> OpenApiInfoView {
        OpenApiInfoView {
            title: self.title.deep_view(),
            description: self.description.deep_view(),
            version: self.version.deep_view(),
        }
    }
}

impl Clone for OpenApiInfo {
    fn clone(&self) -> (copy: OpenApiInfo)
        ensures
            copy.deep_view() == self.deep_view(),
    {
        OpenApiInfo {
            title: self.title.clone(),
            description: self.description.clone(),
            version: self.version.clone(),
        }
    }
}

/// Description of the functions of one module.
#[derive(Debug, PartialEq, Eq)]
pub struct OpenApiDocument {
    pub info: OpenApiInfo,
    pub servers: Option<Vec<OpenApiServerObject>>,
    /// Path items by path template.
    pub paths: OrderedMap<OpenApiPathItemObject>,
}

/// What a [`OpenApiDocument`] holds, as mathematical values.
pub struct OpenApiDocumentView {
    pub info: OpenApiInfoView,
    pub servers: Option<Seq<OpenApiServerObjectView>>,
    pub paths: Seq<(Seq<char>, OpenApiPathItemObjectView)>,
}

impl DeepView for OpenApiDocument {
    type V = OpenApiDocumentView;

    open spec fn deep_view(&self) -> OpenApiDocumentView {
        OpenApiDocumentView {
            info: self.info.deep_view(),
            servers: self.servers.deep_view(),
            paths: self.paths.deep_view(),
        }
    }
}

impl Clone for OpenApiDocument {
    fn clone(&self) -> (copy: OpenApiDocument)
        ensures
            copy.deep_view() == self.deep_view(),
    {
        let copy = OpenApiDocument {
            info: self.info.clone(),
            servers: self.servers.clone(),
            paths: self.paths.clone(),
        };
        assert(copy.servers.deep_view() =~= self.servers.deep_view());
        assert(copy.paths.deep_view() =~= self.paths.deep_view());
        copy
    }
}

} // verus!
