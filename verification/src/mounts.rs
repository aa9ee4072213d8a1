//! The files that a function call mounts, read from the function's endpoint
//! and from the mounts that its module declares, and sorted by stage.

use vstd::prelude::*;
use crate::deployment::{
    Endpoint, EndpointView, MountPathFile, MountPathFileView, MultipartMediaType,
    MultipartMediaTypeView, RequestBody, RequestBodyView, SchemaObject, SchemaObjectView,
    SchemaProperty, SchemaPropertyView, StageMounts, StageMountsView,
};
use crate::module::{ModuleDoc, ModuleMount, MountStage};
use crate::openapi::{
    OpenApiEncodingObjectView, OpenApiFormat, OpenApiParameterIn, OpenApiParameterObjectView,
    OpenApiPropertyEnum, OpenApiPropertyEnumView, OpenApiSchemaObject, OpenApiSchemaObjectView,
};
use crate::ordered_map::{model_at, model_has, OrderedMap};
use crate::results::agrees;
use crate::text::str_eq;

verus! {

/// Why the mounts of a function cannot be determined.
#[derive(Clone, Copy, Debug, PartialEq, Eq, Structural)]
pub enum MountError {
    /// The request body is not `multipart/form-data`.
    NotMultipart,
    /// A multipart request body has no schema.
    SchemaMissing,
    /// The schema of a multipart request body is not an object schema.
    SchemaNotObject,
    /// The schema of a multipart request body has no properties field.
    PropertiesMissing,
    /// A property of a multipart schema is a reference.
    PropertyReference,
    /// A multipart request body has no encoding.
    EncodingMissing,
    /// The schema of a multipart request body has an empty set of properties.
    PropertiesEmpty,
    /// A file of the request body has no declared mount, neither for the
    /// function nor for the initialization function.
    MountMetadataMissing,
    /// A file of the request body has a media type that is not supported.
    UnsupportedFileType,
    /// The response is `multipart/form-data`, which carries no encoding.
    MultipartResponse,
    /// The response is a file and the module declares no mounts for the function.
    FunctionMountsMissing,
    /// The response is a file and the function declares no output mount.
    OutputMountMissing,
}

/// Name of the function that initializes a module. Files that it mounts are
/// present before any other function runs.
pub open spec fn init_function() -> Seq<char> {
    "_wasmiot_init"@
}

pub open spec fn multipart_form_data() -> Seq<char> {
    "multipart/form-data"@
}

pub open spec fn octet_stream() -> Seq<char> {
    "application/octet-stream"@
}

/// The media types of files that a deployment may carry.
pub fn supported_file_types() -> (types: Vec<&'static str>)
    ensures
        types.deep_view() == seq![octet_stream(), "image/jpeg"@, "image/png"@],
{
    let mut types: Vec<&'static str> = Vec::new();
    types.push("application/octet-stream");
    types.push("image/jpeg");
    types.push("image/png");
    assert(types.deep_view() =~= seq![octet_stream(), "image/jpeg"@, "image/png"@]);
    types
}

/// Whether `media_type` is one of `supported`.
pub fn is_supported(supported: &[&str], media_type: &str) -> (found: bool)
    ensures
        found == supported.deep_view().contains(media_type@),
{
    let mut i: usize = 0;
    while i < supported.len()
        invariant
            i <= supported@.len(),
            forall|j: int| 0 <= j < i ==> supported.deep_view()[j] != media_type@,
        decreases supported@.len() - i,
    {
        if str_eq(supported[i], media_type) {
            assert(supported.deep_view()[i as int] == media_type@);
            return true;
        }
        i += 1;
    }
    false
}

/// A property of an object schema, reduced to its type and to whether it is binary.
pub open spec fn simple_property(property: OpenApiPropertyEnumView) -> SchemaPropertyView {
    match property {
        OpenApiPropertyEnumView::OpenApiPropertyObject(object) => SchemaPropertyView {
            ty: match object.ty {
                Some(ty) => ty,
                None => Seq::empty(),
            },
            format: if object.format == Some(OpenApiFormat::Binary) {
                Some("binary"@)
            } else {
                None
            },
        },
        OpenApiPropertyEnumView::OpenApiReferenceObject(_) => SchemaPropertyView {
            ty: Seq::empty(),
            format: None,
        },
    }
}

/// The object schema of a multipart body, property by property. A schema of
/// another type, one without properties or one with a reference among its
/// properties has none.
pub open spec fn simple_schema(root: OpenApiSchemaObjectView) -> Result<
    SchemaObjectView,
    MountError,
> {
    if root.ty != Some("object"@) {
        Err(MountError::SchemaNotObject)
    } else {
        match root.properties {
            None => Err(MountError::PropertiesMissing),
            Some(properties) => if exists|i: int|
                0 <= i < properties.len()
                    && #[trigger] properties[i].1 is OpenApiReferenceObject {
                Err(MountError::PropertyReference)
            } else {
                Ok(
                    SchemaObjectView {
                        ty: "object"@,
                        properties: Seq::new(
                            properties.len(),
                            |i: int| (properties[i].0, simple_property(properties[i].1)),
                        ),
                    },
                )
            },
        }
    }
}

/// Reduces the schema of a multipart body to its properties' types and formats.
pub fn openapi_object_to_simple_schema(root: &OpenApiSchemaObject) -> (out: Result<
    SchemaObject,
    MountError,
>)
    ensures
        agrees(out, simple_schema(root.deep_view())),
{
    let is_object = match &root.ty {
        Some(ty) => str_eq(ty.as_str(), "object"),
        None => false,
    };
    if !is_object {
        return Err(MountError::SchemaNotObject);
    }
    let properties = match &root.properties {
        Some(properties) => properties,
        None => {
            return Err(MountError::PropertiesMissing);
        },
    };
    let ghost model = properties.deep_view();
    let mut entries: Vec<(String, SchemaProperty)> = Vec::new();
    let mut i: usize = 0;
    while i < properties.entries.len()
        invariant
            i <= properties.entries@.len(),
            model == properties.deep_view(),
            model.len() == properties.entries@.len(),
            root.deep_view().ty == Some("object"@),
            root.deep_view().properties == Some(model),
            forall|j: int| 0 <= j < i ==> !(#[trigger] model[j].1 is OpenApiReferenceObject),
            entries.deep_view() =~= Seq::new(
                i as nat,
                |j: int| (model[j].0, simple_property(model[j].1)),
            ),
        decreases properties.entries@.len() - i,
    {
        let name = properties.entries[i].0.clone();
        let ghost before = entries.deep_view();
        assert(model[i as int] == (name@, properties.entries@[i as int].1.deep_view()));
        match &properties.entries[i].1 {
            OpenApiPropertyEnum::OpenApiPropertyObject(object) => {
                let ty = match &object.ty {
                    Some(ty) => ty.clone(),
                    None => String::new(),
                };
                let format = match object.format {
                    Some(OpenApiFormat::Binary) => Some("binary".to_string()),
                    _ => None,
                };
                entries.push((name, SchemaProperty { ty, format }));
                assert(entries.deep_view() =~= before.push(
                    (model[i as int].0, simple_property(model[i as int].1)),
                ));
            },
            OpenApiPropertyEnum::OpenApiReferenceObject(_) => {
                assert(model[i as int].1 is OpenApiReferenceObject);
                return Err(MountError::PropertyReference);
            },
        }
        i += 1;
    }
    let out = SchemaObject { ty: "object".to_string(), properties: OrderedMap { entries } };
    assert(out.deep_view().properties =~= simple_schema(root.deep_view())->Ok_0.properties);
    Ok(out)
}

/// A multipart request body with its reduced schema and its encodings.
pub open spec fn multipart_of(body: RequestBodyView) -> Result<MultipartMediaTypeView, MountError> {
    if body.media_type != multipart_form_data() {
        Err(MountError::NotMultipart)
    } else {
        match body.schema {
            None => Err(MountError::SchemaMissing),
            Some(schema) => match simple_schema(schema) {
                Err(error) => Err(error),
                Ok(simple) => match body.encoding {
                    None => Err(MountError::EncodingMissing),
                    Some(encoding) => Ok(
                        MultipartMediaTypeView {
                            media_type: body.media_type,
                            schema: simple,
                            encoding,
                        },
                    ),
                },
            },
        }
    }
}

/// Reads a request body as `multipart/form-data`.
pub fn request_body_to_multipart(body: &RequestBody) -> (out: Result<
    MultipartMediaType,
    MountError,
>)
    ensures
        agrees(out, multipart_of(body.deep_view())),
{
    if !str_eq(body.media_type.as_str(), "multipart/form-data") {
        return Err(MountError::NotMultipart);
    }
    let schema = match &body.schema {
        Some(schema) => schema,
        None => {
            return Err(MountError::SchemaMissing);
        },
    };
    let simple = match openapi_object_to_simple_schema(schema) {
        Ok(simple) => simple,
        Err(error) => {
            return Err(error);
        },
    };
    let encoding = match &body.encoding {
        Some(encoding) => encoding.clone(),
        None => {
            return Err(MountError::EncodingMissing);
        },
    };
    assert(encoding.deep_view() =~= body.encoding.unwrap().deep_view());
    Ok(MultipartMediaType { media_type: body.media_type.clone(), schema: simple, encoding })
}

/// Whether a property of a multipart schema is a file.
pub open spec fn is_binary(property: SchemaPropertyView) -> bool {
    property.ty == "string"@ && property.format == Some("binary"@)
}

/// The file that a property of a multipart schema stands for: a binary
/// property whose encoding gives a content type. Its stage is not yet known.
pub open spec fn file_of(
    name: Seq<char>,
    property: SchemaPropertyView,
    encoding: Seq<(Seq<char>, OpenApiEncodingObjectView)>,
) -> Option<MountPathFileView> {
    if is_binary(property) && model_has(encoding, name) {
        match model_at(encoding, name).content_type {
            Some(content_type) => Some(
                MountPathFileView { path: name, media_type: content_type, stage: None },
            ),
            None => None,
        }
    } else {
        None
    }
}

/// The files of the first `n` properties, in the properties' order.
pub open spec fn files_of(
    properties: Seq<(Seq<char>, SchemaPropertyView)>,
    encoding: Seq<(Seq<char>, OpenApiEncodingObjectView)>,
    n: nat,
) -> Seq<MountPathFileView>
    decreases n,
{
    if n == 0 || n > properties.len() {
        Seq::empty()
    } else {
        let before = files_of(properties, encoding, (n - 1) as nat);
        match file_of(properties[n - 1].0, properties[n - 1].1, encoding) {
            Some(file) => before.push(file),
            None => before,
        }
    }
}

/// The files that a multipart body carries.
pub open spec fn listed(body: MultipartMediaTypeView) -> Result<Seq<MountPathFileView>, MountError> {
    if body.media_type != multipart_form_data() {
        Err(MountError::NotMultipart)
    } else if body.schema.ty != "object"@ {
        Err(MountError::SchemaNotObject)
    } else if body.schema.properties.len() == 0 {
        Err(MountError::PropertiesEmpty)
    } else {
        Ok(files_of(body.schema.properties, body.encoding, body.schema.properties.len()))
    }
}

impl MountPathFile {
    /// Lists the files of a multipart body: one for each binary property whose
    /// encoding names a content type, in the order of the properties.
    pub fn list_from_multipart(body: &MultipartMediaType) -> (out: Result<
        Vec<MountPathFile>,
        MountError,
    >)
        ensures
            agrees(out, listed(body.deep_view())),
    {
        if !str_eq(body.media_type.as_str(), "multipart/form-data") {
            return Err(MountError::NotMultipart);
        }
        if !str_eq(body.schema.ty.as_str(), "object") {
            return Err(MountError::SchemaNotObject);
        }
        let properties = &body.schema.properties;
        if properties.is_empty() {
            return Err(MountError::PropertiesEmpty);
        }
        let ghost model = properties.deep_view();
        let ghost encoding = body.encoding.deep_view();
        let mut mounts: Vec<MountPathFile> = Vec::new();
        let mut i: usize = 0;
        while i < properties.entries.len()
            invariant
                i <= properties.entries@.len(),
                model == properties.deep_view(),
                model.len() == properties.entries@.len(),
                encoding == body.encoding.deep_view(),
                mounts.deep_view() =~= files_of(model, encoding, i as nat),
            decreases properties.entries@.len() - i,
        {
            let name = &properties.entries[i].0;
            let property = &properties.entries[i].1;
            let binary = str_eq(property.ty.as_str(), "string") && match &property.format {
                Some(format) => str_eq(format.as_str(), "binary"),
                None => false,
            };
            proof {
                crate::ordered_map::lemma_model_of_map(body.encoding);
                assert(model[i as int] == (name@, property.deep_view()));
            }
            if binary {
                if let Some(found) = body.encoding.get(name.as_str()) {
                    if let Some(content_type) = &found.content_type {
                        mounts.push(
                            MountPathFile {
                                path: name.clone(),
                                media_type: content_type.clone(),
                                stage: None,
                            },
                        );
                    }
                }
            }
            i += 1;
        }
        Ok(mounts)
    }
}

/// The stage that a module declares for the file `path` of `func`: the one
/// declared for the function, else the one declared for the initialization
/// function, whose files are in place before any call.
pub open spec fn declared_stage(
    declared: OrderedMap<OrderedMap<ModuleMount>>,
    func: Seq<char>,
    path: Seq<char>,
) -> Option<MountStage> {
    if declared.has(func) && declared.at(func).has(path) {
        Some(declared.at(func).at(path).stage)
    } else if declared.has(init_function()) && declared.at(init_function()).has(path) {
        Some(declared.at(init_function()).at(path).stage)
    } else {
        None
    }
}

/// Looks up the declared stage of a file of a function.
pub fn declared_stage_of(
    declared: &OrderedMap<OrderedMap<ModuleMount>>,
    func: &str,
    path: &str,
) -> (stage: Option<MountStage>)
    ensures
        stage == declared_stage(*declared, func@, path@),
{
    if let Some(of_function) = declared.get(func) {
        if let Some(mount) = of_function.get(path) {
            return Some(mount.stage);
        }
    }
    if let Some(of_init) = declared.get("_wasmiot_init") {
        if let Some(mount) = of_init.get(path) {
            return Some(mount.stage);
        }
    }
    None
}

/// `files`, each with the stage that the module declares for it.
pub open spec fn resolved(
    files: Seq<MountPathFileView>,
    declared: OrderedMap<OrderedMap<ModuleMount>>,
    func: Seq<char>,
) -> Seq<MountPathFileView> {
    Seq::new(
        files.len(),
        |i: int|
            MountPathFileView {
                path: files[i].path,
                media_type: files[i].media_type,
                stage: declared_stage(declared, func, files[i].path),
            },
    )
}

/// The files of a request body with their stages. A body that is absent or
/// not multipart carries none.
pub open spec fn body_mounts(
    declared: OrderedMap<OrderedMap<ModuleMount>>,
    func: Seq<char>,
    body: Option<RequestBodyView>,
    supported: Seq<Seq<char>>,
) -> Result<Seq<MountPathFileView>, MountError> {
    match body {
        None => Ok(Seq::empty()),
        Some(body) => if body.media_type != multipart_form_data() {
            Ok(Seq::empty())
        } else {
            match multipart_of(body) {
                Err(error) => Err(error),
                Ok(multipart) => match listed(multipart) {
                    Err(error) => Err(error),
                    Ok(files) => if exists|i: int|
                        0 <= i < files.len() && declared_stage(
                            declared,
                            func,
                            #[trigger] files[i].path,
                        ) is None {
                        Err(MountError::MountMetadataMissing)
                    } else if exists|i: int|
                        0 <= i < files.len() && !supported.contains(#[trigger] files[i].media_type) {
                        Err(MountError::UnsupportedFileType)
                    } else {
                        Ok(resolved(files, declared, func))
                    },
                },
            }
        },
    }
}

/// The file that a parameter stands for: one that travels in the request
/// body under a name is a file needed at execution.
pub open spec fn parameter_file(parameter: OpenApiParameterObjectView) -> Option<MountPathFileView> {
    if parameter.location == OpenApiParameterIn::RequestBody && parameter.name.len() > 0 {
        Some(
            MountPathFileView {
                path: parameter.name,
                media_type: octet_stream(),
                stage: Some(MountStage::Execution),
            },
        )
    } else {
        None
    }
}

/// The files of the first `n` parameters, in the parameters' order.
pub open spec fn parameter_mounts(parameters: Seq<OpenApiParameterObjectView>, n: nat) -> Seq<
    MountPathFileView,
>
    decreases n,
{
    if n == 0 || n > parameters.len() {
        Seq::empty()
    } else {
        let before = parameter_mounts(parameters, (n - 1) as nat);
        match parameter_file(parameters[n - 1]) {
            Some(file) => before.push(file),
            None => before,
        }
    }
}

/// The path of the first output mount among the first `n` mounts of a function.
pub open spec fn output_path(mounts: OrderedMap<ModuleMount>, n: nat) -> Option<Seq<char>>
    decreases n,
{
    if n == 0 || n > mounts.entries@.len() {
        None
    } else {
        match output_path(mounts, (n - 1) as nat) {
            Some(path) => Some(path),
            None => if mounts.entries@[n - 1].1.stage == MountStage::Output {
                Some(mounts.entries@[n - 1].0@)
            } else {
                None
            },
        }
    }
}

/// An output mount, once found, stays the first.
pub proof fn lemma_output_path_stable(mounts: OrderedMap<ModuleMount>, found: nat, n: nat)
    requires
        output_path(mounts, found) is Some,
        found <= n <= mounts.entries@.len(),
    ensures
        output_path(mounts, n) == output_path(mounts, found),
    decreases n,
{
    if n > found {
        lemma_output_path_stable(mounts, found, (n - 1) as nat);
    }
}

/// The file that a response stands for. A response whose media type is a
/// supported file type is written to the first output mount that the function
/// declares; any other response is no file.
pub open spec fn response_mounts(
    declared: OrderedMap<OrderedMap<ModuleMount>>,
    func: Seq<char>,
    media_type: Seq<char>,
    supported: Seq<Seq<char>>,
) -> Result<Seq<MountPathFileView>, MountError> {
    if media_type == multipart_form_data() {
        Err(MountError::MultipartResponse)
    } else if !supported.contains(media_type) {
        Ok(Seq::empty())
    } else if !declared.has(func) {
        Err(MountError::FunctionMountsMissing)
    } else {
        match output_path(declared.at(func), declared.at(func).entries@.len()) {
            None => Err(MountError::OutputMountMissing),
            Some(path) => Ok(
                seq![MountPathFileView { path, media_type, stage: Some(MountStage::Output) }],
            ),
        }
    }
}

/// The files of `all` that are needed at `stage`, in their order.
pub open spec fn staged(all: Seq<MountPathFileView>, stage: MountStage) -> Seq<MountPathFileView>
    decreases all.len(),
{
    if all.len() == 0 {
        Seq::empty()
    } else if all.last().stage == Some(stage) {
        staged(all.drop_last(), stage).push(all.last())
    } else {
        staged(all.drop_last(), stage)
    }
}

/// The mounts of the function `func` behind `endpoint`: the files of its
/// parameters, then those of its request body, then that of its response,
/// sorted by stage.
pub open spec fn mounts_of(
    declared: OrderedMap<OrderedMap<ModuleMount>>,
    func: Seq<char>,
    endpoint: EndpointView,
    supported: Seq<Seq<char>>,
) -> Result<StageMountsView, MountError> {
    match body_mounts(declared, func, endpoint.request.request_body, supported) {
        Err(error) => Err(error),
        Ok(of_body) => match response_mounts(
            declared,
            func,
            endpoint.response.media_type,
            supported,
        ) {
            Err(error) => Err(error),
            Ok(of_response) => {
                let all = parameter_mounts(
                    endpoint.request.parameters,
                    endpoint.request.parameters.len(),
                ) + of_body + of_response;
                Ok(
                    StageMountsView {
                        execution: staged(all, MountStage::Execution),
                        deployment: staged(all, MountStage::Deployment),
                        output: staged(all, MountStage::Output),
                    },
                )
            },
        }
    }
}

/// Every file of a function's mounts has a stage: none is left out of the three lists.
pub proof fn lemma_every_mount_staged(
    declared: OrderedMap<OrderedMap<ModuleMount>>,
    func: Seq<char>,
    endpoint: EndpointView,
    supported: Seq<Seq<char>>,
)
    requires
        mounts_of(declared, func, endpoint, supported) is Ok,
    ensures
        ({
            let all = parameter_mounts(
                endpoint.request.parameters,
                endpoint.request.parameters.len(),
            ) + body_mounts(declared, func, endpoint.request.request_body, supported)->Ok_0
                + response_mounts(declared, func, endpoint.response.media_type, supported)->Ok_0;
            forall|i: int| 0 <= i < all.len() ==> (#[trigger] all[i]).stage is Some
        }),
{
    let parameters = endpoint.request.parameters;
    lemma_parameter_mounts_staged(parameters, parameters.len());
}

proof fn lemma_parameter_mounts_staged(parameters: Seq<OpenApiParameterObjectView>, n: nat)
    ensures
        forall|i: int|
            0 <= i < parameter_mounts(parameters, n).len() ==> (#[trigger] parameter_mounts(
                parameters,
                n,
            )[i]).stage == Some(MountStage::Execution),
    decreases n,
{
    if n > 0 && n <= parameters.len() {
        lemma_parameter_mounts_staged(parameters, (n - 1) as nat);
    }
}

/// Puts a file into the list of its stage.
fn place(
    mount: MountPathFile,
    execution: &mut Vec<MountPathFile>,
    deployment: &mut Vec<MountPathFile>,
    output: &mut Vec<MountPathFile>,
    Ghost(seen): Ghost<Seq<MountPathFileView>>,
)
    requires
        mount.stage is Some,
        old(execution).deep_view() == staged(seen, MountStage::Execution),
        old(deployment).deep_view() == staged(seen, MountStage::Deployment),
        old(output).deep_view() == staged(seen, MountStage::Output),
    ensures
        final(execution).deep_view() == staged(seen.push(mount.deep_view()), MountStage::Execution),
        final(deployment).deep_view() == staged(
            seen.push(mount.deep_view()),
            MountStage::Deployment,
        ),
        final(output).deep_view() == staged(seen.push(mount.deep_view()), MountStage::Output),
{
    let ghost view = mount.deep_view();
    let ghost e0 = execution.deep_view();
    let ghost d0 = deployment.deep_view();
    let ghost o0 = output.deep_view();
    assert(seen.push(view).drop_last() =~= seen);
    match mount.stage {
        Some(MountStage::Execution) => {
            execution.push(mount);
            assert(execution.deep_view() =~= e0.push(view));
        },
        Some(MountStage::Deployment) => {
            deployment.push(mount);
            assert(deployment.deep_view() =~= d0.push(view));
        },
        Some(MountStage::Output) => {
            output.push(mount);
            assert(output.deep_view() =~= o0.push(view));
        },
        None => {},
    }
}

/// The files that a request body carries, each with its declared stage.
#[verifier::loop_isolation(false)]
fn body_files(
    module: &ModuleDoc,
    func: &str,
    body: &Option<RequestBody>,
    supported_file_types: &[&str],
) -> (out: Result<Vec<MountPathFile>, MountError>)
    ensures
        agrees(
            out,
            body_mounts(module.mounts, func@, body.deep_view(), supported_file_types.deep_view()),
        ),
{
    let mut files: Vec<MountPathFile> = Vec::new();
    let body = match body {
        Some(body) => body,
        None => {
            assert(files.deep_view() =~= Seq::empty());
            return Ok(files);
        },
    };
    if !str_eq(body.media_type.as_str(), "multipart/form-data") {
        assert(files.deep_view() =~= Seq::empty());
        return Ok(files);
    }
    let multipart = match request_body_to_multipart(body) {
        Ok(multipart) => multipart,
        Err(error) => {
            return Err(error);
        },
    };
    let found = match MountPathFile::list_from_multipart(&multipart) {
        Ok(found) => found,
        Err(error) => {
            return Err(error);
        },
    };
    let ghost listed_files = found.deep_view();
    let ghost supported = supported_file_types.deep_view();
    let mut i: usize = 0;
    while i < found.len()
        invariant
            i <= found@.len(),
            listed_files == found.deep_view(),
            forall|j: int|
                0 <= j < i ==> declared_stage(
                    module.mounts,
                    func@,
                    #[trigger] listed_files[j].path,
                ) is Some,
            files.deep_view() =~= resolved(listed_files, module.mounts, func@).take(i as int),
        decreases found@.len() - i,
    {
        let stage = match declared_stage_of(&module.mounts, func, found[i].path.as_str()) {
            Some(stage) => stage,
            None => {
                assert(listed_files[i as int].path == found@[i as int].path@);
                return Err(MountError::MountMetadataMissing);
            },
        };
        let ghost before = files.deep_view();
        files.push(
            MountPathFile {
                path: found[i].path.clone(),
                media_type: found[i].media_type.clone(),
                stage: Some(stage),
            },
        );
        assert(files.deep_view() =~= before.push(
            resolved(listed_files, module.mounts, func@)[i as int],
        ));
        i += 1;
    }
    assert(files.deep_view() =~= resolved(listed_files, module.mounts, func@));
    let mut k: usize = 0;
    while k < files.len()
        invariant
            k <= files@.len(),
            supported == supported_file_types.deep_view(),
            files.deep_view() == resolved(listed_files, module.mounts, func@),
            forall|j: int| 0 <= j < k ==> supported.contains(#[trigger] listed_files[j].media_type),
        decreases files@.len() - k,
    {
        if !is_supported(supported_file_types, files[k].media_type.as_str()) {
            assert(files.deep_view()[k as int].media_type == listed_files[k as int].media_type);
            return Err(MountError::UnsupportedFileType);
        }
        assert(files.deep_view()[k as int].media_type == listed_files[k as int].media_type);
        k += 1;
    }
    Ok(files)
}

/// The file that the response of a function is written to, if it is one.
#[verifier::loop_isolation(false)]
fn response_files(
    module: &ModuleDoc,
    func: &str,
    media_type: &String,
    supported_file_types: &[&str],
) -> (out: Result<Vec<MountPathFile>, MountError>)
    ensures
        agrees(
            out,
            response_mounts(module.mounts, func@, media_type@, supported_file_types.deep_view()),
        ),
{
    let mut files: Vec<MountPathFile> = Vec::new();
    if str_eq(media_type.as_str(), "multipart/form-data") {
        return Err(MountError::MultipartResponse);
    }
    if !is_supported(supported_file_types, media_type.as_str()) {
        assert(files.deep_view() =~= Seq::empty());
        return Ok(files);
    }
    let of_function = match module.mounts.get(func) {
        Some(of_function) => of_function,
        None => {
            return Err(MountError::FunctionMountsMissing);
        },
    };
    let mut i: usize = 0;
    while i < of_function.entries.len()
        invariant
            i <= of_function.entries@.len(),
            files@.len() == 0,
            output_path(*of_function, i as nat) is None,
        decreases of_function.entries@.len() - i,
    {
        if of_function.entries[i].1.stage == MountStage::Output {
            proof {
                lemma_output_path_stable(
                    *of_function,
                    (i + 1) as nat,
                    of_function.entries@.len(),
                );
            }
            files.push(
                MountPathFile {
                    path: of_function.entries[i].0.clone(),
                    media_type: media_type.clone(),
                    stage: Some(MountStage::Output),
                },
            );
            assert(files.deep_view() =~= seq![
                MountPathFileView {
                    path: of_function.entries@[i as int].0@,
                    media_type: media_type@,
                    stage: Some(MountStage::Output),
                },
            ]);
            return Ok(files);
        }
        i += 1;
    }
    Err(MountError::OutputMountMissing)
}

/// Determines the mounts of `func`, a function of `module` that is called
/// through `endpoint`, and sorts them by stage.
pub fn mounts_for(
    module: &ModuleDoc,
    func: &str,
    endpoint: &Endpoint,
    supported_file_types: &[&str],
) -> (out: Result<StageMounts, MountError>)
    ensures
        agrees(
            out,
            mounts_of(
                module.mounts,
                func@,
                endpoint.deep_view(),
                supported_file_types.deep_view(),
            ),
        ),
{
    let of_body = match body_files(
        module,
        func,
        &endpoint.request.request_body,
        supported_file_types,
    ) {
        Ok(files) => files,
        Err(error) => {
            return Err(error);
        },
    };
    let of_response = match response_files(
        module,
        func,
        &endpoint.response.media_type,
        supported_file_types,
    ) {
        Ok(files) => files,
        Err(error) => {
            return Err(error);
        },
    };
    let parameters = &endpoint.request.parameters;
    let ghost model = parameters.deep_view();
    let ghost declared = module.mounts;
    let ghost supported = supported_file_types.deep_view();
    proof {
        lemma_every_mount_staged(declared, func@, endpoint.deep_view(), supported);
    }
    let mut execution: Vec<MountPathFile> = Vec::new();
    let mut deployment: Vec<MountPathFile> = Vec::new();
    let mut output: Vec<MountPathFile> = Vec::new();
    let ghost mut seen: Seq<MountPathFileView> = Seq::empty();
    assert(execution.deep_view() =~= staged(seen, MountStage::Execution));
    assert(deployment.deep_view() =~= staged(seen, MountStage::Deployment));
    assert(output.deep_view() =~= staged(seen, MountStage::Output));

    let mut i: usize = 0;
    while i < parameters.len()
        invariant
            i <= parameters@.len(),
            model == parameters.deep_view(),
            seen == parameter_mounts(model, i as nat),
            execution.deep_view() == staged(seen, MountStage::Execution),
            deployment.deep_view() == staged(seen, MountStage::Deployment),
            output.deep_view() == staged(seen, MountStage::Output),
        decreases parameters@.len() - i,
    {
        let parameter = &parameters[i];
        assert(model[i as int] == parameter.deep_view());
        if parameter.location == OpenApiParameterIn::RequestBody && !parameter.name.as_str().is_empty() {
            let mount = MountPathFile {
                path: parameter.name.clone(),
                media_type: "application/octet-stream".to_string(),
                stage: Some(MountStage::Execution),
            };
            place(mount, &mut execution, &mut deployment, &mut output, Ghost(seen));
            proof {
                seen = seen.push(mount.deep_view());
            }
        }
        i += 1;
    }
    let ghost of_parameters = seen;
    let ghost body_model = of_body.deep_view();
    let mut j: usize = 0;
    while j < of_body.len()
        invariant
            j <= of_body@.len(),
            body_model == of_body.deep_view(),
            forall|k: int| 0 <= k < body_model.len() ==> (#[trigger] body_model[k]).stage is Some,
            seen =~= of_parameters + body_model.take(j as int),
            execution.deep_view() == staged(seen, MountStage::Execution),
            deployment.deep_view() == staged(seen, MountStage::Deployment),
            output.deep_view() == staged(seen, MountStage::Output),
        decreases of_body@.len() - j,
    {
        let mount = of_body[j].clone();
        assert(mount.deep_view() == body_model[j as int]);
        place(mount, &mut execution, &mut deployment, &mut output, Ghost(seen));
        proof {
            seen = seen.push(mount.deep_view());
            assert(body_model.take(j + 1) =~= body_model.take(j as int).push(body_model[j as int]));
        }
        j += 1;
    }
    assert(body_model.take(of_body@.len() as int) =~= body_model);
    let ghost response_model = of_response.deep_view();
    let mut k: usize = 0;
    while k < of_response.len()
        invariant
            k <= of_response@.len(),
            response_model == of_response.deep_view(),
            forall|n: int|
                0 <= n < response_model.len() ==> (#[trigger] response_model[n]).stage is Some,
            seen =~= of_parameters + body_model + response_model.take(k as int),
            execution.deep_view() == staged(seen, MountStage::Execution),
            deployment.deep_view() == staged(seen, MountStage::Deployment),
            output.deep_view() == staged(seen, MountStage::Output),
        decreases of_response@.len() - k,
    {
        let mount = of_response[k].clone();
        assert(mount.deep_view() == response_model[k as int]);
        place(mount, &mut execution, &mut deployment, &mut output, Ghost(seen));
        proof {
            seen = seen.push(mount.deep_view());
            assert(response_model.take(k + 1) =~= response_model.take(k as int).push(
                response_model[k as int],
            ));
        }
        k += 1;
    }
    assert(response_model.take(of_response@.len() as int) =~= response_model);
    Ok(StageMounts { execution, deployment, output })
}

/// A file of a multipart request body for which the module declares no
/// mount, neither for the function nor for the initialization function,
/// fails the build.
pub proof fn lemma_undeclared_file_fails(
    declared: OrderedMap<OrderedMap<ModuleMount>>,
    func: Seq<char>,
    endpoint: EndpointView,
    supported: Seq<Seq<char>>,
    i: int,
)
    requires
        endpoint.request.request_body is Some,
        endpoint.request.request_body->Some_0.media_type == multipart_form_data(),
        multipart_of(endpoint.request.request_body->Some_0) is Ok,
        listed(multipart_of(endpoint.request.request_body->Some_0)->Ok_0) is Ok,
        0 <= i < listed(multipart_of(endpoint.request.request_body->Some_0)->Ok_0)->Ok_0.len(),
        ({
            let path = listed(
                multipart_of(endpoint.request.request_body->Some_0)->Ok_0,
            )->Ok_0[i].path;
            &&& !(declared.has(func) && declared.at(func).has(path))
            &&& !(declared.has(init_function()) && declared.at(init_function()).has(path))
        }),
    ensures
        mounts_of(declared, func, endpoint, supported) == Err::<StageMountsView, MountError>(
            MountError::MountMetadataMissing,
        ),
{
    let files = listed(multipart_of(endpoint.request.request_body->Some_0)->Ok_0)->Ok_0;
    assert(declared_stage(declared, func, files[i].path) is None);
}

/// A file that only the initialization function declares has the stage
/// declared there, so that it fails no build.
pub proof fn lemma_init_mount_is_declared(
    declared: OrderedMap<OrderedMap<ModuleMount>>,
    func: Seq<char>,
    path: Seq<char>,
)
    requires
        !(declared.has(func) && declared.at(func).has(path)),
        declared.has(init_function()),
        declared.at(init_function()).has(path),
    ensures
        declared_stage(declared, func, path) == Some(
            declared.at(init_function()).at(path).stage,
        ),
{
}

/// Every binary property of a multipart body whose encoding names a content
/// type is among the files of the body.
pub proof fn lemma_binary_property_is_listed(
    properties: Seq<(Seq<char>, SchemaPropertyView)>,
    encoding: Seq<(Seq<char>, OpenApiEncodingObjectView)>,
    n: nat,
    k: int,
)
    requires
        0 <= k < n <= properties.len(),
        file_of(properties[k].0, properties[k].1, encoding) is Some,
    ensures
        files_of(properties, encoding, n).contains(
            file_of(properties[k].0, properties[k].1, encoding)->Some_0,
        ),
    decreases n,
{
    let file = file_of(properties[k].0, properties[k].1, encoding)->Some_0;
    let before = files_of(properties, encoding, (n - 1) as nat);
    if k == n - 1 {
        assert(before.push(file)[before.len() as int] == file);
    } else {
        lemma_binary_property_is_listed(properties, encoding, (n - 1) as nat, k);
        let at = choose|j: int| 0 <= j < before.len() && before[j] == file;
        assert(files_of(properties, encoding, n)[at] == file);
    }
}

/// Files that all have a stage are shared out among the three stages: each
/// list holds files of its stage only, and together they hold as many files
/// as there are.
pub proof fn lemma_stages_partition(all: Seq<MountPathFileView>)
    requires
        forall|i: int| 0 <= i < all.len() ==> (#[trigger] all[i]).stage is Some,
    ensures
        staged(all, MountStage::Execution).len() + staged(all, MountStage::Deployment).len()
            + staged(all, MountStage::Output).len() == all.len(),
        forall|i: int|
            0 <= i < staged(all, MountStage::Execution).len() ==> (#[trigger] staged(
                all,
                MountStage::Execution,
            )[i]).stage == Some(MountStage::Execution),
        forall|i: int|
            0 <= i < staged(all, MountStage::Deployment).len() ==> (#[trigger] staged(
                all,
                MountStage::Deployment,
            )[i]).stage == Some(MountStage::Deployment),
        forall|i: int|
            0 <= i < staged(all, MountStage::Output).len() ==> (#[trigger] staged(
                all,
                MountStage::Output,
            )[i]).stage == Some(MountStage::Output),
    decreases all.len(),
{
    if all.len() > 0 {
        let init = all.drop_last();
        assert forall|i: int| 0 <= i < init.len() implies (#[trigger] init[i]).stage is Some by {
            assert(init[i] == all[i]);
        }
        lemma_stages_partition(init);
        let last = all[all.len() - 1];
        assert(last.stage is Some && all.last() == last);
        assert(all.len() == init.len() + 1);
        match last.stage {
            Some(MountStage::Execution) => {},
            Some(MountStage::Deployment) => {},
            Some(MountStage::Output) => {},
            None => {},
        }
    } else {
        assert(staged(all, MountStage::Execution).len() == 0);
        assert(staged(all, MountStage::Deployment).len() == 0);
        assert(staged(all, MountStage::Output).len() == 0);
    }
}

} // verus!
