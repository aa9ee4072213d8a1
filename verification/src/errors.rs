//! The kinds of failure that a caller is told of, and the words for each.

use vstd::prelude::*;
use crate::execution::{ChainFailure, StartError};
use crate::manifest::BuildError;
use crate::mounts::MountError;
use crate::resolver::{ResolveError, ResolveErrorView, SequenceError};
use crate::text::{decimal, u16_text, usize_text};

verus! {

/// The kinds of failure.
#[derive(Clone, Copy, Debug, PartialEq, Eq, Structural)]
pub enum ErrorKind {
    /// The request cannot be served as it is.
    BadRequest,
    /// Something that the request names is not known.
    NotFound,
    /// The store failed.
    Db,
    /// Something that should hold does not.
    Internal,
}

/// The HTTP status that tells a caller of a failure of this kind.
pub open spec fn status_of(kind: ErrorKind) -> u16 {
    match kind {
        ErrorKind::BadRequest => 400,
        ErrorKind::NotFound => 404,
        ErrorKind::Db => 500,
        ErrorKind::Internal => 500,
    }
}

/// The words that open the message of a failure of this kind.
pub open spec fn prefix_of(kind: ErrorKind) -> Seq<char> {
    match kind {
        ErrorKind::BadRequest => "bad request: "@,
        ErrorKind::NotFound => "not found: "@,
        ErrorKind::Db => "db error: "@,
        ErrorKind::Internal => "internal server error: "@,
    }
}

/// A failure as a caller is told of it.
#[derive(Clone, Debug, PartialEq, Eq)]
pub struct ApiError {
    pub kind: ErrorKind,
    pub msg: String,
}

impl ApiError {
    fn of_kind(kind: ErrorKind, text: &str) -> (error: ApiError)
        ensures
            error.kind == kind,
            error.msg@ == prefix_of(kind) + text@,
    {
        let mut msg = match kind {
            ErrorKind::BadRequest => "bad request: ".to_string(),
            ErrorKind::NotFound => "not found: ".to_string(),
            ErrorKind::Db => "db error: ".to_string(),
            ErrorKind::Internal => "internal server error: ".to_string(),
        };
        msg.append(text);
        ApiError { kind, msg }
    }

    pub fn bad_request(text: &str) -> (error: ApiError)
        ensures
            error.kind == ErrorKind::BadRequest,
            error.msg@ == "bad request: "@ + text@,
    {
        ApiError::of_kind(ErrorKind::BadRequest, text)
    }

    pub fn not_found(text: &str) -> (error: ApiError)
        ensures
            error.kind == ErrorKind::NotFound,
            error.msg@ == "not found: "@ + text@,
    {
        ApiError::of_kind(ErrorKind::NotFound, text)
    }

    pub fn internal_error(text: &str) -> (error: ApiError)
        ensures
            error.kind == ErrorKind::Internal,
            error.msg@ == "internal server error: "@ + text@,
    {
        ApiError::of_kind(ErrorKind::Internal, text)
    }

    pub fn db(text: &str) -> (error: ApiError)
        ensures
            error.kind == ErrorKind::Db,
            error.msg@ == "db error: "@ + text@,
    {
        ApiError::of_kind(ErrorKind::Db, text)
    }

    /// The HTTP status of the failure.
    pub fn status_code(&self) -> (status: u16)
        ensures
            status == status_of(self.kind),
    {
        match self.kind {
            ErrorKind::BadRequest => 400,
            ErrorKind::NotFound => 404,
            ErrorKind::Db => 500,
            ErrorKind::Internal => 500,
        }
    }
}

impl SequenceError {
    /// Every fault of a submitted sequence is a bad request.
    pub fn kind(&self) -> (kind: ErrorKind)
        ensures
            kind == ErrorKind::BadRequest,
    {
        ErrorKind::BadRequest
    }

    pub open spec fn text(&self) -> Seq<char> {
        match self {
            SequenceError::NameMissing => "manifest must have a name"@,
            SequenceError::StepsMissing => "manifest must have a sequence of operations"@,
            SequenceError::ModuleMissing { step } => "manifest node #"@ + decimal(*step as nat)
                + " must have a module"@,
            SequenceError::FunctionMissing { step } => "manifest node #"@ + decimal(*step as nat)
                + " must have a function"@,
        }
    }

    pub fn message(&self) -> (message: String)
        ensures
            message@ == self.text(),
    {
        match self {
            SequenceError::NameMissing => "manifest must have a name".to_string(),
            SequenceError::StepsMissing => "manifest must have a sequence of operations".to_string(),
            SequenceError::ModuleMissing { step } => {
                let mut message = "manifest node #".to_string();
                message.append(usize_text(*step).as_str());
                message.append(" must have a module");
                message
            },
            SequenceError::FunctionMissing { step } => {
                let mut message = "manifest node #".to_string();
                message.append(usize_text(*step).as_str());
                message.append(" must have a function");
                message
            },
        }
    }
}

/// `names`, the first `n` of them, each followed by a comma and a space but
/// for the last.
pub open spec fn listed_names(names: Seq<Seq<char>>, n: nat) -> Seq<char>
    decreases n,
{
    if n == 0 || n > names.len() {
        Seq::empty()
    } else if n == 1 {
        names[0]
    } else {
        listed_names(names, (n - 1) as nat) + ", "@ + names[n - 1]
    }
}

fn list_names(names: &Vec<String>) -> (text: String)
    ensures
        text@ == listed_names(names.deep_view(), names@.len()),
{
    let mut text = String::new();
    let mut i: usize = 0;
    while i < names.len()
        invariant
            i <= names@.len(),
            text@ == listed_names(names.deep_view(), i as nat),
        decreases names@.len() - i,
    {
        if i > 0 {
            text.append(", ");
        }
        text.append(names[i].as_str());
        assert(names.deep_view()[i as int] == names@[i as int]@);
        assert(Seq::<char>::empty() + names@[i as int]@ =~= names@[i as int]@);
        i += 1;
    }
    text
}

impl ResolveErrorView {
    pub open spec fn kind(self) -> ErrorKind {
        match self {
            ResolveErrorView::NoSteps => ErrorKind::Internal,
            _ => ErrorKind::BadRequest,
        }
    }

    pub open spec fn text(self) -> Seq<char> {
        match self {
            ResolveErrorView::FunctionNotExported { func, module } => "Failed to find function '"@
                + func + "' from requested module: "@ + module,
            ResolveErrorView::DeviceUnsuitable { device, module } => "device '"@ + device
                + "' does not satisfy module '"@ + module + "' requirements"@,
            ResolveErrorView::NoMatchingDevice { requirements } => {
                "no matching device satisfying all requirements: "@ + listed_names(
                    requirements,
                    requirements.len(),
                )
            },
            ResolveErrorView::NoSteps => "Error on deployment: no steps assigned"@,
        }
    }
}

impl ResolveError {
    /// A sequence without steps is a fault of the service; every other fault
    /// is a bad request.
    pub fn kind(&self) -> (kind: ErrorKind)
        ensures
            kind == self.deep_view().kind(),
    {
        match self {
            ResolveError::NoSteps => ErrorKind::Internal,
            _ => ErrorKind::BadRequest,
        }
    }

    pub fn message(&self) -> (message: String)
        ensures
            message@ == self.deep_view().text(),
    {
        match self {
            ResolveError::FunctionNotExported { func, module } => {
                let mut message = "Failed to find function '".to_string();
                message.append(func.as_str());
                message.append("' from requested module: ");
                message.append(module.as_str());
                message
            },
            ResolveError::DeviceUnsuitable { device, module } => {
                let mut message = "device '".to_string();
                message.append(device.as_str());
                message.append("' does not satisfy module '");
                message.append(module.as_str());
                message.append("' requirements");
                message
            },
            ResolveError::NoMatchingDevice { requirements } => {
                let mut message = "no matching device satisfying all requirements: ".to_string();
                message.append(list_names(requirements).as_str());
                message
            },
            ResolveError::NoSteps => "Error on deployment: no steps assigned".to_string(),
        }
    }
}

impl MountError {
    /// Every fault of the mounts of a function is a bad request.
    pub fn kind(&self) -> (kind: ErrorKind)
        ensures
            kind == ErrorKind::BadRequest,
    {
        ErrorKind::BadRequest
    }

    pub open spec fn text(&self) -> Seq<char> {
        match self {
            MountError::NotMultipart => "Expected multipart/form-data"@,
            MountError::SchemaMissing => "multipart requestBody missing schema"@,
            MountError::SchemaNotObject => "Only object schemas supported for multipart"@,
            MountError::PropertiesMissing => "multipart schema has no properties"@,
            MountError::PropertyReference => {
                "multipart property is a $ref, resolver not implemented"@
            },
            MountError::EncodingMissing => "multipart requestBody missing encoding"@,
            MountError::PropertiesEmpty => {
                "Expected properties for multipart schema, properties was empty instead."@
            },
            MountError::MountMetadataMissing => "mount metadata missing for a file of the function"@,
            MountError::UnsupportedFileType => "Input file types not supported"@,
            MountError::MultipartResponse => {
                "multipart/form-data responses require encoding; OperationResponse has no encoding"@
            },
            MountError::FunctionMountsMissing => "mounts missing for the function of the module"@,
            MountError::OutputMountMissing => "output mount expected but is missing"@,
        }
    }

    pub fn message(&self) -> (message: String)
        ensures
            message@ == self.text(),
    {
        match self {
            MountError::NotMultipart => "Expected multipart/form-data".to_string(),
            MountError::SchemaMissing => "multipart requestBody missing schema".to_string(),
            MountError::SchemaNotObject => "Only object schemas supported for multipart".to_string(),
            MountError::PropertiesMissing => "multipart schema has no properties".to_string(),
            MountError::PropertyReference => {
                "multipart property is a $ref, resolver not implemented".to_string()
            },
            MountError::EncodingMissing => "multipart requestBody missing encoding".to_string(),
            MountError::PropertiesEmpty => {
                "Expected properties for multipart schema, properties was empty instead.".to_string()
            },
            MountError::MountMetadataMissing => {
                "mount metadata missing for a file of the function".to_string()
            },
            MountError::UnsupportedFileType => "Input file types not supported".to_string(),
            MountError::MultipartResponse => {
                "multipart/form-data responses require encoding; OperationResponse has no encoding".to_string()
            },
            MountError::FunctionMountsMissing => {
                "mounts missing for the function of the module".to_string()
            },
            MountError::OutputMountMissing => "output mount expected but is missing".to_string(),
        }
    }
}

impl BuildError {
    pub open spec fn kind_of(&self) -> ErrorKind {
        match self {
            BuildError::DeviceIdMissing => ErrorKind::Internal,
            BuildError::ModuleIdMissing => ErrorKind::Internal,
            _ => ErrorKind::BadRequest,
        }
    }

    /// A document without its identifier is a fault of the service; every
    /// other fault of a build is a bad request.
    pub fn kind(&self) -> (kind: ErrorKind)
        ensures
            kind == self.kind_of(),
    {
        match self {
            BuildError::DeviceIdMissing => ErrorKind::Internal,
            BuildError::ModuleIdMissing => ErrorKind::Internal,
            _ => ErrorKind::BadRequest,
        }
    }

    pub open spec fn text(&self) -> Seq<char> {
        match self {
            BuildError::DeviceIdMissing => "device missing _id"@,
            BuildError::ModuleIdMissing => "Module id missing"@,
            BuildError::PathMissing => "Endpoint path not found in module"@,
            BuildError::NoOperation => "Expected at least one operation on endpoint, found none"@,
            BuildError::ResponseMissing => "Response '200' not defined"@,
            BuildError::ResponseReference => "response 200 is a $ref, resolver not implemented yet"@,
            BuildError::ResponseContentMissing => "response 200 has no content"@,
            BuildError::ResponseContentEmpty => "response 200 content is empty"@,
            BuildError::ResponseSchemaReference => {
                "response 200 schema is a $ref, resolver not implemented"@
            },
            BuildError::RequestBodyReference => {
                "requestBody is a $ref, resolver not implemented yet"@
            },
            BuildError::RequestBodySchemaReference => {
                "requestBody schema is a $ref, resolver not implemented yet"@
            },
            BuildError::ServerMissing => "module.servers is missing or empty"@,
            BuildError::ParameterReference => "parameter is a $ref, resolver not implemented yet"@,
            BuildError::Mount(error) => error.text(),
        }
    }

    pub fn message(&self) -> (message: String)
        ensures
            message@ == self.text(),
    {
        match self {
            BuildError::DeviceIdMissing => "device missing _id".to_string(),
            BuildError::ModuleIdMissing => "Module id missing".to_string(),
            BuildError::PathMissing => "Endpoint path not found in module".to_string(),
            BuildError::NoOperation => {
                "Expected at least one operation on endpoint, found none".to_string()
            },
            BuildError::ResponseMissing => "Response '200' not defined".to_string(),
            BuildError::ResponseReference => {
                "response 200 is a $ref, resolver not implemented yet".to_string()
            },
            BuildError::ResponseContentMissing => "response 200 has no content".to_string(),
            BuildError::ResponseContentEmpty => "response 200 content is empty".to_string(),
            BuildError::ResponseSchemaReference => {
                "response 200 schema is a $ref, resolver not implemented".to_string()
            },
            BuildError::RequestBodyReference => {
                "requestBody is a $ref, resolver not implemented yet".to_string()
            },
            BuildError::RequestBodySchemaReference => {
                "requestBody schema is a $ref, resolver not implemented yet".to_string()
            },
            BuildError::ServerMissing => "module.servers is missing or empty".to_string(),
            BuildError::ParameterReference => {
                "parameter is a $ref, resolver not implemented yet".to_string()
            },
            BuildError::Mount(error) => error.message(),
        }
    }
}

impl StartError {
    pub open spec fn kind_of(&self) -> ErrorKind {
        match self {
            StartError::ParameterMissing => ErrorKind::BadRequest,
            StartError::UnsupportedLocation => ErrorKind::BadRequest,
            _ => ErrorKind::Internal,
        }
    }

    /// A parameter without a value or in a location that is not supported is
    /// a bad request; a stored deployment that cannot be started is a fault
    /// of the service.
    pub fn kind(&self) -> (kind: ErrorKind)
        ensures
            kind == self.kind_of(),
    {
        match self {
            StartError::ParameterMissing => ErrorKind::BadRequest,
            StartError::UnsupportedLocation => ErrorKind::BadRequest,
            _ => ErrorKind::Internal,
        }
    }

    pub open spec fn text(&self) -> Seq<char> {
        match self {
            StartError::EmptySequence => "Deployment had an empty sequence"@,
            StartError::DeviceNotInManifest => "device not found in fullManifest"@,
            StartError::ModuleNotOnDevice => "module not found on device"@,
            StartError::EndpointMissing => "endpoint not found for module and func on device"@,
            StartError::InvalidUrl => "invalid endpoint url"@,
            StartError::ParameterMissing => "parameter missing"@,
            StartError::UnsupportedLocation => "parameter location not supported"@,
            StartError::UnsupportedMethod => "unsupported HTTP method"@,
        }
    }

    pub fn message(&self) -> (message: String)
        ensures
            message@ == self.text(),
    {
        match self {
            StartError::EmptySequence => "Deployment had an empty sequence".to_string(),
            StartError::DeviceNotInManifest => "device not found in fullManifest".to_string(),
            StartError::ModuleNotOnDevice => "module not found on device".to_string(),
            StartError::EndpointMissing => {
                "endpoint not found for module and func on device".to_string()
            },
            StartError::InvalidUrl => "invalid endpoint url".to_string(),
            StartError::ParameterMissing => "parameter missing".to_string(),
            StartError::UnsupportedLocation => "parameter location not supported".to_string(),
            StartError::UnsupportedMethod => "unsupported HTTP method".to_string(),
        }
    }
}

impl ChainFailure {
    pub open spec fn text(&self) -> Seq<char> {
        match self {
            ChainFailure::NotJson => "parsing result to JSON failed"@,
            ChainFailure::FetchFailed { status } => "fetching result failed: "@ + decimal(
                *status as nat,
            ),
            ChainFailure::UnexpectedShape => "unexpected execution response shape"@,
            ChainFailure::DepthExhausted => "too many result pointers followed"@,
        }
    }

    /// The words with which a chain reports an error of its own.
    pub fn message(&self) -> (message: String)
        ensures
            message@ == self.text(),
    {
        match self {
            ChainFailure::NotJson => "parsing result to JSON failed".to_string(),
            ChainFailure::FetchFailed { status } => {
                let mut message = "fetching result failed: ".to_string();
                message.append(u16_text(*status).as_str());
                message
            },
            ChainFailure::UnexpectedShape => "unexpected execution response shape".to_string(),
            ChainFailure::DepthExhausted => "too many result pointers followed".to_string(),
        }
    }
}

} // verus!
