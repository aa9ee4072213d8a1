use wasmiot_orchestrator::errors::{ApiError, ErrorKind};
use wasmiot_orchestrator::execution::StartError;
use wasmiot_orchestrator::manifest::BuildError;
use wasmiot_orchestrator::mounts::MountError;
use wasmiot_orchestrator::resolver::SequenceError;

#[test]
fn failures_by_kind() {
    let error = ApiError::bad_request("manifest must have a name");
    assert_eq!(error.kind, ErrorKind::BadRequest);
    assert_eq!(error.msg, "bad request: manifest must have a name");
    assert_eq!(error.status_code(), 400);
    let error = ApiError::not_found("no deployment matches id 'x'");
    assert_eq!(error.msg, "not found: no deployment matches id 'x'");
    assert_eq!(error.status_code(), 404);
    let error = ApiError::internal_error("");
    assert_eq!(error.msg, "internal server error: ");
    assert_eq!(error.status_code(), 500);
    let error = ApiError::db("update failed");
    assert_eq!(error.kind, ErrorKind::Db);
    assert_eq!(error.msg, "db error: update failed");
    assert_eq!(error.status_code(), 500);
}

#[test]
fn the_words_of_a_sequence_error() {
    assert_eq!(SequenceError::NameMissing.message(), "manifest must have a name");
    assert_eq!(SequenceError::StepsMissing.message(), "manifest must have a sequence of operations");
    assert_eq!(SequenceError::ModuleMissing { step: 0 }.message(), "manifest node #0 must have a module");
    assert_eq!(
        SequenceError::FunctionMissing { step: 120 }.message(),
        "manifest node #120 must have a function"
    );
    assert_eq!(SequenceError::FunctionMissing { step: 3 }.kind(), ErrorKind::BadRequest);
}

#[test]
fn the_words_and_kinds_of_a_build_error() {
    assert_eq!(BuildError::DeviceIdMissing.kind(), ErrorKind::Internal);
    assert_eq!(BuildError::ModuleIdMissing.kind(), ErrorKind::Internal);
    assert_eq!(BuildError::PathMissing.kind(), ErrorKind::BadRequest);
    assert_eq!(BuildError::Mount(MountError::UnsupportedFileType).kind(), ErrorKind::BadRequest);
    assert_eq!(BuildError::ResponseMissing.message(), "Response '200' not defined");
    assert_eq!(BuildError::ServerMissing.message(), "module.servers is missing or empty");
    assert_eq!(
        BuildError::Mount(MountError::UnsupportedFileType).message(),
        MountError::UnsupportedFileType.message()
    );
    assert_eq!(MountError::UnsupportedFileType.message(), "Input file types not supported");
    assert_eq!(MountError::MountMetadataMissing.kind(), ErrorKind::BadRequest);
    assert_eq!(StartError::EmptySequence.message(), "Deployment had an empty sequence");
}
