use srun::error::Error;

fn s(text: &str) -> String {
    String::from(text)
}

#[test]
fn error_code_is_described_in_base_ten() {
    let e = Error::ErrorCode(7);
    assert_eq!(e.debug_text(), "ErrorCode(7)");
    assert_eq!(e.to_string(), "Script exited with code 7.");
    assert_eq!(Error::ErrorCode(0).debug_text(), "ErrorCode(0)");
    assert_eq!(Error::ErrorCode(1234).to_string(), "Script exited with code 1234.");
}

#[test]
fn spec_error_is_described_with_quotes() {
    let e = Error::SpecError(s("asset must start with data or http"));
    assert_eq!(e.debug_text(), "SpecError(\"asset must start with data or http\")");
    assert_eq!(
        e.to_string(),
        "Error in task specification: asset must start with data or http."
    );
}

#[test]
fn messages_are_escaped_for_a_developer_only() {
    let e = Error::BuildError(s("line\n\"two\""));
    assert_eq!(e.debug_text(), "BuildError(\"line\\n\\\"two\\\"\")");
    assert_eq!(e.to_string(), "Error while building image: line\n\"two\".");
}

#[test]
fn foreign_failures_are_described_as_they_stand() {
    let io = Error::IOError(s("Os { code: 2, kind: NotFound }"));
    assert_eq!(io.debug_text(), "IOError(Os { code: 2, kind: NotFound })");
    assert_eq!(
        io.to_string(),
        "Error while accessing filesystem: Os { code: 2, kind: NotFound }."
    );
    let cache = Error::CacheError(s("ResourceNotFound"));
    assert_eq!(cache.debug_text(), "CacheError(ResourceNotFound)");
    assert_eq!(cache.to_string(), "Error in cache system: ResourceNotFound.");
    let connection = Error::ConnectionError(s("hyper::Error(Connect)"));
    assert_eq!(connection.debug_text(), "ConnectionError(hyper::Error(Connect))");
    assert_eq!(
        connection.to_string(),
        "Error while connecting to docker service: hyper::Error(Connect)."
    );
    let docker = Error::DockerError(s("DockerResponseNotFoundError"));
    assert_eq!(docker.debug_text(), "DockerError(DockerResponseNotFoundError)");
    assert_eq!(
        docker.to_string(),
        "Error while communicating with docker: DockerResponseNotFoundError."
    );
    let encoding = Error::EncodingError(s("Utf8Error { valid_up_to: 1, error_len: Some(1) }"));
    assert_eq!(
        encoding.debug_text(),
        "EncodingError(Utf8Error { valid_up_to: 1, error_len: Some(1) })"
    );
    assert_eq!(
        encoding.to_string(),
        "Decoding error with docker logs: Utf8Error { valid_up_to: 1, error_len: Some(1) }."
    );
}

#[test]
fn the_other_messages_name_their_kind() {
    let denied = Error::PermissionDeniedError(s("Requires net access"));
    assert_eq!(denied.debug_text(), "PermissionDeniedError(\"Requires net access\")");
    assert_eq!(denied.to_string(), "Permission denied: Requires net access.");
    let unknown = Error::UnknownError(s("image not successfully built"));
    assert_eq!(unknown.debug_text(), "UnknownError(\"image not successfully built\")");
    assert_eq!(unknown.to_string(), "Unknown error: image not successfully built.");
}
