use container_runtime::error::{ExtractionFault, ManifestKind, RuntimeError};
use container_runtime::reply::Cause;
use container_runtime::sandbox::IsolationStep;
use container_runtime::text::{find_last, to_decimal, to_list};

#[test]
fn find_last_gives_the_last_position() {
    assert_eq!(find_last("", ':'), None);
    assert_eq!(find_last("alpine", ':'), None);
    assert_eq!(find_last(":", ':'), Some(0));
    assert_eq!(find_last("a:b", ':'), Some(1));
    assert_eq!(find_last("a:b:c", ':'), Some(3));
    assert_eq!(find_last("a::", ':'), Some(2));
    assert_eq!(find_last("\u{e9}\u{e9}:x", ':'), Some(2));
}

#[test]
fn decimal_numerals_are_exact() {
    assert_eq!(to_decimal(0), "0");
    assert_eq!(to_decimal(7), "7");
    assert_eq!(to_decimal(9), "9");
    assert_eq!(to_decimal(10), "10");
    assert_eq!(to_decimal(99), "99");
    assert_eq!(to_decimal(100), "100");
    assert_eq!(to_decimal(900), "900");
    assert_eq!(to_decimal(1000), "1000");
    assert_eq!(to_decimal(1234567890), "1234567890");
    assert_eq!(to_decimal(usize::MAX), format!("{}", usize::MAX));
}

#[test]
fn lists_are_quoted_and_separated() {
    assert_eq!(to_list(&vec![]), "");
    assert_eq!(to_list(&vec!["hello".to_string()]), "\"hello\"");
    assert_eq!(
        to_list(&vec!["-c".to_string(), "echo hi".to_string(), "".to_string()]),
        "\"-c\", \"echo hi\", \"\""
    );
}

#[test]
fn messages_name_operation_and_cause() {
    assert_eq!(
        RuntimeError::AuthError(Cause::Transport).message(),
        "authentication: the request could not be sent"
    );
    assert_eq!(
        RuntimeError::AuthError(Cause::Status(401)).message(),
        "authentication: the response has status 401"
    );
    assert_eq!(
        RuntimeError::AuthError(Cause::Body).message(),
        "authentication: the response could not be parsed"
    );
    assert_eq!(
        RuntimeError::ManifestError(ManifestKind::List, Cause::Status(404)).message(),
        "getting manifest list: the response has status 404"
    );
    assert_eq!(
        RuntimeError::ManifestError(ManifestKind::Image, Cause::Body).message(),
        "getting image manifest: the response could not be parsed"
    );
    assert_eq!(
        RuntimeError::NoMatchingPlatform.message(),
        "no image manifest found for specified platform"
    );
    assert_eq!(RuntimeError::EmptyManifest.message(), "no image layers found");
    assert_eq!(
        RuntimeError::LayerFetchError { digest: "sha256:abc".to_string(), cause: Cause::Status(500) }
            .message(),
        "downloading image layer sha256:abc: the response has status 500"
    );
    assert_eq!(
        RuntimeError::LayerExtractionError(ExtractionFault::Decompress).message(),
        "unpacking image layer: the blob could not be decompressed"
    );
    assert_eq!(
        RuntimeError::LayerExtractionError(ExtractionFault::Archive).message(),
        "unpacking image layer: the archive could not be extracted"
    );
    assert_eq!(
        RuntimeError::OutOfOrder.message(),
        "a step was reported out of order"
    );
}

#[test]
fn size_mismatch_message_reports_both_numbers() {
    assert_eq!(
        RuntimeError::LayerSizeMismatch { declared: 1000, actual: 900 }.message(),
        "image layer corrupted, expected 1000 bytes, got 900 bytes"
    );
    assert_eq!(
        RuntimeError::LayerSizeMismatch { declared: 0, actual: 1 }.message(),
        "image layer corrupted, expected 0 bytes, got 1 bytes"
    );
}

#[test]
fn isolation_messages_name_the_step() {
    assert_eq!(
        RuntimeError::IsolationError(IsolationStep::ChangeRoot).message(),
        "isolating the process: changing the filesystem root"
    );
    assert_eq!(
        RuntimeError::IsolationError(IsolationStep::FixCwd).message(),
        "isolating the process: changing the working directory"
    );
    assert_eq!(
        RuntimeError::IsolationError(IsolationStep::EnsureDevice).message(),
        "isolating the process: creating the null device's path"
    );
    assert_eq!(
        RuntimeError::IsolationError(IsolationStep::DetachNamespace).message(),
        "isolating the process: detaching the process namespace"
    );
}

#[test]
fn spawn_message_surfaces_command_and_arguments() {
    assert_eq!(
        RuntimeError::SpawnError {
            command: "/bin/echo".to_string(),
            args: vec!["hello".to_string(), "world".to_string()],
        }
        .message(),
        "tried to run '/bin/echo' with arguments [\"hello\", \"world\"]"
    );
    assert_eq!(
        RuntimeError::SpawnError { command: "missing".to_string(), args: vec![] }.message(),
        "tried to run 'missing' with arguments []"
    );
}
