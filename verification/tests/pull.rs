use std::io::Write;

use container_runtime::error::{ExtractionFault, ManifestKind, RuntimeError};
use container_runtime::layer::archive_from;
use container_runtime::manifest::{AuthToken, Layer, Manifest, ManifestInList, Manifests, Platform};
use container_runtime::pull::{pull_image, PullAction, PullEvent, PullStage, PullState};
use container_runtime::registry::{Registry, Request};
use container_runtime::reply::{Cause, Reply};

fn gzip(data: &[u8]) -> Vec<u8> {
    let mut encoder = flate2::write::GzEncoder::new(Vec::new(), flate2::Compression::default());
    encoder.write_all(data).unwrap();
    encoder.finish().unwrap()
}

fn ok<T>(body: T) -> Reply<T> {
    Reply::Received { status: 200, body: Some(body) }
}

fn token(text: &str) -> PullEvent {
    PullEvent::Token(ok(AuthToken { token: text.to_string() }))
}

fn list(platforms: &[(&str, &str)]) -> PullEvent {
    let manifests = platforms
        .iter()
        .enumerate()
        .map(|(i, (architecture, os))| ManifestInList {
            digest: format!("sha256:m{}", i),
            platform: Platform::new(architecture, os),
        })
        .collect();
    PullEvent::ManifestList(ok(Manifests { manifests }))
}

fn manifest(layers: &[(&str, usize)]) -> PullEvent {
    let layers = layers
        .iter()
        .map(|(digest, size)| Layer { digest: digest.to_string(), size: *size })
        .collect();
    PullEvent::Manifest(ok(Manifest { layers }))
}

fn blob(data: Vec<u8>) -> PullEvent {
    PullEvent::LayerBlob(ok(bytes::Bytes::from(data)))
}

fn blob_request(name: &str, digest: &str, bearer: &str) -> Request {
    Request {
        url: format!("https://registry.hub.docker.com/v2/library/{}/blobs/{}", name, digest),
        query: vec![],
        bearer: Some(bearer.to_string()),
        accept: Some("application/vnd.docker.distribution.manifest.v2+json".to_string()),
    }
}

/// Feeds the events to a pull of `alpine:latest` for amd64 and linux.
fn pull(events: Vec<PullEvent>) -> (PullState, Vec<PullAction>) {
    let registry = Registry::new("alpine:latest");
    let platform = Platform::new("amd64", "linux");
    let mut state = PullState::new();
    let mut actions = Vec::new();
    for event in events {
        let (next, action) = pull_image(&registry, &platform, state, event);
        state = next;
        actions.push(action);
    }
    (state, actions)
}

/// The events that bring a pull to the point where it asks for the first
/// layer of a manifest with these layers.
fn up_to_first_layer(layers: &[(&str, usize)]) -> Vec<PullEvent> {
    vec![PullEvent::Begin, token("tok"), list(&[("amd64", "linux")]), manifest(layers)]
}

#[test]
fn a_new_pull_is_at_the_start() {
    let state = PullState::new();
    assert_eq!(state.stage(), PullStage::Start);
    assert_eq!(state.index(), 0);
    assert_eq!(state.layer_count(), 0);
}

#[test]
fn a_pull_begins_with_the_token_request() {
    let (state, actions) = pull(vec![PullEvent::Begin]);
    assert_eq!(state.stage(), PullStage::Authenticating);
    assert_eq!(
        actions,
        vec![PullAction::RequestToken(Request {
            url: "https://auth.docker.io/token".to_string(),
            query: vec![
                ("service".to_string(), "registry.docker.io".to_string()),
                ("scope".to_string(), "repository:library/alpine:pull".to_string()),
            ],
            bearer: None,
            accept: None,
        })]
    );
}

#[test]
fn a_token_is_followed_by_the_manifest_list_request() {
    let (state, mut actions) = pull(vec![PullEvent::Begin, token("tok")]);
    assert_eq!(state.stage(), PullStage::ListingManifests);
    assert_eq!(
        actions.pop().unwrap(),
        PullAction::FetchManifestList(Request {
            url: "https://registry.hub.docker.com/v2/library/alpine/manifests/latest".to_string(),
            query: vec![],
            bearer: Some("tok".to_string()),
            accept: Some(
                "application/vnd.docker.distribution.manifest.list.v2+json".to_string()
            ),
        })
    );
}

#[test]
fn a_failed_authentication_fails_the_pull() {
    for (reply, cause) in [
        (Reply::Unsent, Cause::Transport),
        (Reply::Received { status: 401, body: None }, Cause::Status(401)),
        (Reply::Received { status: 200, body: None }, Cause::Body),
    ] {
        let (state, mut actions) = pull(vec![PullEvent::Begin, PullEvent::Token(reply)]);
        assert_eq!(state.stage(), PullStage::Failed);
        assert_eq!(actions.pop().unwrap(), PullAction::Fail(RuntimeError::AuthError(cause)));
    }
}

#[test]
fn a_matching_platform_is_followed_by_the_manifest_request() {
    let (state, mut actions) = pull(vec![
        PullEvent::Begin,
        token("tok"),
        list(&[("arm64", "linux"), ("amd64", "linux")]),
    ]);
    assert_eq!(state.stage(), PullStage::FetchingManifest);
    assert_eq!(
        actions.pop().unwrap(),
        PullAction::FetchManifest(Request {
            url: "https://registry.hub.docker.com/v2/library/alpine/manifests/latest".to_string(),
            query: vec![],
            bearer: Some("tok".to_string()),
            accept: Some("application/vnd.docker.distribution.manifest.v2+json".to_string()),
        })
    );
}

#[test]
fn no_matching_platform_fails_the_pull() {
    for platforms in [
        vec![],
        vec![("arm64", "linux")],
        vec![("amd64", "windows"), ("arm64", "linux"), ("aarch64", "linux")],
    ] {
        let (state, mut actions) = pull(vec![PullEvent::Begin, token("tok"), list(&platforms)]);
        assert_eq!(state.stage(), PullStage::Failed);
        assert_eq!(actions.pop().unwrap(), PullAction::Fail(RuntimeError::NoMatchingPlatform));
        assert!(actions.iter().all(|a| !matches!(a, PullAction::FetchLayer(_))));
    }
}

#[test]
fn a_failed_manifest_list_fails_the_pull() {
    let (state, mut actions) = pull(vec![
        PullEvent::Begin,
        token("tok"),
        PullEvent::ManifestList(Reply::Received { status: 404, body: None }),
    ]);
    assert_eq!(state.stage(), PullStage::Failed);
    assert_eq!(
        actions.pop().unwrap(),
        PullAction::Fail(RuntimeError::ManifestError(ManifestKind::List, Cause::Status(404)))
    );
}

#[test]
fn a_failed_manifest_fails_the_pull() {
    let (state, mut actions) = pull(vec![
        PullEvent::Begin,
        token("tok"),
        list(&[("amd64", "linux")]),
        PullEvent::Manifest(Reply::Unsent),
    ]);
    assert_eq!(state.stage(), PullStage::Failed);
    assert_eq!(
        actions.pop().unwrap(),
        PullAction::Fail(RuntimeError::ManifestError(ManifestKind::Image, Cause::Transport))
    );
}

#[test]
fn an_empty_manifest_fails_the_pull() {
    let (state, mut actions) = pull(up_to_first_layer(&[]));
    assert_eq!(state.stage(), PullStage::Failed);
    assert_eq!(actions.pop().unwrap(), PullAction::Fail(RuntimeError::EmptyManifest));
}

#[test]
fn a_manifest_is_followed_by_the_request_for_its_first_layer() {
    let (state, mut actions) = pull(up_to_first_layer(&[("sha256:l0", 10), ("sha256:l1", 20)]));
    assert_eq!(state.stage(), PullStage::FetchingLayer);
    assert_eq!(state.index(), 0);
    assert_eq!(state.layer_count(), 2);
    assert_eq!(
        actions.pop().unwrap(),
        PullAction::FetchLayer(blob_request("alpine", "sha256:l0", "tok"))
    );
}

#[test]
fn a_blob_of_the_right_size_is_decompressed_and_handed_out() {
    let packed = gzip(b"the archive of layer zero");
    let mut events = up_to_first_layer(&[("sha256:l0", packed.len())]);
    events.push(blob(packed));
    let (state, mut actions) = pull(events);
    assert_eq!(state.stage(), PullStage::Unpacking);
    assert_eq!(
        actions.pop().unwrap(),
        PullAction::Unpack(b"the archive of layer zero".to_vec())
    );
}

#[test]
fn a_blob_of_the_wrong_size_fails_before_extraction() {
    let packed = gzip(&vec![7u8; 4000]);
    assert!(packed.len() < 900);
    let mut body = packed.clone();
    body.resize(900, 0);
    let mut events = up_to_first_layer(&[("sha256:l0", 1000)]);
    events.push(blob(body));
    let (state, mut actions) = pull(events);
    assert_eq!(state.stage(), PullStage::Failed);
    assert_eq!(
        actions.pop().unwrap(),
        PullAction::Fail(RuntimeError::LayerSizeMismatch { declared: 1000, actual: 900 })
    );
    assert!(actions.iter().all(|a| !matches!(a, PullAction::Unpack(_))));
}

#[test]
fn a_size_mismatch_is_found_whatever_the_blob_holds() {
    for (declared, body) in [
        (0usize, gzip(b"x")),
        (5, vec![]),
        (3, vec![1, 2, 3, 4]),
        (gzip(b"valid").len() + 1, gzip(b"valid")),
    ] {
        let actual = body.len();
        let mut events = up_to_first_layer(&[("sha256:l0", declared)]);
        events.push(blob(body));
        let (state, mut actions) = pull(events);
        assert_eq!(state.stage(), PullStage::Failed);
        assert_eq!(
            actions.pop().unwrap(),
            PullAction::Fail(RuntimeError::LayerSizeMismatch { declared, actual })
        );
    }
}

#[test]
fn a_blob_that_is_no_gzip_stream_fails_the_pull() {
    let body = b"this is not a gzip stream".to_vec();
    let mut events = up_to_first_layer(&[("sha256:l0", body.len())]);
    events.push(blob(body));
    let (state, mut actions) = pull(events);
    assert_eq!(state.stage(), PullStage::Failed);
    assert_eq!(
        actions.pop().unwrap(),
        PullAction::Fail(RuntimeError::LayerExtractionError(ExtractionFault::Decompress))
    );
}

#[test]
fn a_truncated_gzip_stream_fails_the_pull() {
    let mut body = gzip(&vec![3u8; 10000]);
    body.truncate(body.len() - 6);
    let mut events = up_to_first_layer(&[("sha256:l0", body.len())]);
    events.push(blob(body));
    let (state, mut actions) = pull(events);
    assert_eq!(state.stage(), PullStage::Failed);
    assert_eq!(
        actions.pop().unwrap(),
        PullAction::Fail(RuntimeError::LayerExtractionError(ExtractionFault::Decompress))
    );
}

#[test]
fn a_blob_that_could_not_be_fetched_fails_the_pull() {
    let mut events = up_to_first_layer(&[("sha256:l0", 10)]);
    events.push(PullEvent::LayerBlob(Reply::Received { status: 500, body: None }));
    let (state, mut actions) = pull(events);
    assert_eq!(state.stage(), PullStage::Failed);
    assert_eq!(
        actions.pop().unwrap(),
        PullAction::Fail(RuntimeError::LayerFetchError {
            digest: "sha256:l0".to_string(),
            cause: Cause::Status(500),
        })
    );
}

#[test]
fn a_layer_that_could_not_be_unpacked_fails_the_pull() {
    let packed = gzip(b"layer");
    let mut events = up_to_first_layer(&[("sha256:l0", packed.len()), ("sha256:l1", 1)]);
    events.push(blob(packed));
    events.push(PullEvent::Unpacked(false));
    let (state, mut actions) = pull(events);
    assert_eq!(state.stage(), PullStage::Failed);
    assert_eq!(
        actions.pop().unwrap(),
        PullAction::Fail(RuntimeError::LayerExtractionError(ExtractionFault::Archive))
    );
}

#[test]
fn layers_are_fetched_and_unpacked_in_manifest_order() {
    let first = gzip(b"first layer");
    let second = gzip(b"second layer, which overwrites the first");
    let third = gzip(b"third");
    let mut events = up_to_first_layer(&[
        ("sha256:l0", first.len()),
        ("sha256:l1", second.len()),
        ("sha256:l2", third.len()),
    ]);
    events.extend([
        blob(first),
        PullEvent::Unpacked(true),
        blob(second),
        PullEvent::Unpacked(true),
        blob(third),
        PullEvent::Unpacked(true),
    ]);
    let (state, actions) = pull(events);
    assert_eq!(state.stage(), PullStage::Pulled);
    assert_eq!(state.index(), 2);
    assert_eq!(state.layer_count(), 3);
    assert_eq!(
        actions[3..],
        [
            PullAction::FetchLayer(blob_request("alpine", "sha256:l0", "tok")),
            PullAction::Unpack(b"first layer".to_vec()),
            PullAction::FetchLayer(blob_request("alpine", "sha256:l1", "tok")),
            PullAction::Unpack(b"second layer, which overwrites the first".to_vec()),
            PullAction::FetchLayer(blob_request("alpine", "sha256:l2", "tok")),
            PullAction::Unpack(b"third".to_vec()),
            PullAction::Done,
        ]
    );
}

#[test]
fn an_event_that_is_not_awaited_fails_the_pull() {
    let (state, mut actions) = pull(vec![token("tok")]);
    assert_eq!(state.stage(), PullStage::Failed);
    assert_eq!(actions.pop().unwrap(), PullAction::Fail(RuntimeError::OutOfOrder));

    let (state, mut actions) = pull(vec![PullEvent::Begin, PullEvent::Begin]);
    assert_eq!(state.stage(), PullStage::Failed);
    assert_eq!(actions.pop().unwrap(), PullAction::Fail(RuntimeError::OutOfOrder));

    let (state, mut actions) = pull(vec![PullEvent::Begin, token("tok"), manifest(&[("d", 1)])]);
    assert_eq!(state.stage(), PullStage::Failed);
    assert_eq!(actions.pop().unwrap(), PullAction::Fail(RuntimeError::OutOfOrder));

    let mut events = up_to_first_layer(&[("sha256:l0", 10)]);
    events.push(PullEvent::Unpacked(true));
    let (state, mut actions) = pull(events);
    assert_eq!(state.stage(), PullStage::Failed);
    assert_eq!(actions.pop().unwrap(), PullAction::Fail(RuntimeError::OutOfOrder));
}

#[test]
fn a_failed_pull_stays_failed() {
    let (state, actions) = pull(vec![
        PullEvent::Begin,
        PullEvent::Token(Reply::Unsent),
        token("tok"),
        list(&[("amd64", "linux")]),
        manifest(&[("d", 1)]),
        PullEvent::Unpacked(true),
        PullEvent::Begin,
    ]);
    assert_eq!(state.stage(), PullStage::Failed);
    assert_eq!(actions[1], PullAction::Fail(RuntimeError::AuthError(Cause::Transport)));
    for action in &actions[2..] {
        assert_eq!(*action, PullAction::Fail(RuntimeError::OutOfOrder));
    }
}

#[test]
fn a_complete_pull_awaits_nothing_more() {
    let packed = gzip(b"only layer");
    let mut events = up_to_first_layer(&[("sha256:l0", packed.len())]);
    events.extend([blob(packed), PullEvent::Unpacked(true), PullEvent::Unpacked(true)]);
    let (state, actions) = pull(events);
    assert_eq!(actions[5], PullAction::Done);
    assert_eq!(actions[6], PullAction::Fail(RuntimeError::OutOfOrder));
    assert_eq!(state.stage(), PullStage::Failed);
}

#[test]
fn layer_decoded_hands_the_archive_out_or_fails() {
    let (state, _) = pull(up_to_first_layer(&[("sha256:l0", 10)]));
    let (state, action) = state.layer_decoded(Some(vec![1, 2, 3]));
    assert_eq!(state.stage(), PullStage::Unpacking);
    assert_eq!(action, PullAction::Unpack(vec![1, 2, 3]));

    let (state, _) = pull(up_to_first_layer(&[("sha256:l0", 10)]));
    let (state, action) = state.layer_decoded(None);
    assert_eq!(state.stage(), PullStage::Failed);
    assert_eq!(
        action,
        PullAction::Fail(RuntimeError::LayerExtractionError(ExtractionFault::Decompress))
    );
}

#[test]
fn archive_from_maps_a_failed_decompression() {
    assert_eq!(archive_from(Some(vec![9, 8])), Ok(vec![9, 8]));
    assert_eq!(archive_from(Some(vec![])), Ok(vec![]));
    assert_eq!(
        archive_from(None),
        Err(RuntimeError::LayerExtractionError(ExtractionFault::Decompress))
    );
}

#[test]
fn check_size_compares_declared_and_actual() {
    let layer = Layer { digest: "d".to_string(), size: 1000 };
    assert_eq!(layer.check_size(1000), Ok(()));
    assert_eq!(
        layer.check_size(900),
        Err(RuntimeError::LayerSizeMismatch { declared: 1000, actual: 900 })
    );
    assert_eq!(
        layer.check_size(1001),
        Err(RuntimeError::LayerSizeMismatch { declared: 1000, actual: 1001 })
    );
    let empty = Layer { digest: "d".to_string(), size: 0 };
    assert_eq!(empty.check_size(0), Ok(()));
}

#[test]
fn open_decompresses_a_blob_of_the_declared_size() {
    let packed = gzip(b"hello, layer");
    assert_ne!(packed, b"hello, layer".to_vec());
    let layer = Layer { digest: "d".to_string(), size: packed.len() };
    assert_eq!(layer.open(&bytes::Bytes::from(packed.clone())), Ok(b"hello, layer".to_vec()));
    assert_eq!(
        layer.open_checked(&bytes::Bytes::from(packed)),
        Ok(Some(b"hello, layer".to_vec()))
    );

    let empty = gzip(b"");
    let layer = Layer { digest: "d".to_string(), size: empty.len() };
    assert_eq!(layer.open(&bytes::Bytes::from(empty)), Ok(vec![]));
}

#[test]
fn open_reads_the_first_gzip_member_only() {
    let mut packed = gzip(b"first member");
    packed.extend(gzip(b"second member"));
    let layer = Layer { digest: "d".to_string(), size: packed.len() };
    assert_eq!(layer.open(&bytes::Bytes::from(packed)), Ok(b"first member".to_vec()));
}

#[test]
fn open_checks_the_size_before_it_decompresses() {
    let packed = gzip(b"hello, layer");
    let layer = Layer { digest: "d".to_string(), size: packed.len() + 1 };
    assert_eq!(
        layer.open(&bytes::Bytes::from(packed.clone())),
        Err(RuntimeError::LayerSizeMismatch { declared: packed.len() + 1, actual: packed.len() })
    );
    let garbage = vec![0u8; 900];
    let layer = Layer { digest: "d".to_string(), size: 1000 };
    assert_eq!(
        layer.open(&bytes::Bytes::from(garbage.clone())),
        Err(RuntimeError::LayerSizeMismatch { declared: 1000, actual: 900 })
    );
    let layer = Layer { digest: "d".to_string(), size: 900 };
    assert_eq!(
        layer.open(&bytes::Bytes::from(garbage.clone())),
        Err(RuntimeError::LayerExtractionError(ExtractionFault::Decompress))
    );
    assert_eq!(layer.open_checked(&bytes::Bytes::from(garbage)), Ok(None));
}
