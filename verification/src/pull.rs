//! The pull of an image, as a machine: each reply of the registry, and each
//! report of an unpacked layer, is an event; each event is answered with the
//! next thing to do.

use vstd::prelude::*;
use crate::error::{ExtractionFault, ManifestKind, RuntimeError, RuntimeErrorView};
use crate::layer::{archive_from, bytes_content, decoded_archive, gzip_member, optional_bytes,
    size_checked};
use crate::manifest::{entries_for, AuthToken, Layer, LayerView, Manifest, ManifestInListView,
    Manifests, Platform, PlatformView};
use crate::registry::{layer_request, manifest_list_request, manifest_request, token_request,
    AuthenticatedRegistry, Registry, RegistryView, Request, RequestView};
use crate::reply::{Cause, Reply};

verus! {

/// Where a pull stands.
#[derive(Clone, Copy, Debug, PartialEq, Eq, Structural)]
pub enum PullStage {
    /// Nothing has been asked yet.
    Start,
    /// The token has been asked for.
    Authenticating,
    /// The manifest list has been asked for.
    ListingManifests,
    /// The manifest has been asked for.
    FetchingManifest,
    /// The blob of the current layer has been asked for.
    FetchingLayer,
    /// The archive of the current layer has been handed out for unpacking.
    Unpacking,
    /// Every layer is in place.
    Pulled,
    /// The pull has failed.
    Failed,
}

/// The state of a pull.
#[derive(Debug)]
pub struct PullState {
    stage: PullStage,
    token: String,
    layers: Vec<Layer>,
    index: usize,
}

/// The mathematical content of a [`PullState`].
pub struct PullStateView {
    /// Where the pull stands.
    pub stage: PullStage,
    /// The token, once one was issued.
    pub token: Seq<char>,
    /// The layers of the manifest, once it was fetched, in its order.
    pub layers: Seq<LayerView>,
    /// The position of the layer that is being fetched or unpacked.
    pub index: nat,
}

impl PullStateView {
    /// The state before anything was asked.
    pub open spec fn initial() -> PullStateView {
        PullStateView { stage: PullStage::Start, token: Seq::empty(), layers: Seq::empty(), index: 0 }
    }

    /// While a layer is fetched or unpacked, it is one of the manifest's;
    /// once the image is pulled, every layer has had its turn.
    pub open spec fn wf(self) -> bool {
        &&& (self.stage == PullStage::FetchingLayer || self.stage == PullStage::Unpacking)
            ==> self.index < self.layers.len()
        &&& self.stage == PullStage::Pulled ==> self.index + 1 == self.layers.len()
    }
}

impl View for PullState {
    type V = PullStateView;

    closed spec fn view(&self) -> PullStateView {
        PullStateView {
            stage: self.stage,
            token: self.token@,
            layers: self.layers@.map_values(|l: Layer| l@),
            index: self.index as nat,
        }
    }
}

/// What a driver reports to a pull.
#[derive(Debug)]
pub enum PullEvent {
    /// The pull is to begin.
    Begin,
    /// The token service has been asked.
    Token(Reply<AuthToken>),
    /// The manifest list has been asked for.
    ManifestList(Reply<Manifests>),
    /// The manifest has been asked for.
    Manifest(Reply<Manifest>),
    /// The blob of the current layer has been asked for.
    LayerBlob(Reply<bytes::Bytes>),
    /// The archive of the current layer has been unpacked into the root,
    /// or could not be.
    Unpacked(bool),
}

/// The mathematical content of a [`PullEvent`]: each reply stands for what
/// it amounts to.
pub enum PullEventView {
    Begin,
    Token(Result<Seq<char>, Cause>),
    ManifestList(Result<Seq<ManifestInListView>, Cause>),
    Manifest(Result<Seq<LayerView>, Cause>),
    LayerBlob(Result<Seq<u8>, Cause>),
    Unpacked(bool),
}

impl View for PullEvent {
    type V = PullEventView;

    open spec fn view(&self) -> PullEventView {
        match *self {
            PullEvent::Begin => PullEventView::Begin,
            PullEvent::Token(reply) => PullEventView::Token(
                match reply.settled() {
                    Ok(token) => Ok(token@),
                    Err(cause) => Err(cause),
                },
            ),
            PullEvent::ManifestList(reply) => PullEventView::ManifestList(
                match reply.settled() {
                    Ok(manifests) => Ok(manifests@),
                    Err(cause) => Err(cause),
                },
            ),
            PullEvent::Manifest(reply) => PullEventView::Manifest(
                match reply.settled() {
                    Ok(manifest) => Ok(manifest@),
                    Err(cause) => Err(cause),
                },
            ),
            PullEvent::LayerBlob(reply) => PullEventView::LayerBlob(
                match reply.settled() {
                    Ok(blob) => Ok(bytes_content(blob)),
                    Err(cause) => Err(cause),
                },
            ),
            PullEvent::Unpacked(ok) => PullEventView::Unpacked(ok),
        }
    }
}

/// What a pull asks its driver to do next.
#[derive(Debug, PartialEq, Eq)]
pub enum PullAction {
    /// Send this request to the token service, and report a `Token`.
    RequestToken(Request),
    /// Send this request for the manifest list, and report a
    /// `ManifestList`.
    FetchManifestList(Request),
    /// Send this request for the manifest, and report a `Manifest`.
    FetchManifest(Request),
    /// Send this request for a layer's blob, and report a `LayerBlob`.
    FetchLayer(Request),
    /// Unpack this archive into the root, over what is there, and report
    /// an `Unpacked`.
    Unpack(Vec<u8>),
    /// Every layer is in place: the pull is complete.
    Done,
    /// The pull has failed with this error.
    Fail(RuntimeError),
}

/// The mathematical content of a [`PullAction`].
pub enum PullActionView {
    RequestToken(RequestView),
    FetchManifestList(RequestView),
    FetchManifest(RequestView),
    FetchLayer(RequestView),
    Unpack(Seq<u8>),
    Done,
    Fail(RuntimeErrorView),
}

impl View for PullAction {
    type V = PullActionView;

    open spec fn view(&self) -> PullActionView {
        match *self {
            PullAction::RequestToken(request) => PullActionView::RequestToken(request@),
            PullAction::FetchManifestList(request) => PullActionView::FetchManifestList(request@),
            PullAction::FetchManifest(request) => PullActionView::FetchManifest(request@),
            PullAction::FetchLayer(request) => PullActionView::FetchLayer(request@),
            PullAction::Unpack(archive) => PullActionView::Unpack(archive@),
            PullAction::Done => PullActionView::Done,
            PullAction::Fail(error) => PullActionView::Fail(error@),
        }
    }
}

/// The pull ends in failure with `error`.
pub open spec fn failed(s: PullStateView, error: RuntimeErrorView) -> (PullStateView, PullActionView) {
    (PullStateView { stage: PullStage::Failed, ..s }, PullActionView::Fail(error))
}

/// The answer to the token service's reply: with a token, the manifest
/// list is asked for.
pub open spec fn after_token(
    registry: RegistryView,
    s: PullStateView,
    token: Result<Seq<char>, Cause>,
) -> (PullStateView, PullActionView) {
    match token {
        Ok(token) => (
            PullStateView { stage: PullStage::ListingManifests, token, ..s },
            PullActionView::FetchManifestList(manifest_list_request(registry, token)),
        ),
        Err(cause) => failed(s, RuntimeErrorView::AuthError(cause)),
    }
}

/// The answer to the manifest list: where it names the platform, the
/// manifest of the tag is asked for; where it does not, the pull fails.
pub open spec fn after_manifest_list(
    registry: RegistryView,
    platform: PlatformView,
    s: PullStateView,
    entries: Result<Seq<ManifestInListView>, Cause>,
) -> (PullStateView, PullActionView) {
    match entries {
        Ok(entries) => if entries_for(entries, platform).len() == 0 {
            failed(s, RuntimeErrorView::NoMatchingPlatform)
        } else {
            (
                PullStateView { stage: PullStage::FetchingManifest, ..s },
                PullActionView::FetchManifest(manifest_request(registry, s.token)),
            )
        },
        Err(cause) => failed(s, RuntimeErrorView::ManifestError(ManifestKind::List, cause)),
    }
}

/// The answer to the manifest: its first layer is asked for; a manifest
/// without layers fails the pull.
pub open spec fn after_manifest(
    registry: RegistryView,
    s: PullStateView,
    layers: Result<Seq<LayerView>, Cause>,
) -> (PullStateView, PullActionView) {
    match layers {
        Ok(layers) => if layers.len() == 0 {
            failed(s, RuntimeErrorView::EmptyManifest)
        } else {
            (
                PullStateView { stage: PullStage::FetchingLayer, layers, index: 0, ..s },
                PullActionView::FetchLayer(layer_request(registry, s.token, layers[0].digest)),
            )
        },
        Err(cause) => failed(s, RuntimeErrorView::ManifestError(ManifestKind::Image, cause)),
    }
}

/// The answer to a decompression of the current layer's blob: the archive
/// is handed out for unpacking, or the pull fails.
pub open spec fn after_decode(s: PullStateView, decoded: Option<Seq<u8>>) -> (
    PullStateView,
    PullActionView,
) {
    match decoded_archive(decoded) {
        Ok(archive) => (
            PullStateView { stage: PullStage::Unpacking, ..s },
            PullActionView::Unpack(archive),
        ),
        Err(error) => failed(s, error),
    }
}

/// The answer to the blob of the current layer: its size is checked, then
/// it is decompressed. A blob of the wrong size fails the pull before
/// anything of it is decompressed or unpacked.
pub open spec fn after_layer(s: PullStateView, blob: Result<Seq<u8>, Cause>) -> (
    PullStateView,
    PullActionView,
) {
    if s.index >= s.layers.len() {
        failed(s, RuntimeErrorView::OutOfOrder)
    } else {
        match blob {
            Ok(blob) => match size_checked(s.layers[s.index as int], blob.len()) {
                Ok(()) => after_decode(s, gzip_member(blob)),
                Err(error) => failed(s, error),
            },
            Err(cause) => failed(
                s,
                RuntimeErrorView::LayerFetchError { digest: s.layers[s.index as int].digest, cause },
            ),
        }
    }
}

/// The answer to the report of an unpacking: after a layer that was
/// unpacked, the next layer of the manifest is asked for, or the pull is
/// complete; a layer that could not be unpacked fails the pull.
pub open spec fn after_unpack(registry: RegistryView, s: PullStateView, unpacked: bool) -> (
    PullStateView,
    PullActionView,
) {
    if s.index >= s.layers.len() {
        failed(s, RuntimeErrorView::OutOfOrder)
    } else if !unpacked {
        failed(s, RuntimeErrorView::LayerExtractionError(ExtractionFault::Archive))
    } else if s.index + 1 < s.layers.len() {
        (
            PullStateView { stage: PullStage::FetchingLayer, index: s.index + 1, ..s },
            PullActionView::FetchLayer(
                layer_request(registry, s.token, s.layers[s.index as int + 1].digest),
            ),
        )
    } else {
        (PullStateView { stage: PullStage::Pulled, ..s }, PullActionView::Done)
    }
}

/// One step of a pull: the state and the action that follow when `e`
/// arrives in state `s`. An event that the state does not await fails the
/// pull.
pub open spec fn pull_next(
    registry: RegistryView,
    platform: PlatformView,
    s: PullStateView,
    e: PullEventView,
) -> (PullStateView, PullActionView) {
    match (s.stage, e) {
        (PullStage::Start, PullEventView::Begin) => (
            PullStateView { stage: PullStage::Authenticating, ..s },
            PullActionView::RequestToken(token_request(registry.image_name)),
        ),
        (PullStage::Authenticating, PullEventView::Token(token)) => after_token(registry, s, token),
        (PullStage::ListingManifests, PullEventView::ManifestList(entries)) => after_manifest_list(
            registry,
            platform,
            s,
            entries,
        ),
        (PullStage::FetchingManifest, PullEventView::Manifest(layers)) => after_manifest(
            registry,
            s,
            layers,
        ),
        (PullStage::FetchingLayer, PullEventView::LayerBlob(blob)) => after_layer(s, blob),
        (PullStage::Unpacking, PullEventView::Unpacked(unpacked)) => after_unpack(
            registry,
            s,
            unpacked,
        ),
        _ => failed(s, RuntimeErrorView::OutOfOrder),
    }
}

impl PullState {
    /// The state of a pull that has not begun.
    pub fn new() -> (state: PullState)
        ensures
            state@ == PullStateView::initial(),
    {
        let state = PullState {
            stage: PullStage::Start,
            token: String::new(),
            layers: Vec::new(),
            index: 0,
        };
        assert(state@.layers =~= Seq::empty());
        state
    }

    /// Where the pull stands.
    pub fn stage(&self) -> (stage: PullStage)
        ensures
            stage == self@.stage,
    {
        self.stage
    }

    /// The position of the layer that is being fetched or unpacked.
    pub fn index(&self) -> (index: usize)
        ensures
            index == self@.index,
    {
        self.index
    }

    /// The number of layers of the manifest, once it was fetched.
    pub fn layer_count(&self) -> (count: usize)
        ensures
            count == self@.layers.len(),
    {
        self.layers.len()
    }

    /// Ends the pull in failure.
    fn fail(self, error: RuntimeError) -> (out: (PullState, PullAction))
        ensures
            (out.0@, out.1@) == failed(self@, error@),
    {
        (PullState { stage: PullStage::Failed, ..self }, PullAction::Fail(error))
    }

    /// Answers the token service's reply.
    fn on_token(self, registry: &Registry, reply: Reply<AuthToken>) -> (out: (PullState, PullAction))
        ensures
            (out.0@, out.1@) == after_token(registry@, self@, PullEvent::Token(reply)@->Token_0),
    {
        match registry.authenticate(reply) {
            Ok(authenticated) => {
                let request = authenticated.manifest_list_request();
                (
                    PullState {
                        stage: PullStage::ListingManifests,
                        token: authenticated.token,
                        ..self
                    },
                    PullAction::FetchManifestList(request),
                )
            },
            Err(error) => self.fail(error),
        }
    }

    /// Answers the manifest list.
    fn on_manifest_list(
        self,
        registry: &Registry,
        platform: &Platform,
        reply: Reply<Manifests>,
    ) -> (out: (PullState, PullAction))
        ensures
            (out.0@, out.1@) == after_manifest_list(
                registry@,
                platform@,
                self@,
                PullEvent::ManifestList(reply)@->ManifestList_0,
            ),
    {
        let PullState { stage, token, layers, index } = self;
        let authenticated = AuthenticatedRegistry::new(registry, token);
        match authenticated.get_manifest_list(reply) {
            Ok(manifests) => {
                let fitting = manifests.retain_platform(platform);
                if fitting.is_empty() {
                    PullState { stage, token: authenticated.token, layers, index }.fail(
                        RuntimeError::NoMatchingPlatform,
                    )
                } else {
                    let request = authenticated.manifest_request();
                    (
                        PullState {
                            stage: PullStage::FetchingManifest,
                            token: authenticated.token,
                            layers,
                            index,
                        },
                        PullAction::FetchManifest(request),
                    )
                }
            },
            Err(error) => PullState { stage, token: authenticated.token, layers, index }.fail(
                error,
            ),
        }
    }

    /// Answers the manifest.
    fn on_manifest(self, registry: &Registry, reply: Reply<Manifest>) -> (out: (
        PullState,
        PullAction,
    ))
        ensures
            (out.0@, out.1@) == after_manifest(
                registry@,
                self@,
                PullEvent::Manifest(reply)@->Manifest_0,
            ),
    {
        let PullState { stage, token, layers, index } = self;
        let authenticated = AuthenticatedRegistry::new(registry, token);
        match authenticated.get_manifest(reply) {
            Ok(manifest) => {
                if manifest.layers.len() == 0 {
                    PullState { stage, token: authenticated.token, layers, index }.fail(
                        RuntimeError::EmptyManifest,
                    )
                } else {
                    let request = authenticated.layer_request(manifest.layers[0].digest.as_str());
                    (
                        PullState {
                            stage: PullStage::FetchingLayer,
                            token: authenticated.token,
                            layers: manifest.layers,
                            index: 0,
                        },
                        PullAction::FetchLayer(request),
                    )
                }
            },
            Err(error) => PullState { stage, token: authenticated.token, layers, index }.fail(
                error,
            ),
        }
    }

    /// Answers the decompression of the current layer's blob: hands the
    /// archive out for unpacking, or fails the pull with a
    /// `LayerExtractionError`.
    pub fn layer_decoded(self, decoded: Option<Vec<u8>>) -> (out: (PullState, PullAction))
        ensures
            (out.0@, out.1@) == after_decode(self@, optional_bytes(decoded)),
    {
        match archive_from(decoded) {
            Ok(archive) => (
                PullState { stage: PullStage::Unpacking, ..self },
                PullAction::Unpack(archive),
            ),
            Err(error) => self.fail(error),
        }
    }

    /// Answers the blob of the current layer.
    fn on_layer(self, registry: &Registry, reply: Reply<bytes::Bytes>) -> (out: (
        PullState,
        PullAction,
    ))
        ensures
            (out.0@, out.1@) == after_layer(self@, PullEvent::LayerBlob(reply)@->LayerBlob_0),
    {
        if self.index >= self.layers.len() {
            return self.fail(RuntimeError::OutOfOrder);
        }
        let PullState { stage, token, layers, index } = self;
        let authenticated = AuthenticatedRegistry::new(registry, token);
        let fetched = authenticated.get_layer(layers[index].digest.as_str(), reply);
        let state = PullState { stage, token: authenticated.token, layers, index };
        match fetched {
            Ok(blob) => match state.layers[state.index].open_checked(&blob) {
                Ok(decoded) => state.layer_decoded(decoded),
                Err(error) => state.fail(error),
            },
            Err(error) => state.fail(error),
        }
    }

    /// Answers the report of an unpacking.
    fn on_unpacked(self, registry: &Registry, unpacked: bool) -> (out: (PullState, PullAction))
        ensures
            (out.0@, out.1@) == after_unpack(registry@, self@, unpacked),
    {
        if self.index >= self.layers.len() {
            self.fail(RuntimeError::OutOfOrder)
        } else if !unpacked {
            self.fail(RuntimeError::LayerExtractionError(ExtractionFault::Archive))
        } else if self.index + 1 < self.layers.len() {
            let PullState { stage, token, layers, index } = self;
            let authenticated = AuthenticatedRegistry::new(registry, token);
            let request = authenticated.layer_request(layers[index + 1].digest.as_str());
            (
                PullState {
                    stage: PullStage::FetchingLayer,
                    token: authenticated.token,
                    layers,
                    index: index + 1,
                },
                PullAction::FetchLayer(request),
            )
        } else {
            (PullState { stage: PullStage::Pulled, ..self }, PullAction::Done)
        }
    }
}

/// Takes a pull one step further: answers the event that the driver
/// reports with the state that follows and the next thing to do.
pub fn pull_image(registry: &Registry, platform: &Platform, state: PullState, event: PullEvent) -> (out:
    (PullState, PullAction))
    ensures
        (out.0@, out.1@) == pull_next(registry@, platform@, state@, event@),
{
    match (state.stage, event) {
        (PullStage::Start, PullEvent::Begin) => {
            let request = registry.auth_token_request();
            (
                PullState { stage: PullStage::Authenticating, ..state },
                PullAction::RequestToken(request),
            )
        },
        (PullStage::Authenticating, PullEvent::Token(reply)) => state.on_token(registry, reply),
        (PullStage::ListingManifests, PullEvent::ManifestList(reply)) => state.on_manifest_list(
            registry,
            platform,
            reply,
        ),
        (PullStage::FetchingManifest, PullEvent::Manifest(reply)) => state.on_manifest(
            registry,
            reply,
        ),
        (PullStage::FetchingLayer, PullEvent::LayerBlob(reply)) => state.on_layer(registry, reply),
        (PullStage::Unpacking, PullEvent::Unpacked(unpacked)) => state.on_unpacked(
            registry,
            unpacked,
        ),
        (_, _) => state.fail(RuntimeError::OutOfOrder),
    }
}

} // verus!
