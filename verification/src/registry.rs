//! Image references and the requests that a pull sends to the registry.

use vstd::prelude::*;
use crate::error::{ManifestKind, RuntimeError, RuntimeErrorView};
use crate::manifest::{AuthToken, Manifest, Manifests};
use crate::reply::Reply;
use crate::text::{find_last, last_position};

verus! {

/// Where tokens are issued.
pub const AUTH_URL: &'static str = "https://auth.docker.io/token";

/// The root of the registry's API.
pub const REGISTRY_URL: &'static str = "https://registry.hub.docker.com/v2";

/// The service that tokens are asked for.
pub const AUTH_SERVICE: &'static str = "registry.docker.io";

/// The media type that asks for a manifest list.
pub const MANIFEST_LIST_MEDIA_TYPE: &'static str =
    "application/vnd.docker.distribution.manifest.list.v2+json";

/// The media type that asks for the manifest of one platform.
pub const MANIFEST_MEDIA_TYPE: &'static str =
    "application/vnd.docker.distribution.manifest.v2+json";

/// The tag of a reference that names none.
pub const DEFAULT_TAG: &'static str = "latest";

/// The name part of an image reference: what stands before its last `:`,
/// or all of it where it holds none.
pub open spec fn image_name_of(image: Seq<char>) -> Seq<char> {
    match last_position(image, ':') {
        Some(i) => image.subrange(0, i),
        None => image,
    }
}

/// The tag part of an image reference: what follows its last `:`, or
/// `latest` where it holds none.
pub open spec fn reference_of(image: Seq<char>) -> Seq<char> {
    match last_position(image, ':') {
        Some(i) => image.subrange(i + 1, image.len() as int),
        None => DEFAULT_TAG@,
    }
}

/// A reference without a `:` names the whole of itself as the repository,
/// and has the default tag.
pub proof fn lemma_default_tag(image: Seq<char>)
    requires
        !image.contains(':'),
    ensures
        reference_of(image) == DEFAULT_TAG@,
        image_name_of(image) == image,
{
    crate::text::lemma_last_position(image, ':');
}

/// A reference with a `:` is split at its last one: the name and the tag,
/// joined by a `:`, give the reference back, and the tag holds no `:`.
pub proof fn lemma_split_at_last_colon(image: Seq<char>)
    requires
        image.contains(':'),
    ensures
        image_name_of(image) + seq![':'] + reference_of(image) == image,
        !reference_of(image).contains(':'),
{
    crate::text::lemma_last_position(image, ':');
    let i = last_position(image, ':')->0;
    assert(image_name_of(image) + seq![':'] + reference_of(image) =~= image);
    let tag = reference_of(image);
    assert forall|j: int| 0 <= j < tag.len() implies tag[j] != ':' by {
        assert(tag[j] == image[i + 1 + j]);
    }
}

/// An image reference, taken apart. It does not change once it is made.
#[derive(Debug)]
pub struct Registry {
    image: String,
    image_name: String,
    reference: String,
}

/// The mathematical content of a [`Registry`].
pub struct RegistryView {
    /// The reference as it was given.
    pub image: Seq<char>,
    /// The repository's name.
    pub image_name: Seq<char>,
    /// The tag.
    pub reference: Seq<char>,
}

impl View for Registry {
    type V = RegistryView;

    closed spec fn view(&self) -> RegistryView {
        RegistryView { image: self.image@, image_name: self.image_name@, reference: self.reference@ }
    }
}

impl Registry {
    /// Parses an image reference by splitting it at its last `:`.
    pub fn new(image: &str) -> (registry: Registry)
        ensures
            registry@.image == image@,
            registry@.image_name == image_name_of(image@),
            registry@.reference == reference_of(image@),
            !image@.contains(':') ==> registry@.image_name == image@ && registry@.reference
                == DEFAULT_TAG@,
    {
        proof {
            crate::text::lemma_last_position(image@, ':');
        }
        match find_last(image, ':') {
            Some(i) => {
                let n: usize = image.unicode_len();
                Registry {
                    image: String::from_str(image),
                    image_name: String::from_str(image.substring_char(0, i)),
                    reference: String::from_str(image.substring_char(i + 1, n)),
                }
            },
            None => Registry {
                image: String::from_str(image),
                image_name: String::from_str(image),
                reference: String::from_str(DEFAULT_TAG),
            },
        }
    }
}

/// One request to the registry or to its token service, ready to be sent.
#[derive(Debug, PartialEq, Eq)]
pub struct Request {
    /// The address, without a query.
    pub url: String,
    /// The query's parameters, in order, not yet encoded.
    pub query: Vec<(String, String)>,
    /// The bearer token to authorise with, if any.
    pub bearer: Option<String>,
    /// The value of the `Accept` header, if any.
    pub accept: Option<String>,
}

/// The mathematical content of a [`Request`].
pub struct RequestView {
    pub url: Seq<char>,
    pub query: Seq<(Seq<char>, Seq<char>)>,
    pub bearer: Option<Seq<char>>,
    pub accept: Option<Seq<char>>,
}

/// The character view of an optional string.
pub open spec fn optional_view(s: Option<String>) -> Option<Seq<char>> {
    match s {
        Some(s) => Some(s@),
        None => None,
    }
}

impl View for Request {
    type V = RequestView;

    open spec fn view(&self) -> RequestView {
        RequestView {
            url: self.url@,
            query: self.query@.map_values(|p: (String, String)| (p.0@, p.1@)),
            bearer: optional_view(self.bearer),
            accept: optional_view(self.accept),
        }
    }
}

/// The scope that allows pulling from the repository `image_name`.
pub open spec fn pull_scope(image_name: Seq<char>) -> Seq<char> {
    "repository:library/"@ + image_name + ":pull"@
}

/// The request for a token that allows pulling from `image_name`.
pub open spec fn token_request(image_name: Seq<char>) -> RequestView {
    RequestView {
        url: AUTH_URL@,
        query: seq![("service"@, AUTH_SERVICE@), ("scope"@, pull_scope(image_name))],
        bearer: None,
        accept: None,
    }
}

/// The address of the manifest documents of a tag.
pub open spec fn manifest_url(registry: RegistryView) -> Seq<char> {
    REGISTRY_URL@ + "/library/"@ + registry.image_name + "/manifests/"@ + registry.reference
}

/// The address of the blob that `digest` names.
pub open spec fn blob_url(registry: RegistryView, digest: Seq<char>) -> Seq<char> {
    REGISTRY_URL@ + "/library/"@ + registry.image_name + "/blobs/"@ + digest
}

/// The request for the manifest list of a tag.
pub open spec fn manifest_list_request(registry: RegistryView, token: Seq<char>) -> RequestView {
    RequestView {
        url: manifest_url(registry),
        query: Seq::empty(),
        bearer: Some(token),
        accept: Some(MANIFEST_LIST_MEDIA_TYPE@),
    }
}

/// The request for the manifest of a tag. It names the tag again, not the
/// digest of an entry of the manifest list: the registry answers with the
/// manifest of its default platform.
pub open spec fn manifest_request(registry: RegistryView, token: Seq<char>) -> RequestView {
    RequestView {
        url: manifest_url(registry),
        query: Seq::empty(),
        bearer: Some(token),
        accept: Some(MANIFEST_MEDIA_TYPE@),
    }
}

/// The request for the blob of the layer that `digest` names.
pub open spec fn layer_request(
    registry: RegistryView,
    token: Seq<char>,
    digest: Seq<char>,
) -> RequestView {
    RequestView {
        url: blob_url(registry, digest),
        query: Seq::empty(),
        bearer: Some(token),
        accept: Some(MANIFEST_MEDIA_TYPE@),
    }
}

/// The token of a settled reply, or the failure of the authentication.
pub open spec fn token_of(reply: Reply<AuthToken>) -> Result<AuthToken, RuntimeError> {
    match reply.settled() {
        Ok(token) => Ok(token),
        Err(cause) => Err(RuntimeError::AuthError(cause)),
    }
}

/// The document of a settled reply, or the failure to get a manifest
/// document of the given kind.
pub open spec fn document_of<T>(kind: ManifestKind, reply: Reply<T>) -> Result<T, RuntimeError> {
    match reply.settled() {
        Ok(document) => Ok(document),
        Err(cause) => Err(RuntimeError::ManifestError(kind, cause)),
    }
}

/// Builds a request that authorises with `token` and accepts `accept`.
fn authorised(url: String, token: &str, accept: &str) -> (request: Request)
    ensures
        request@ == (RequestView {
            url: url@,
            query: Seq::empty(),
            bearer: Some(token@),
            accept: Some(accept@),
        }),
{
    let request = Request {
        url,
        query: Vec::new(),
        bearer: Some(String::from_str(token)),
        accept: Some(String::from_str(accept)),
    };
    assert(request@.query =~= Seq::empty());
    request
}

impl Registry {
    /// The reference as it was given.
    pub fn image(&self) -> (image: &str)
        ensures
            image@ == self@.image,
    {
        self.image.as_str()
    }

    /// The repository's name.
    pub fn image_name(&self) -> (image_name: &str)
        ensures
            image_name@ == self@.image_name,
    {
        self.image_name.as_str()
    }

    /// The tag.
    pub fn reference(&self) -> (reference: &str)
        ensures
            reference@ == self@.reference,
    {
        self.reference.as_str()
    }

    /// The request that asks the token service for a token to pull this
    /// image's repository.
    pub fn auth_token_request(&self) -> (request: Request)
        ensures
            request@ == token_request(self@.image_name),
    {
        let mut scope = String::from_str("repository:library/");
        scope.append(self.image_name.as_str());
        scope.append(":pull");
        let mut query: Vec<(String, String)> = Vec::new();
        query.push((String::from_str("service"), String::from_str(AUTH_SERVICE)));
        query.push((String::from_str("scope"), scope));
        let request = Request { url: String::from_str(AUTH_URL), query, bearer: None, accept: None };
        assert(request@.query =~= token_request(self@.image_name).query);
        request
    }

    /// What the token service's reply amounts to: the token, or an
    /// `AuthError` with the first reason why there is none.
    pub fn get_auth_token(&self, reply: Reply<AuthToken>) -> (out: Result<AuthToken, RuntimeError>)
        ensures
            out == token_of(reply),
    {
        match reply.settle() {
            Ok(token) => Ok(token),
            Err(cause) => Err(RuntimeError::AuthError(cause)),
        }
    }

    /// Turns the token service's reply into a registry that can be asked
    /// for manifests and layers, or into an `AuthError`.
    pub fn authenticate<'a>(&'a self, reply: Reply<AuthToken>) -> (out: Result<
        AuthenticatedRegistry<'a>,
        RuntimeError,
    >)
        ensures
            match token_of(reply) {
                Ok(token) => out == Ok::<AuthenticatedRegistry<'a>, RuntimeError>(
                    AuthenticatedRegistry { registry: self, token: token.token },
                ),
                Err(error) => out == Err::<AuthenticatedRegistry<'a>, RuntimeError>(error),
            },
    {
        match self.get_auth_token(reply) {
            Ok(token) => Ok(AuthenticatedRegistry::new(self, token.token)),
            Err(error) => Err(error),
        }
    }

    /// The address of this image's manifest documents.
    fn manifests_address(&self) -> (url: String)
        ensures
            url@ == manifest_url(self@),
    {
        let mut url = String::from_str(REGISTRY_URL);
        url.append("/library/");
        url.append(self.image_name.as_str());
        url.append("/manifests/");
        url.append(self.reference.as_str());
        url
    }

    /// The address of the blob that `digest` names in this image's
    /// repository.
    fn blob_address(&self, digest: &str) -> (url: String)
        ensures
            url@ == blob_url(self@, digest@),
    {
        let mut url = String::from_str(REGISTRY_URL);
        url.append("/library/");
        url.append(self.image_name.as_str());
        url.append("/blobs/");
        url.append(digest);
        url
    }
}

/// An image reference together with a token that allows pulling it.
#[derive(Debug)]
pub struct AuthenticatedRegistry<'a> {
    pub registry: &'a Registry,
    pub token: String,
}

impl<'a> AuthenticatedRegistry<'a> {
    /// Joins a registry and the token that was issued for it.
    pub fn new(registry: &'a Registry, token: String) -> (authenticated: Self)
        ensures
            authenticated == (AuthenticatedRegistry { registry, token }),
    {
        AuthenticatedRegistry { registry, token }
    }

    /// The request for the manifest list of the image's tag.
    pub fn manifest_list_request(&self) -> (request: Request)
        ensures
            request@ == manifest_list_request(self.registry@, self.token@),
    {
        authorised(self.registry.manifests_address(), self.token.as_str(), MANIFEST_LIST_MEDIA_TYPE)
    }

    /// What the reply to the manifest list request amounts to: the list,
    /// or a `ManifestError` with the first reason why there is none.
    pub fn get_manifest_list(&self, reply: Reply<Manifests>) -> (out: Result<
        Manifests,
        RuntimeError,
    >)
        ensures
            out == document_of(ManifestKind::List, reply),
    {
        match reply.settle() {
            Ok(manifests) => Ok(manifests),
            Err(cause) => Err(RuntimeError::ManifestError(ManifestKind::List, cause)),
        }
    }

    /// The request for the manifest of the image's tag.
    pub fn manifest_request(&self) -> (request: Request)
        ensures
            request@ == manifest_request(self.registry@, self.token@),
    {
        authorised(self.registry.manifests_address(), self.token.as_str(), MANIFEST_MEDIA_TYPE)
    }

    /// What the reply to the manifest request amounts to: the manifest, or
    /// a `ManifestError` with the first reason why there is none.
    pub fn get_manifest(&self, reply: Reply<Manifest>) -> (out: Result<Manifest, RuntimeError>)
        ensures
            out == document_of(ManifestKind::Image, reply),
    {
        match reply.settle() {
            Ok(manifest) => Ok(manifest),
            Err(cause) => Err(RuntimeError::ManifestError(ManifestKind::Image, cause)),
        }
    }

    /// The request for the blob of the layer that `digest` names.
    pub fn layer_request(&self, digest: &str) -> (request: Request)
        ensures
            request@ == layer_request(self.registry@, self.token@, digest@),
    {
        authorised(self.registry.blob_address(digest), self.token.as_str(), MANIFEST_MEDIA_TYPE)
    }

    /// What the reply to the request for the blob of `digest` amounts to:
    /// the blob, or a `LayerFetchError` that names the digest and the first
    /// reason why there is no blob.
    pub fn get_layer(&self, digest: &str, reply: Reply<bytes::Bytes>) -> (out: Result<
        bytes::Bytes,
        RuntimeError,
    >)
        ensures
            match reply.settled() {
                Ok(blob) => out == Ok::<bytes::Bytes, RuntimeError>(blob),
                Err(cause) => out matches Err(error) && error@
                    == (RuntimeErrorView::LayerFetchError { digest: digest@, cause }),
            },
    {
        match reply.settle() {
            Ok(blob) => Ok(blob),
            Err(cause) => Err(
                RuntimeError::LayerFetchError { digest: String::from_str(digest), cause },
            ),
        }
    }
}

} // verus!
