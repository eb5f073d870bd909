use vstd::prelude::*;
use std::collections::BTreeMap;
use k8s_openapi::apimachinery::pkg::runtime::RawExtension;
use crate::authentication::{UserInfo, UserInfoView};
use crate::error::ReviewError;
use crate::meta::{Status, StatusView};
use crate::outside::{base64_encode, base64_text};

verus! {

/// A group, a version and a kind: together they name a type of API object.
#[derive(Debug, Clone, PartialEq)]
pub struct GroupVersionKind {
    pub group: String,
    pub version: String,
    pub kind: String,
}

/// The mathematical content of a [`GroupVersionKind`].
pub struct GroupVersionKindView {
    pub group: Seq<char>,
    pub version: Seq<char>,
    pub kind: Seq<char>,
}

impl View for GroupVersionKind {
    type V = GroupVersionKindView;

    open spec fn view(&self) -> GroupVersionKindView {
        GroupVersionKindView { group: self.group@, version: self.version@, kind: self.kind@ }
    }
}

impl Default for GroupVersionKind {
    fn default() -> (empty: GroupVersionKind)
        ensures
            empty@ == (GroupVersionKindView { group: Seq::empty(), version: Seq::empty(), kind: Seq::empty() }),
    {
        GroupVersionKind { group: String::new(), version: String::new(), kind: String::new() }
    }
}

/// A group, a version and a resource: together they name a collection of API
/// objects.
#[derive(Debug, Clone, PartialEq)]
pub struct GroupVersionResource {
    pub group: String,
    pub version: String,
    pub resource: String,
}

/// The mathematical content of a [`GroupVersionResource`].
pub struct GroupVersionResourceView {
    pub group: Seq<char>,
    pub version: Seq<char>,
    pub resource: Seq<char>,
}

impl View for GroupVersionResource {
    type V = GroupVersionResourceView;

    open spec fn view(&self) -> GroupVersionResourceView {
        GroupVersionResourceView {
            group: self.group@,
            version: self.version@,
            resource: self.resource@,
        }
    }
}

impl Default for GroupVersionResource {
    fn default() -> (empty: GroupVersionResource)
        ensures
            empty@ == (GroupVersionResourceView {
                group: Seq::empty(),
                version: Seq::empty(),
                resource: Seq::empty(),
            }),
    {
        GroupVersionResource {
            group: String::new(),
            version: String::new(),
            resource: String::new(),
        }
    }
}

/// What the API server asks an admission webhook: may this operation on this
/// object go ahead?
///
/// The object under review is a raw JSON payload. It can be taken out once,
/// with [`AdmissionRequest::get_object`]; after that the request holds none.
#[derive(Debug, Clone, PartialEq)]
pub struct AdmissionRequest {
    pub uid: String,
    pub kind: GroupVersionKind,
    pub resource: GroupVersionResource,
    pub sub_resource: Option<String>,
    pub request_kind: Option<GroupVersionKind>,
    pub request_resource: Option<GroupVersionResource>,
    pub request_sub_resource: Option<String>,
    pub name: Option<String>,
    pub namespace: Option<String>,
    pub operation: String,
    pub user_info: UserInfo,
    pub object: Option<RawExtension>,
    pub old_object: Option<RawExtension>,
    pub dry_run: Option<bool>,
    pub options: Option<RawExtension>,
}

/// The mathematical content of an [`AdmissionRequest`]. The payloads stand
/// for themselves.
pub struct AdmissionRequestView {
    pub uid: Seq<char>,
    pub kind: GroupVersionKindView,
    pub resource: GroupVersionResourceView,
    pub sub_resource: Option<Seq<char>>,
    pub request_kind: Option<GroupVersionKindView>,
    pub request_resource: Option<GroupVersionResourceView>,
    pub request_sub_resource: Option<Seq<char>>,
    pub name: Option<Seq<char>>,
    pub namespace: Option<Seq<char>>,
    pub operation: Seq<char>,
    pub user_info: UserInfoView,
    pub object: Option<RawExtension>,
    pub old_object: Option<RawExtension>,
    pub dry_run: Option<bool>,
    pub options: Option<RawExtension>,
}

impl View for AdmissionRequest {
    type V = AdmissionRequestView;

    open spec fn view(&self) -> AdmissionRequestView {
        AdmissionRequestView {
            uid: self.uid@,
            kind: self.kind@,
            resource: self.resource@,
            sub_resource: self.sub_resource.deep_view(),
            request_kind: match self.request_kind {
                Some(kind) => Some(kind@),
                None => None,
            },
            request_resource: match self.request_resource {
                Some(resource) => Some(resource@),
                None => None,
            },
            request_sub_resource: self.request_sub_resource.deep_view(),
            name: self.name.deep_view(),
            namespace: self.namespace.deep_view(),
            operation: self.operation@,
            user_info: self.user_info@,
            object: self.object,
            old_object: self.old_object,
            dry_run: self.dry_run,
            options: self.options,
        }
    }
}

impl Default for AdmissionRequest {
    fn default() -> (empty: AdmissionRequest)
        ensures
            empty@ == (AdmissionRequestView {
                uid: Seq::empty(),
                kind: GroupVersionKindView {
                    group: Seq::empty(),
                    version: Seq::empty(),
                    kind: Seq::empty(),
                },
                resource: GroupVersionResourceView {
                    group: Seq::empty(),
                    version: Seq::empty(),
                    resource: Seq::empty(),
                },
                sub_resource: None,
                request_kind: None,
                request_resource: None,
                request_sub_resource: None,
                name: None,
                namespace: None,
                operation: Seq::empty(),
                user_info: UserInfoView::empty(),
                object: None,
                old_object: None,
                dry_run: None,
                options: None,
            }),
    {
        AdmissionRequest {
            uid: String::new(),
            kind: GroupVersionKind::default(),
            resource: GroupVersionResource::default(),
            sub_resource: None,
            request_kind: None,
            request_resource: None,
            request_sub_resource: None,
            name: None,
            namespace: None,
            operation: String::new(),
            user_info: UserInfo::default(),
            object: None,
            old_object: None,
            dry_run: None,
            options: None,
        }
    }
}

impl AdmissionRequest {
    /// Whether the object under review is still in the request.
    pub open spec fn holds_object(self) -> bool {
        self.object is Some
    }

    /// This request once its object has been taken out.
    pub open spec fn without_object(self) -> AdmissionRequest {
        AdmissionRequest { object: None, ..self }
    }

    /// Takes the object under review out of the request and decodes it with
    /// `decode`, for which `serde_json::from_value` on the payload's JSON
    /// value is the usual choice.
    ///
    /// Whatever comes of it, the request holds no object afterwards, so the
    /// object can be had once only. A request without an object gives
    /// [`ReviewError::NoObject`] and `decode` is not called; an object that
    /// `decode` turns down gives [`ReviewError::Json`] with its failure text.
    pub fn get_object<T, F>(&mut self, decode: F) -> (object: Result<T, ReviewError>) where
        F: FnOnce(RawExtension) -> Result<T, serde_json::Error>,

        requires
            old(self).object matches Some(raw) ==> call_requires(decode, (raw,)),
        ensures
            *final(self) == old(self).without_object(),
            !old(self).holds_object() ==> object == Err::<T, ReviewError>(ReviewError::NoObject),
            old(self).object matches Some(raw) ==> match object {
                Ok(value) => call_ensures(decode, (raw,), Ok(value)),
                Err(error) => exists|failure: serde_json::Error|
                    call_ensures(decode, (raw,), Err(failure)) && error.tells(failure),
            },
    {
        match self.object.take() {
            None => Err(ReviewError::NoObject),
            Some(raw) => match decode(raw) {
                Ok(value) => Ok(value),
                Err(failure) => Err(ReviewError::from_json(&failure)),
            },
        }
    }
}

/// Once an object has been asked for, the request holds none, whether it held
/// one before or not: asking again gives [`ReviewError::NoObject`].
pub proof fn lemma_object_is_taken_once(request: AdmissionRequest)
    ensures
        !request.without_object().holds_object(),
        request.without_object().without_object() == request.without_object(),
{
}

/// The webhook's answer to an admission request.
///
/// Where the answer changes the object, `patch` holds the base64 text of the
/// whole new object as JSON, and `patch_type` is `Full`: the patch is the
/// object that replaces the old one, not a list of differences.
#[derive(Debug, Clone, PartialEq)]
pub struct AdmissionResponse {
    pub uid: String,
    pub allowed: bool,
    pub status: Option<Status>,
    pub patch: Option<String>,
    pub patch_type: Option<String>,
    pub audit_annotations: Option<BTreeMap<String, String>>,
    pub warnings: Option<Vec<String>>,
}

/// The mathematical content of an [`AdmissionResponse`].
pub struct AdmissionResponseView {
    pub uid: Seq<char>,
    pub allowed: bool,
    pub status: Option<StatusView>,
    pub patch: Option<Seq<char>>,
    pub patch_type: Option<Seq<char>>,
    pub audit_annotations: Option<Map<Seq<char>, Seq<char>>>,
    pub warnings: Option<Seq<Seq<char>>>,
}

impl AdmissionResponseView {
    /// The bare decision on the request `uid`.
    pub open spec fn decided(uid: Seq<char>, allowed: bool) -> AdmissionResponseView {
        AdmissionResponseView {
            uid,
            allowed,
            status: None,
            patch: None,
            patch_type: None,
            audit_annotations: None,
            warnings: None,
        }
    }

    /// The refusal of the request `uid`, with the reason.
    pub open spec fn refused(uid: Seq<char>, message: Seq<char>) -> AdmissionResponseView {
        AdmissionResponseView {
            status: Some(StatusView::saying(message)),
            ..AdmissionResponseView::decided(uid, false)
        }
    }

    /// The acceptance of the request `uid` with the patch `patch`, which is
    /// the whole object that replaces the old one.
    pub open spec fn patched(uid: Seq<char>, patch: Seq<char>) -> AdmissionResponseView {
        AdmissionResponseView {
            patch: Some(patch),
            patch_type: Some("Full"@),
            ..AdmissionResponseView::decided(uid, true)
        }
    }

    /// The acceptance of the request `uid` with its object replaced by the
    /// one whose JSON is `json`: the patch is the base64 text of `json`.
    pub open spec fn replaced(uid: Seq<char>, json: Seq<u8>) -> AdmissionResponseView {
        AdmissionResponseView::patched(uid, base64_text(json))
    }

    /// A response has a patch exactly when it has a patch type, and the only
    /// patch type is `Full`.
    pub open spec fn well_formed(self) -> bool {
        &&& self.patch is Some <==> self.patch_type is Some
        &&& self.patch_type matches Some(patch_type) ==> patch_type == "Full"@
    }
}

impl View for AdmissionResponse {
    type V = AdmissionResponseView;

    open spec fn view(&self) -> AdmissionResponseView {
        AdmissionResponseView {
            uid: self.uid@,
            allowed: self.allowed,
            status: match self.status {
                Some(status) => Some(status@),
                None => None,
            },
            patch: self.patch.deep_view(),
            patch_type: self.patch_type.deep_view(),
            audit_annotations: self.audit_annotations.deep_view(),
            warnings: self.warnings.deep_view(),
        }
    }
}

impl Default for AdmissionResponse {
    fn default() -> (empty: AdmissionResponse)
        ensures
            empty@ == AdmissionResponseView::decided(Seq::empty(), false),
    {
        AdmissionResponse::new(String::new(), false)
    }
}

impl AdmissionResponse {
    /// The bare decision on the request `uid`.
    pub fn new(uid: String, allowed: bool) -> (response: AdmissionResponse)
        ensures
            response.uid == uid,
            response@ == AdmissionResponseView::decided(uid@, allowed),
            response@.well_formed(),
    {
        AdmissionResponse {
            uid,
            allowed,
            status: None,
            patch: None,
            patch_type: None,
            audit_annotations: None,
            warnings: None,
        }
    }

    /// Lets the request `uid` pass as it is.
    pub fn accept(uid: String) -> (response: AdmissionResponse)
        ensures
            response.uid == uid,
            response@ == AdmissionResponseView::decided(uid@, true),
            response@.well_formed(),
    {
        AdmissionResponse::new(uid, true)
    }

    /// Turns the request `uid` down without a reason.
    pub fn reject(uid: String) -> (response: AdmissionResponse)
        ensures
            response.uid == uid,
            response@ == AdmissionResponseView::decided(uid@, false),
            response@.well_formed(),
    {
        AdmissionResponse::new(uid, false)
    }

    /// Lets the request `uid` pass with `patch` as its patch, of the one
    /// patch type there is, `Full`. The patch is taken as it is: it is the
    /// caller's to make it the base64 text of the new object's JSON.
    pub fn with_patch(uid: String, patch: String) -> (response: AdmissionResponse)
        ensures
            response.uid == uid,
            response.patch == Some(patch),
            response@ == AdmissionResponseView::patched(uid@, patch@),
            response@.well_formed(),
    {
        let mut response = AdmissionResponse::accept(uid);
        response.patch_type = Some("Full".to_owned());
        response.patch = Some(patch);
        response
    }

    /// Lets the request `uid` pass with its object replaced by the one whose
    /// JSON text is `json`.
    pub fn replace(uid: String, json: &[u8]) -> (response: AdmissionResponse)
        ensures
            response.uid == uid,
            response@ == AdmissionResponseView::replaced(uid@, json@),
            response@.well_formed(),
    {
        AdmissionResponse::with_patch(uid, base64_encode(json))
    }

    /// Lets the request `uid` pass with its object replaced by
    /// `mutated_object`, which `to_json` writes as JSON; `serde_json::to_vec`
    /// is the usual choice.
    ///
    /// Where `to_json` fails there is no response, but
    /// [`ReviewError::Json`] with the failure's text.
    pub fn mutate<T, F>(uid: String, mutated_object: T, to_json: F) -> (response: Result<
        AdmissionResponse,
        ReviewError,
    >) where F: FnOnce(T) -> Result<Vec<u8>, serde_json::Error>
        requires
            call_requires(to_json, (mutated_object,)),
        ensures
            match response {
                Ok(response) => response.uid == uid && exists|json: Vec<u8>|
                    call_ensures(to_json, (mutated_object,), Ok(json)) && response@
                        == AdmissionResponseView::replaced(uid@, json@),
                Err(error) => exists|failure: serde_json::Error|
                    call_ensures(to_json, (mutated_object,), Err(failure)) && error.tells(failure),
            },
    {
        match to_json(mutated_object) {
            Ok(json) => Ok(AdmissionResponse::replace(uid, json.as_slice())),
            Err(failure) => Err(ReviewError::from_json(&failure)),
        }
    }

    /// Turns the request `uid` down and says why.
    pub fn reject_with_message(uid: String, message: String) -> (response: AdmissionResponse)
        ensures
            response.uid == uid,
            response@ == AdmissionResponseView::refused(uid@, message@),
            response@.well_formed(),
    {
        let mut ar = AdmissionResponse::reject(uid);
        let mut result = Status::default();
        result.message = Some(message);
        ar.status = Some(result);
        ar
    }
}

/// Every response that the builders make answers the request whose `uid`
/// they were given.
pub proof fn lemma_builders_keep_uid(
    uid: Seq<char>,
    message: Seq<char>,
    patch: Seq<char>,
    json: Seq<u8>,
)
    ensures
        AdmissionResponseView::decided(uid, true).uid == uid,
        AdmissionResponseView::decided(uid, false).uid == uid,
        AdmissionResponseView::refused(uid, message).uid == uid,
        AdmissionResponseView::patched(uid, patch).uid == uid,
        AdmissionResponseView::replaced(uid, json).uid == uid,
{
}

/// An acceptance allows and carries no status; a refusal does not allow,
/// with or without a reason; a replacement allows. No response is both.
pub proof fn lemma_accept_and_reject_exclude(uid: Seq<char>, message: Seq<char>, json: Seq<u8>)
    ensures
        AdmissionResponseView::decided(uid, true).allowed,
        AdmissionResponseView::decided(uid, true).status is None,
        !AdmissionResponseView::decided(uid, false).allowed,
        !AdmissionResponseView::refused(uid, message).allowed,
        AdmissionResponseView::refused(uid, message).status == Some(StatusView::saying(message)),
        AdmissionResponseView::replaced(uid, json).allowed,
        AdmissionResponseView::decided(uid, true) != AdmissionResponseView::decided(uid, false),
{
}

/// Every response that the builders make is well formed: only a replacement
/// has a patch, and its patch type is `Full`.
pub proof fn lemma_builders_are_well_formed(
    uid: Seq<char>,
    message: Seq<char>,
    patch: Seq<char>,
    json: Seq<u8>,
)
    ensures
        AdmissionResponseView::decided(uid, true).well_formed(),
        AdmissionResponseView::decided(uid, false).well_formed(),
        AdmissionResponseView::refused(uid, message).well_formed(),
        AdmissionResponseView::patched(uid, patch).well_formed(),
        AdmissionResponseView::patched(uid, patch).allowed,
        AdmissionResponseView::patched(uid, patch).patch == Some(patch),
        AdmissionResponseView::patched(uid, patch).patch_type == Some("Full"@),
        AdmissionResponseView::replaced(uid, json).well_formed(),
        AdmissionResponseView::replaced(uid, json).patch == Some(base64_text(json)),
        AdmissionResponseView::replaced(uid, json).patch_type == Some("Full"@),
{
}

/// An admission review: the request that the API server sends, or the
/// response that the webhook sends back.
#[derive(Debug, Clone, PartialEq)]
pub struct AdmissionReview {
    pub kind: Option<String>,
    pub api_version: Option<String>,
    pub request: Option<AdmissionRequest>,
    pub response: Option<AdmissionResponse>,
}

/// The mathematical content of an [`AdmissionReview`].
pub struct AdmissionReviewView {
    pub kind: Option<Seq<char>>,
    pub api_version: Option<Seq<char>>,
    pub request: Option<AdmissionRequestView>,
    pub response: Option<AdmissionResponseView>,
}

impl AdmissionReviewView {
    /// A review of the kind and API version that admission reviews have,
    /// with neither a request nor a response in it.
    pub open spec fn blank() -> AdmissionReviewView {
        AdmissionReviewView {
            kind: Some("AdmissionReview"@),
            api_version: Some("admission.k8s.io/v1"@),
            request: None,
            response: None,
        }
    }

    /// The review that carries `response` back: it holds the response and no
    /// request.
    pub open spec fn answering(response: AdmissionResponseView) -> AdmissionReviewView {
        AdmissionReviewView { response: Some(response), ..AdmissionReviewView::blank() }
    }
}

impl View for AdmissionReview {
    type V = AdmissionReviewView;

    open spec fn view(&self) -> AdmissionReviewView {
        AdmissionReviewView {
            kind: self.kind.deep_view(),
            api_version: self.api_version.deep_view(),
            request: match self.request {
                Some(request) => Some(request@),
                None => None,
            },
            response: match self.response {
                Some(response) => Some(response@),
                None => None,
            },
        }
    }
}

impl Default for AdmissionReview {
    fn default() -> (review: AdmissionReview)
        ensures
            review@ == AdmissionReviewView::blank(),
    {
        AdmissionReview {
            kind: Some("AdmissionReview".to_owned()),
            api_version: Some("admission.k8s.io/v1".to_owned()),
            request: None,
            response: None,
        }
    }
}

impl AdmissionReview {
    /// The review that carries `response` back to the API server.
    pub fn with_response(response: AdmissionResponse) -> (review: AdmissionReview)
        ensures
            review.response == Some(response),
            review@ == AdmissionReviewView::answering(response@),
    {
        let mut ar = AdmissionReview::default();
        ar.response = Some(response);
        ar
    }

    /// The review that lets the request `uid` pass as it is.
    pub fn accept(uid: String) -> (review: AdmissionReview)
        ensures
            review@ == AdmissionReviewView::answering(AdmissionResponseView::decided(uid@, true)),
    {
        AdmissionReview::with_response(AdmissionResponse::accept(uid))
    }

    /// The review that lets the request `uid` pass with its object replaced
    /// by the one whose JSON text is `json`.
    pub fn replace(uid: String, json: &[u8]) -> (review: AdmissionReview)
        ensures
            review@ == AdmissionReviewView::answering(
                AdmissionResponseView::replaced(uid@, json@),
            ),
    {
        AdmissionReview::with_response(AdmissionResponse::replace(uid, json))
    }

    /// The review that lets the request `uid` pass with its object replaced
    /// by `mutated_object`, which `to_json` writes as JSON.
    ///
    /// Where `to_json` fails there is no review, but [`ReviewError::Json`]
    /// with the failure's text.
    pub fn mutate<T, F>(uid: String, mutated_object: T, to_json: F) -> (review: Result<
        AdmissionReview,
        ReviewError,
    >) where F: FnOnce(T) -> Result<Vec<u8>, serde_json::Error>
        requires
            call_requires(to_json, (mutated_object,)),
        ensures
            match review {
                Ok(review) => exists|json: Vec<u8>|
                    call_ensures(to_json, (mutated_object,), Ok(json)) && review@
                        == AdmissionReviewView::answering(
                        AdmissionResponseView::replaced(uid@, json@),
                    ),
                Err(error) => exists|failure: serde_json::Error|
                    call_ensures(to_json, (mutated_object,), Err(failure)) && error.tells(failure),
            },
    {
        match AdmissionResponse::mutate(uid, mutated_object, to_json) {
            Ok(response) => Ok(AdmissionReview::with_response(response)),
            Err(error) => Err(error),
        }
    }

    /// The review that turns the request `uid` down without a reason.
    pub fn reject(uid: String) -> (review: AdmissionReview)
        ensures
            review@ == AdmissionReviewView::answering(AdmissionResponseView::decided(uid@, false)),
    {
        AdmissionReview::with_response(AdmissionResponse::reject(uid))
    }

    /// The review that turns the request `uid` down and says why.
    pub fn reject_with_message(uid: String, message: String) -> (review: AdmissionReview)
        ensures
            review@ == AdmissionReviewView::answering(
                AdmissionResponseView::refused(uid@, message@),
            ),
    {
        AdmissionReview::with_response(AdmissionResponse::reject_with_message(uid, message))
    }

    /// Takes the request out of a review. A review without a request is an
    /// error.
    pub fn get_request(self) -> (request: Result<AdmissionRequest, ReviewError>)
        ensures
            request == match self.request {
                Some(found) => Ok::<AdmissionRequest, ReviewError>(found),
                None => Err::<AdmissionRequest, ReviewError>(ReviewError::RequestNotSet),
            },
    {
        match self.request {
            Some(request) => Ok(request),
            None => Err(ReviewError::RequestNotSet),
        }
    }
}

/// A review made from a response holds that response, no request, and the
/// kind and API version of admission reviews.
pub proof fn lemma_answer_never_echoes_request(response: AdmissionResponseView)
    ensures
        AdmissionReviewView::answering(response).request is None,
        AdmissionReviewView::answering(response).response == Some(response),
        AdmissionReviewView::answering(response).kind == Some("AdmissionReview"@),
        AdmissionReviewView::answering(response).api_version == Some("admission.k8s.io/v1"@),
{
}

} // verus!
