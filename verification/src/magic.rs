//! Sample policies, one for each role. They show how the builders and the
//! roles fit together.

use vstd::prelude::*;
use crate::admission::{AdmissionResponseView, AdmissionReview, AdmissionReviewView};
use crate::authentication::{TokenReview, TokenReviewStatusView, TokenReviewView, UserInfoView};
use crate::authorization::{
    SubjectAccessReview, SubjectAccessReviewSpec, SubjectAccessReviewSpecView,
    SubjectAccessReviewStatusView, SubjectAccessReviewView,
};
use crate::error::ReviewError;
use crate::outside::{config_map_data_keys, config_map_keys};
use crate::subject_access_review;
use crate::token_review;
use crate::{Admiter, Authenticator, Authorizer};

verus! {

/// Whether `wanted` is one of `items`.
pub fn contains_text(items: &Vec<String>, wanted: &str) -> (found: bool)
    ensures
        found == items.deep_view().contains(wanted@),
{
    let needle = wanted.to_owned();
    let mut at: usize = 0;
    while at < items.len()
        invariant
            at <= items.len(),
            needle@ == wanted@,
            items.deep_view().len() == items.len(),
            forall|i: int| 0 <= i < at ==> items.deep_view()[i] != wanted@,
        decreases items.len() - at,
    {
        if items[at] == needle {
            assert(items.deep_view()[at as int] == wanted@);
            return true;
        }
        at += 1;
    }
    false
}

/// An authenticator that knows one token, `magic-token`, and one user.
pub struct MagicAuthenticator {}

impl MagicAuthenticator {
    /// The user that the magic token stands for.
    pub open spec fn user() -> UserInfoView {
        UserInfoView::known("0"@, "magic-user"@, seq!["magic-group"@])
    }

    /// What the authenticator says of `token`.
    pub open spec fn verdict(token: Seq<char>) -> TokenReviewStatusView {
        if token == "magic-token"@ {
            TokenReviewStatusView::vouched(MagicAuthenticator::user())
        } else {
            TokenReviewStatusView::refused(None)
        }
    }
}

impl Authenticator<Option<()>> for MagicAuthenticator {
    fn authenticate(tr: TokenReview, _settings: Option<()>) -> (answer: Result<
        TokenReview,
        ReviewError,
    >)
        ensures
            match tr.spec.token {
                None => answer == Err::<TokenReview, ReviewError>(ReviewError::NoToken),
                Some(token) => answer matches Ok(review) && review@ == TokenReviewView::answering(
                    MagicAuthenticator::verdict(token@),
                ),
            },
    {
        let token = match token_review::get_token(tr) {
            Ok(token) => token,
            Err(error) => {
                return Err(error);
            },
        };
        if token == "magic-token".to_owned() {
            let groups = vec!["magic-group".to_owned()];
            assert(groups.deep_view() =~= seq!["magic-group"@]);
            Ok(
                token_review::response_from_status(
                    token_review::authenticate("0".to_owned(), "magic-user".to_owned(), groups),
                ),
            )
        } else {
            Ok(token_review::response_from_status(token_review::reject()))
        }
    }
}

/// An authorizer that lets the members of `magic-group` use config maps, and
/// nobody anything else.
pub struct MagicAuthorizer {}

impl MagicAuthorizer {
    /// Whether the action is one that the authorizer allows: a member of
    /// `magic-group` asks for the resource `configmaps`.
    pub open spec fn allows(spec: SubjectAccessReviewSpecView) -> bool {
        &&& spec.groups matches Some(groups) && groups.contains("magic-group"@)
        &&& spec.resource_attributes matches Some(attributes) && attributes.resource == Some(
            "configmaps"@,
        )
    }

    /// Decides on the action that `spec` describes.
    pub fn decide(spec: &SubjectAccessReviewSpec) -> (allowed: bool)
        ensures
            allowed == MagicAuthorizer::allows(spec@),
    {
        let is_member = match &spec.groups {
            Some(groups) => contains_text(groups, "magic-group"),
            None => false,
        };
        let on_config_maps = match &spec.resource_attributes {
            Some(attributes) => match &attributes.resource {
                Some(resource) => *resource == "configmaps".to_owned(),
                None => false,
            },
            None => false,
        };
        is_member && on_config_maps
    }
}

impl Authorizer<()> for MagicAuthorizer {
    fn authorize(sar: SubjectAccessReview, _settings: ()) -> (answer: Result<
        SubjectAccessReview,
        ReviewError,
    >)
        ensures
            answer matches Ok(review) && review@ == SubjectAccessReviewView::answering(
                SubjectAccessReviewStatusView::decided(MagicAuthorizer::allows(sar.spec@)),
            ),
    {
        if MagicAuthorizer::decide(&sar.spec) {
            Ok(subject_access_review::response_from_status(subject_access_review::allow()))
        } else {
            Ok(subject_access_review::response_from_status(subject_access_review::reject()))
        }
    }
}

/// An admission controller that turns down every config map whose data has
/// the key `not-allowed-value`, and lets every other pass. An object that is
/// no config map is an error.
pub struct MagicValidator {}

impl MagicValidator {
    /// Whether a config map with the keys `keys` in its data, if it has
    /// data, is turned down.
    pub open spec fn forbids(keys: Option<Seq<Seq<char>>>) -> bool {
        keys matches Some(keys) && keys.contains("not-allowed-value"@)
    }

    /// The answer to the request `uid` on a config map with the keys `keys`.
    pub open spec fn verdict(uid: Seq<char>, keys: Option<Seq<Seq<char>>>) -> AdmissionReviewView {
        if MagicValidator::forbids(keys) {
            AdmissionReviewView::answering(
                AdmissionResponseView::refused(
                    uid,
                    "value 'not-allowed-value' not allowed in configmap"@,
                ),
            )
        } else {
            AdmissionReviewView::answering(AdmissionResponseView::decided(uid, true))
        }
    }

    /// Answers the request `uid` on a config map with the keys `keys` in its
    /// data, if it has data.
    pub fn decide(uid: String, keys: &Option<Vec<String>>) -> (review: AdmissionReview)
        ensures
            review@ == MagicValidator::verdict(uid@, keys.deep_view()),
    {
        let contains_not_allowed_value = match keys {
            Some(keys) => contains_text(keys, "not-allowed-value"),
            None => false,
        };
        if contains_not_allowed_value {
            AdmissionReview::reject_with_message(
                uid,
                "value 'not-allowed-value' not allowed in configmap".to_owned(),
            )
        } else {
            AdmissionReview::accept(uid)
        }
    }
}

impl Admiter<Option<()>> for MagicValidator {
    fn validate(ar: AdmissionReview, _settings: Option<()>) -> (answer: Result<
        AdmissionReview,
        ReviewError,
    >)
        ensures
            match ar.request {
                None => answer == Err::<AdmissionReview, ReviewError>(ReviewError::RequestNotSet),
                Some(request) => match request.object {
                    None => answer == Err::<AdmissionReview, ReviewError>(ReviewError::NoObject),
                    Some(raw) => match answer {
                        Ok(review) => config_map_data_keys(raw) matches Some(keys) && review@
                            == MagicValidator::verdict(request.uid@, keys),
                        Err(error) => config_map_data_keys(raw) is None && exists|
                            failure: serde_json::Error,
                        | error.tells(failure),
                    },
                },
            },
    {
        let mut request = match ar.get_request() {
            Ok(request) => request,
            Err(error) => {
                return Err(error);
            },
        };
        let keys = match request.get_object(config_map_keys) {
            Ok(keys) => keys,
            Err(error) => {
                return Err(error);
            },
        };
        Ok(MagicValidator::decide(request.uid, &keys))
    }
}

/// The magic authenticator vouches for the magic token, as the magic user,
/// and for no other token.
pub proof fn lemma_only_the_magic_token_is_vouched_for(token: Seq<char>)
    ensures
        token == "magic-token"@ ==> {
            let status = MagicAuthenticator::verdict(token);
            &&& status.authenticated == Some(true)
            &&& status.user matches Some(user) && user.username == Some("magic-user"@)
                && user.groups == Some(seq!["magic-group"@])
        },
        token != "magic-token"@ ==> MagicAuthenticator::verdict(token).authenticated == Some(
            false,
        ),
{
}

/// The magic authorizer allows exactly the actions of members of the magic
/// group on config maps.
pub proof fn lemma_only_magic_members_use_config_maps(spec: SubjectAccessReviewSpecView)
    ensures
        SubjectAccessReviewStatusView::decided(MagicAuthorizer::allows(spec)).allowed <==> (
        spec.groups is Some && spec.groups.unwrap().contains("magic-group"@)
            && spec.resource_attributes is Some && spec.resource_attributes.unwrap().resource
            == Some("configmaps"@)),
{
}

/// The magic validator turns a config map down, with a message that names
/// the key, exactly where its data has the key `not-allowed-value`; every
/// other config map is accepted. Either way the answer goes to the request
/// that asked.
pub proof fn lemma_only_the_forbidden_key_is_turned_down(
    uid: Seq<char>,
    keys: Option<Seq<Seq<char>>>,
)
    ensures
        MagicValidator::verdict(uid, keys).response matches Some(response) && response.uid == uid
            && response.allowed == !MagicValidator::forbids(keys) && (if MagicValidator::forbids(
            keys,
        ) {
            response.status matches Some(status) && status.message == Some(
                "value 'not-allowed-value' not allowed in configmap"@,
            )
        } else {
            response.status is None
        }),
{
}

} // verus!
