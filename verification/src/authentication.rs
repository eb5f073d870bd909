use vstd::prelude::*;
use std::collections::BTreeMap;

verus! {

/// What an authenticator knows of a user.
#[derive(Debug, Clone, PartialEq)]
pub struct UserInfo {
    /// Further facts that the authenticator supplies.
    pub extra: Option<BTreeMap<String, Vec<String>>>,
    /// The groups that the user belongs to.
    pub groups: Option<Vec<String>>,
    /// A value that identifies the user across time.
    pub uid: Option<String>,
    /// The name that identifies the user among the active users.
    pub username: Option<String>,
}

/// The mathematical content of a [`UserInfo`].
pub struct UserInfoView {
    pub extra: Option<Map<Seq<char>, Seq<Seq<char>>>>,
    pub groups: Option<Seq<Seq<char>>>,
    pub uid: Option<Seq<char>>,
    pub username: Option<Seq<char>>,
}

impl UserInfoView {
    /// A user of whom nothing is known.
    pub open spec fn empty() -> UserInfoView {
        UserInfoView { extra: None, groups: None, uid: None, username: None }
    }

    /// A user known by identifier, name and groups.
    pub open spec fn known(
        uid: Seq<char>,
        username: Seq<char>,
        groups: Seq<Seq<char>>,
    ) -> UserInfoView {
        UserInfoView { extra: None, groups: Some(groups), uid: Some(uid), username: Some(username) }
    }
}

impl View for UserInfo {
    type V = UserInfoView;

    open spec fn view(&self) -> UserInfoView {
        UserInfoView {
            extra: self.extra.deep_view(),
            groups: self.groups.deep_view(),
            uid: self.uid.deep_view(),
            username: self.username.deep_view(),
        }
    }
}

impl Default for UserInfo {
    fn default() -> (user: UserInfo)
        ensures
            user@ == UserInfoView::empty(),
    {
        UserInfo { extra: None, groups: None, uid: None, username: None }
    }
}

/// The question of a token review: whose token is this?
#[derive(Debug, Clone, PartialEq)]
pub struct TokenReviewSpec {
    /// The audiences that the resource server presented with the token.
    pub audiences: Option<Vec<String>>,
    /// The opaque bearer token.
    pub token: Option<String>,
}

/// The mathematical content of a [`TokenReviewSpec`].
pub struct TokenReviewSpecView {
    pub audiences: Option<Seq<Seq<char>>>,
    pub token: Option<Seq<char>>,
}

impl TokenReviewSpecView {
    /// A spec that asks nothing.
    pub open spec fn empty() -> TokenReviewSpecView {
        TokenReviewSpecView { audiences: None, token: None }
    }
}

impl View for TokenReviewSpec {
    type V = TokenReviewSpecView;

    open spec fn view(&self) -> TokenReviewSpecView {
        TokenReviewSpecView {
            audiences: self.audiences.deep_view(),
            token: self.token.deep_view(),
        }
    }
}

impl Default for TokenReviewSpec {
    fn default() -> (spec: TokenReviewSpec)
        ensures
            spec@ == TokenReviewSpecView::empty(),
    {
        TokenReviewSpec { audiences: None, token: None }
    }
}

/// The answer of a token review.
#[derive(Debug, Clone, PartialEq)]
pub struct TokenReviewStatus {
    /// The audiences that the authenticator accepts for the token.
    pub audiences: Option<Vec<String>>,
    /// Whether the token belongs to a known user.
    pub authenticated: Option<bool>,
    /// Why the token could not be checked.
    pub error: Option<String>,
    /// The user that the token belongs to.
    pub user: Option<UserInfo>,
}

/// The mathematical content of a [`TokenReviewStatus`].
pub struct TokenReviewStatusView {
    pub audiences: Option<Seq<Seq<char>>>,
    pub authenticated: Option<bool>,
    pub error: Option<Seq<char>>,
    pub user: Option<UserInfoView>,
}

impl TokenReviewStatusView {
    /// A status that says nothing.
    pub open spec fn empty() -> TokenReviewStatusView {
        TokenReviewStatusView { audiences: None, authenticated: None, error: None, user: None }
    }

    /// The status that turns a token away, with or without a reason.
    pub open spec fn refused(error: Option<Seq<char>>) -> TokenReviewStatusView {
        TokenReviewStatusView { audiences: None, authenticated: Some(false), error, user: None }
    }

    /// The status that vouches for a user.
    pub open spec fn vouched(user: UserInfoView) -> TokenReviewStatusView {
        TokenReviewStatusView {
            audiences: None,
            authenticated: Some(true),
            error: None,
            user: Some(user),
        }
    }
}

impl View for TokenReviewStatus {
    type V = TokenReviewStatusView;

    open spec fn view(&self) -> TokenReviewStatusView {
        TokenReviewStatusView {
            audiences: self.audiences.deep_view(),
            authenticated: self.authenticated,
            error: self.error.deep_view(),
            user: match self.user {
                Some(user) => Some(user@),
                None => None,
            },
        }
    }
}

impl Default for TokenReviewStatus {
    fn default() -> (status: TokenReviewStatus)
        ensures
            status@ == TokenReviewStatusView::empty(),
    {
        TokenReviewStatus { audiences: None, authenticated: None, error: None, user: None }
    }
}

/// A token review: the question that the API server asks an authenticator,
/// and the authenticator's answer. Object metadata is not part of the model.
#[derive(Debug, Clone, PartialEq)]
pub struct TokenReview {
    /// The token to be checked.
    pub spec: TokenReviewSpec,
    /// The authenticator's answer, once there is one.
    pub status: Option<TokenReviewStatus>,
}

/// The mathematical content of a [`TokenReview`].
pub struct TokenReviewView {
    pub spec: TokenReviewSpecView,
    pub status: Option<TokenReviewStatusView>,
}

impl TokenReviewView {
    /// A review that asks nothing and answers `status`.
    pub open spec fn answering(status: TokenReviewStatusView) -> TokenReviewView {
        TokenReviewView { spec: TokenReviewSpecView::empty(), status: Some(status) }
    }
}

impl View for TokenReview {
    type V = TokenReviewView;

    open spec fn view(&self) -> TokenReviewView {
        TokenReviewView {
            spec: self.spec@,
            status: match self.status {
                Some(status) => Some(status@),
                None => None,
            },
        }
    }
}

impl Default for TokenReview {
    fn default() -> (review: TokenReview)
        ensures
            review@ == (TokenReviewView { spec: TokenReviewSpecView::empty(), status: None }),
    {
        TokenReview { spec: TokenReviewSpec::default(), status: None }
    }
}

} // verus!
