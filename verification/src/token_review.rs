use vstd::prelude::*;
use crate::authentication::{
    TokenReview, TokenReviewStatus, TokenReviewStatusView, TokenReviewView, UserInfo,
    UserInfoView,
};
use crate::error::ReviewError;

verus! {

/// Takes the token out of a review. A review without a token is an error.
pub fn get_token(tr: TokenReview) -> (token: Result<String, ReviewError>)
    ensures
        token == match tr.spec.token {
            Some(found) => Ok::<String, ReviewError>(found),
            None => Err::<String, ReviewError>(ReviewError::NoToken),
        },
{
    match tr.spec.token {
        Some(token) => Ok(token),
        None => Err(ReviewError::NoToken),
    }
}

/// The review that carries `status` back to the API server: it holds the
/// status and nothing else.
pub fn response_from_status(status: TokenReviewStatus) -> (review: TokenReview)
    ensures
        review.status == Some(status),
        review@ == TokenReviewView::answering(status@),
{
    let mut tr = TokenReview::default();
    tr.status = Some(status);
    tr
}

/// The status for a token that could not be checked, with the reason.
pub fn error(message: String) -> (status: TokenReviewStatus)
    ensures
        status.error == Some(message),
        status@ == TokenReviewStatusView::refused(Some(message@)),
{
    TokenReviewStatus {
        audiences: None,
        authenticated: Some(false),
        user: None,
        error: Some(message),
    }
}

/// The status for a token that belongs to nobody.
pub fn reject() -> (status: TokenReviewStatus)
    ensures
        status@ == TokenReviewStatusView::refused(None),
{
    TokenReviewStatus { audiences: None, authenticated: Some(false), user: None, error: None }
}

/// The status for a token that belongs to the user with the given identifier,
/// name and groups.
pub fn authenticate(uid: String, username: String, groups: Vec<String>) -> (status:
    TokenReviewStatus)
    ensures
        status@ == TokenReviewStatusView::vouched(
            UserInfoView::known(uid@, username@, groups.deep_view()),
        ),
{
    TokenReviewStatus {
        audiences: None,
        authenticated: Some(true),
        user: Some(
            UserInfo {
                uid: Some(uid),
                username: Some(username),
                groups: Some(groups),
                extra: None,
            },
        ),
        error: None,
    }
}

} // verus!
