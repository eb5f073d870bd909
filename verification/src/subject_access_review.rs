use vstd::prelude::*;
use crate::authorization::{
    SubjectAccessReview, SubjectAccessReviewStatus, SubjectAccessReviewStatusView,
    SubjectAccessReviewView,
};

verus! {

/// The review that carries `status` back to the API server: it holds the
/// status and nothing else.
pub fn response_from_status(status: SubjectAccessReviewStatus) -> (review: SubjectAccessReview)
    ensures
        review.status == Some(status),
        review@ == SubjectAccessReviewView::answering(status@),
{
    let mut sar = SubjectAccessReview::default();
    sar.status = Some(status);
    sar
}

/// `status` with `reason` as its reason; whatever reason it had is replaced.
pub fn with_reason(status: SubjectAccessReviewStatus, reason: String) -> (explained:
    SubjectAccessReviewStatus)
    ensures
        explained.reason == Some(reason),
        explained@ == status@.because(reason@),
{
    let mut status = status;
    status.reason = Some(reason);
    status
}

/// `status` with `denied` stated as given. The plain decisions of [`allow`] and
/// [`reject`] both state it as `false`; an authorizer that forbids an action
/// outright, whatever other authorizers say, states it as `true`.
pub fn with_denied(status: SubjectAccessReviewStatus, denied: bool) -> (stated:
    SubjectAccessReviewStatus)
    ensures
        stated@ == status@.denying(denied),
        stated.reason == status.reason,
        stated.evaluation_error == status.evaluation_error,
{
    let mut status = status;
    status.denied = Some(denied);
    status
}

/// The status that allows the action.
pub fn allow() -> (status: SubjectAccessReviewStatus)
    ensures
        status@ == SubjectAccessReviewStatusView::decided(true),
{
    SubjectAccessReviewStatus {
        allowed: true,
        denied: Some(false),
        evaluation_error: None,
        reason: None,
    }
}

/// The status that does not allow the action. It leaves `denied` at `false`:
/// the action is not allowed here, but another authorizer may still allow
/// it. To forbid the action outright, set `denied` on the result.
pub fn reject() -> (status: SubjectAccessReviewStatus)
    ensures
        status@ == SubjectAccessReviewStatusView::decided(false),
{
    SubjectAccessReviewStatus {
        allowed: false,
        denied: Some(false),
        evaluation_error: None,
        reason: None,
    }
}

} // verus!
