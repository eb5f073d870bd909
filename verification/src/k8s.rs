//! A runner that hands the whole envelope to the decision function, and a
//! sample authenticator for it.

use vstd::prelude::*;
use crate::authentication::{
    TokenReview, TokenReviewStatus, TokenReviewStatusView, TokenReviewView, UserInfo,
    UserInfoView,
};
use crate::error::{carries, json_result, ReviewError};
use crate::Response;

verus! {

/// What comes in: the review to decide on, and the settings that the host
/// keeps for the decision function.
#[derive(Debug, Clone, PartialEq)]
pub struct Request<T, S> {
    pub request: T,
    pub settings: S,
}

impl<T, S> Request<T, S> {
    /// The envelope around `request` and `settings`.
    pub fn new(request: T, settings: S) -> (envelope: Self)
        ensures
            envelope.request == request,
            envelope.settings == settings,
    {
        Self { request, settings }
    }
}

/// The settings of the sample authenticator: the one token that it accepts,
/// and the user that the token stands for.
#[derive(Debug, Clone, PartialEq)]
pub struct Settings {
    pub token: String,
    pub uid: String,
    pub user: String,
    pub groups: Vec<String>,
}

/// The mathematical content of a [`Settings`].
pub struct SettingsView {
    pub token: Seq<char>,
    pub uid: Seq<char>,
    pub user: Seq<char>,
    pub groups: Seq<Seq<char>>,
}

impl SettingsView {
    /// The settings that hold where the host gives none.
    pub open spec fn fallback() -> SettingsView {
        SettingsView {
            token: "my-test-token"@,
            uid: "1337"@,
            user: "my-user"@,
            groups: seq!["system:masters"@],
        }
    }

    /// The settings in force: the host's, or the fallback.
    pub open spec fn in_force(given: Option<Settings>) -> SettingsView {
        match given {
            Some(settings) => settings@,
            None => SettingsView::fallback(),
        }
    }

    /// What the sample authenticator says of `token` under these settings:
    /// the one token stands for the user, any other is invalid.
    pub open spec fn verdict(self, token: Seq<char>) -> TokenReviewStatusView {
        if token == self.token {
            TokenReviewStatusView {
                authenticated: Some(true),
                user: Some(UserInfoView::known(self.uid, self.user, self.groups)),
                ..TokenReviewStatusView::empty()
            }
        } else {
            TokenReviewStatusView {
                authenticated: Some(false),
                error: Some("invalid token"@),
                ..TokenReviewStatusView::empty()
            }
        }
    }
}

impl View for Settings {
    type V = SettingsView;

    open spec fn view(&self) -> SettingsView {
        SettingsView {
            token: self.token@,
            uid: self.uid@,
            user: self.user@,
            groups: self.groups.deep_view(),
        }
    }
}

impl Settings {
    /// The settings that hold where the host gives none.
    pub fn fallback() -> (settings: Settings)
        ensures
            settings@ == SettingsView::fallback(),
    {
        let groups = vec!["system:masters".to_owned()];
        assert(groups.deep_view() =~= seq!["system:masters"@]);
        Settings {
            token: "my-test-token".to_owned(),
            uid: "1337".to_owned(),
            user: "my-user".to_owned(),
            groups,
        }
    }
}

/// The sample authenticator. A review without a token is an error; the token
/// of the settings in force stands for their user; any other token is
/// answered as invalid.
pub fn authenticate(req: Request<TokenReview, Option<Settings>>) -> (answer: Result<
    TokenReview,
    ReviewError,
>)
    ensures
        match req.request.spec.token {
            None => answer matches Err(ReviewError::Message(text)) && text@ == "missing token"@,
            Some(token) => answer matches Ok(review) && review@ == TokenReviewView::answering(
                SettingsView::in_force(req.settings).verdict(token@),
            ),
        },
{
    let tr = req.request;
    let settings = req.settings;
    let token = match tr.spec.token {
        Some(token) => token,
        None => {
            return Err(ReviewError::Message("missing token".to_owned()));
        },
    };

    let mut response = TokenReview::default();
    let mut status = TokenReviewStatus::default();

    let settings = match settings {
        Some(settings) => settings,
        None => Settings::fallback(),
    };

    if token == settings.token {
        status.authenticated = Some(true);
        status.user = Some(
            UserInfo {
                username: Some(settings.user),
                uid: Some(settings.uid),
                groups: Some(settings.groups),
                extra: None,
            },
        );
    } else {
        status.authenticated = Some(false);
        status.error = Some("invalid token".to_owned());
    }

    response.status = Some(status);

    Ok(response)
}

/// A decision function on whole inputs of type `I`, bound to the outcome
/// envelope.
#[verifier::reject_recursive_types(I)]
#[verifier::reject_recursive_types(O)]
#[verifier::reject_recursive_types(F)]
pub struct Reviewer<I, O, F> {
    review: F,
    shape: core::marker::PhantomData<(I, O)>,
}

impl<I, O, F: Fn(I) -> Result<O, ReviewError>> Reviewer<I, O, F> {
    /// The decision function that was bound.
    pub closed spec fn decision(self) -> F {
        self.review
    }

    /// Holds when `outcome` is what a decision on `review` may come to.
    pub open spec fn decides(self, review: I, outcome: Response<O>) -> bool {
        exists|result: Result<O, ReviewError>|
            call_ensures(self.decision(), (review,), result) && outcome.answers(result)
    }

    /// Holds when `outcome` is what is made of `decoded`, the result of
    /// reading the input: a decision where the input was read, and else the
    /// report of the reading's failure, in the failure's own words.
    pub open spec fn responds(
        self,
        decoded: Result<I, serde_json::Error>,
        outcome: Response<O>,
    ) -> bool {
        match decoded {
            Ok(review) => self.decides(review, outcome),
            Err(failure) => exists|error: ReviewError|
                error.tells(failure) && outcome.reports(error.text()),
        }
    }

    /// Holds when `output` is what a run on `input` may give, with `decode`
    /// to read the input and `encode` to write the outcome.
    pub open spec fn runs<D, E>(
        self,
        input: &[u8],
        decode: D,
        encode: E,
        output: Result<Vec<u8>, ReviewError>,
    ) -> bool where
        D: FnOnce(&[u8]) -> Result<I, serde_json::Error>,
        E: FnOnce(Response<O>) -> Result<Vec<u8>, serde_json::Error>,
     {
        exists|
            decoded: Result<I, serde_json::Error>,
            outcome: Response<O>,
            encoded: Result<Vec<u8>, serde_json::Error>,
        |
            call_ensures(decode, (input,), decoded) && self.responds(decoded, outcome)
                && outcome.well_formed() && call_ensures(encode, (outcome,), encoded)
                && carries(encoded, output)
    }

    /// Binds the decision function `func` to the outcome envelope.
    pub fn new(func: F) -> (reviewer: Self)
        ensures
            reviewer.decision() == func,
    {
        Self { review: func, shape: core::marker::PhantomData }
    }

    /// Makes the outcome of one invocation from what reading the input gave.
    /// A failure to read is no failure of the run: it is reported in the
    /// outcome, as a failure of the decision function is, and the decision
    /// function is not called.
    pub fn respond(&self, decoded: Result<I, serde_json::Error>) -> (outcome: Response<O>)
        requires
            decoded matches Ok(review) ==> call_requires(self.decision(), (review,)),
        ensures
            self.responds(decoded, outcome),
            outcome.well_formed(),
    {
        match decoded {
            Err(failure) => {
                let error = ReviewError::from_json(&failure);
                Response::failed(error.message())
            },
            Ok(review) => Response::from_result((self.review)(review)),
        }
    }

    /// One run from bytes to bytes: reads the input with `decode`, decides,
    /// and writes the outcome with `encode`.
    ///
    /// The run fails only where `encode` does. Input that `decode` cannot
    /// read gives an outcome that reports the failure.
    pub fn raw_run<D, E>(&self, input: &[u8], decode: D, encode: E) -> (output: Result<
        Vec<u8>,
        ReviewError,
    >) where
        D: FnOnce(&[u8]) -> Result<I, serde_json::Error>,
        E: FnOnce(Response<O>) -> Result<Vec<u8>, serde_json::Error>,

        requires
            call_requires(decode, (input,)),
            forall|review: I|
                call_ensures(decode, (input,), Ok(review)) ==> call_requires(
                    self.decision(),
                    (review,),
                ),
            forall|outcome: Response<O>|
                outcome.well_formed() ==> call_requires(encode, (outcome,)),
        ensures
            self.runs(input, decode, encode, output),
    {
        let decoded = decode(input);
        let resp = self.respond(decoded);
        let encoded = encode(resp);
        json_result(encoded)
    }
}

/// Input that cannot be read never ends a run: the outcome then holds no
/// response, and an error.
pub proof fn lemma_unreadable_input_is_reported<I, O, F: Fn(I) -> Result<O, ReviewError>>(
    reviewer: Reviewer<I, O, F>,
    failure: serde_json::Error,
    outcome: Response<O>,
)
    requires
        reviewer.responds(Err(failure), outcome),
    ensures
        outcome.response is None,
        outcome.error is Some,
        outcome.well_formed(),
{
}

/// One run from bytes to bytes of the decision function `run_fn`, which takes
/// the whole envelope.
pub fn raw_json_runner<I, O, S, F, D, E>(input: &[u8], run_fn: F, decode: D, encode: E) -> (output:
    Result<Vec<u8>, ReviewError>) where
    F: Fn(Request<I, S>) -> Result<O, ReviewError>,
    D: FnOnce(&[u8]) -> Result<Request<I, S>, serde_json::Error>,
    E: FnOnce(Response<O>) -> Result<Vec<u8>, serde_json::Error>,

    requires
        call_requires(decode, (input,)),
        forall|envelope: Request<I, S>|
            call_ensures(decode, (input,), Ok(envelope)) ==> call_requires(run_fn, (envelope,)),
        forall|outcome: Response<O>| outcome.well_formed() ==> call_requires(encode, (outcome,)),
    ensures
        exists|reviewer: Reviewer<Request<I, S>, O, F>|
            reviewer.decision() == run_fn && reviewer.runs(input, decode, encode, output),
{
    Reviewer::new(run_fn).raw_run(input, decode, encode)
}

} // verus!
