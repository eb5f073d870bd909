//! Run-once plumbing for Kubernetes review webhooks.
//!
//! A host starts one invocation for each callback of the API server, hands it
//! an envelope `{request, settings}` and reads back an outcome
//! `{response, error}`. This crate holds the envelope, the runner that binds
//! a decision function to it, the admission review model with its response
//! builders, and the status builders of token and subject access reviews.
//!
//! The crate does no I/O and holds no codec of its own: whoever runs a review
//! hands the runner the functions that read an envelope from bytes and write
//! an outcome to bytes, which stand on `serde_json` where the envelope is
//! JSON.

use vstd::prelude::*;
use crate::admission::AdmissionReview;
use crate::authentication::TokenReview;
use crate::authorization::SubjectAccessReview;
use crate::error::{carries, json_result, ReviewError};

pub mod admission;
pub mod authentication;
pub mod authorization;
pub mod error;
pub mod k8s;
pub mod magic;
pub mod meta;
pub mod outside;
pub mod subject_access_review;
pub mod token_review;

verus! {

/// What comes in: the review to decide on, and the settings that the host
/// keeps for the decision function.
#[derive(Debug, Clone, PartialEq)]
pub struct Request<T, S> {
    pub request: T,
    pub settings: S,
}

impl<T, S> Request<T, S> {
    /// The envelope around `request` and `settings`.
    pub fn new(request: T, settings: S) -> (envelope: Self)
        ensures
            envelope.request == request,
            envelope.settings == settings,
    {
        Self { request, settings }
    }
}

/// What goes out: the answered review, or the reason why there is none.
#[derive(Debug, Clone, PartialEq)]
pub struct Response<T> {
    pub response: Option<T>,
    pub error: Option<String>,
}

impl<T> Response<T> {
    /// An outcome holds either a response or an error, never both and never
    /// neither.
    pub open spec fn well_formed(self) -> bool {
        self.response is Some <==> self.error is None
    }

    /// Holds when this outcome reports the failure whose text is `text`.
    pub open spec fn reports(self, text: Seq<char>) -> bool {
        &&& self.response is None
        &&& self.error matches Some(message) && message@ == text
    }

    /// Holds when this outcome is what `result` comes to: the value as the
    /// response, or the error's text as the error.
    pub open spec fn answers(self, result: Result<T, ReviewError>) -> bool {
        match result {
            Ok(value) => self.response == Some(value) && self.error is None,
            Err(error) => self.reports(error.text()),
        }
    }

    /// The outcome that reports a failure in the words of `message`.
    pub fn failed(message: String) -> (outcome: Self)
        ensures
            outcome.response is None,
            outcome.error == Some(message),
            outcome.reports(message@),
            outcome.well_formed(),
    {
        Response { response: None, error: Some(message) }
    }

    /// The outcome that `result` comes to.
    pub fn from_result(result: Result<T, ReviewError>) -> (outcome: Self)
        ensures
            outcome.answers(result),
            outcome.well_formed(),
    {
        match result {
            Ok(response) => Response { response: Some(response), error: None },
            Err(err) => Response { response: None, error: Some(err.message()) },
        }
    }
}

/// A decision function bound to the envelope: reviews of type `I` come in
/// with settings of type `S`, and reviews of type `O` go out.
#[verifier::reject_recursive_types(I)]
#[verifier::reject_recursive_types(O)]
#[verifier::reject_recursive_types(S)]
#[verifier::reject_recursive_types(F)]
pub struct RequestRunner<I, O, S, F> {
    run_fn: F,
    shape: core::marker::PhantomData<(I, O, S)>,
}

impl<I, O, S, F: Fn(I, S) -> Result<O, ReviewError>> RequestRunner<I, O, S, F> {
    /// The decision function that this runner is bound to.
    pub closed spec fn decision(self) -> F {
        self.run_fn
    }

    /// Holds when `outcome` is what a decision on `envelope` may come to.
    pub open spec fn decides(self, envelope: Request<I, S>, outcome: Response<O>) -> bool {
        exists|result: Result<O, ReviewError>|
            call_ensures(self.decision(), (envelope.request, envelope.settings), result)
                && outcome.answers(result)
    }

    /// Holds when `outcome` is what the runner may make of `decoded`, the
    /// result of reading the envelope: a decision where there is an
    /// envelope, and else the report of the reading's failure, in the
    /// failure's own words.
    pub open spec fn responds(
        self,
        decoded: Result<Request<I, S>, serde_json::Error>,
        outcome: Response<O>,
    ) -> bool {
        match decoded {
            Ok(envelope) => self.decides(envelope, outcome),
            Err(failure) => exists|error: ReviewError|
                error.tells(failure) && outcome.reports(error.text()),
        }
    }

    /// Holds when `output` is what a run on `input` may give, with `decode`
    /// to read the envelope and `encode` to write the outcome.
    pub open spec fn runs<D, E>(
        self,
        input: &[u8],
        decode: D,
        encode: E,
        output: Result<Vec<u8>, ReviewError>,
    ) -> bool where
        D: FnOnce(&[u8]) -> Result<Request<I, S>, serde_json::Error>,
        E: FnOnce(Response<O>) -> Result<Vec<u8>, serde_json::Error>,
     {
        exists|
            decoded: Result<Request<I, S>, serde_json::Error>,
            outcome: Response<O>,
            encoded: Result<Vec<u8>, serde_json::Error>,
        |
            call_ensures(decode, (input,), decoded) && self.responds(decoded, outcome)
                && outcome.well_formed() && call_ensures(encode, (outcome,), encoded)
                && carries(encoded, output)
    }

    /// Binds the decision function `f` to the envelope.
    pub fn new(f: F) -> (runner: Self)
        ensures
            runner.decision() == f,
    {
        Self { run_fn: f, shape: core::marker::PhantomData }
    }

    /// Makes the outcome of one invocation from what reading the envelope
    /// gave. A failure to read is no failure of the run: it is reported in
    /// the outcome, as a failure of the decision function is.
    pub fn respond(&self, decoded: Result<Request<I, S>, serde_json::Error>) -> (outcome:
        Response<O>)
        requires
            decoded matches Ok(envelope) ==> call_requires(
                self.decision(),
                (envelope.request, envelope.settings),
            ),
        ensures
            self.responds(decoded, outcome),
            outcome.well_formed(),
    {
        match decoded {
            Err(failure) => {
                let error = ReviewError::from_json(&failure);
                Response::failed(error.message())
            },
            Ok(request) => {
                let result = (self.run_fn)(request.request, request.settings);
                Response::from_result(result)
            },
        }
    }

    /// One run from bytes to bytes: reads the envelope from `input` with
    /// `decode`, decides, and writes the outcome with `encode`.
    ///
    /// The run fails only where `encode` does. Input that `decode` cannot
    /// read gives an outcome that reports the failure.
    pub fn raw_run<D, E>(&self, input: &[u8], decode: D, encode: E) -> (output: Result<
        Vec<u8>,
        ReviewError,
    >) where
        D: FnOnce(&[u8]) -> Result<Request<I, S>, serde_json::Error>,
        E: FnOnce(Response<O>) -> Result<Vec<u8>, serde_json::Error>,

        requires
            call_requires(decode, (input,)),
            forall|envelope: Request<I, S>|
                call_ensures(decode, (input,), Ok(envelope)) ==> call_requires(
                    self.decision(),
                    (envelope.request, envelope.settings),
                ),
            forall|outcome: Response<O>|
                outcome.well_formed() ==> call_requires(encode, (outcome,)),
        ensures
            self.runs(input, decode, encode, output),
    {
        let decoded = decode(input);
        let response = self.respond(decoded);
        let encoded = encode(response);
        json_result(encoded)
    }
}

/// Input that cannot be read never ends a run: the outcome then holds no
/// response, and an error.
pub proof fn lemma_unreadable_input_is_reported<I, O, S, F: Fn(I, S) -> Result<O, ReviewError>>(
    runner: RequestRunner<I, O, S, F>,
    failure: serde_json::Error,
    outcome: Response<O>,
)
    requires
        runner.responds(Err(failure), outcome),
    ensures
        outcome.response is None,
        outcome.error is Some,
        outcome.well_formed(),
{
}

/// An outcome that answers a result is well formed: it holds the response
/// exactly when the decision succeeded, and the error's text exactly when
/// it failed.
pub proof fn lemma_outcome_is_response_or_error<T>(
    outcome: Response<T>,
    result: Result<T, ReviewError>,
)
    requires
        outcome.answers(result),
    ensures
        outcome.well_formed(),
        result is Ok <==> outcome.response is Some,
        result is Err <==> outcome.error is Some,
{
}

/// The role of an authenticator: it answers token reviews.
pub trait Authenticator<S> {
    /// Decides whose token the review holds.
    fn authenticate(tr: TokenReview, settings: S) -> Result<TokenReview, ReviewError>;
}

/// The role of an authorizer: it answers subject access reviews.
pub trait Authorizer<S> {
    /// Decides whether the action in the review is allowed.
    fn authorize(sar: SubjectAccessReview, settings: S) -> Result<SubjectAccessReview, ReviewError>;
}

/// The role of an admission controller: it answers admission reviews.
pub trait Admiter<S> {
    /// Decides whether the operation in the review may go ahead.
    fn validate(ar: AdmissionReview, settings: S) -> Result<AdmissionReview, ReviewError>;
}

/// The runner of the authenticator `A`.
pub fn authenticator_runner<S, A: Authenticator<S>>() -> (runner: RequestRunner<
    TokenReview,
    TokenReview,
    S,
    impl Fn(TokenReview, S) -> Result<TokenReview, ReviewError>,
>)
    ensures
        forall|tr: TokenReview, settings: S| call_requires(runner.decision(), (tr, settings)),
        forall|tr: TokenReview, settings: S, result: Result<TokenReview, ReviewError>|
            call_ensures(runner.decision(), (tr, settings), result) <==> call_ensures(
                A::authenticate,
                (tr, settings),
                result,
            ),
{
    RequestRunner::new(A::authenticate)
}

/// The runner of the authorizer `A`.
pub fn authorizer_runner<S, A: Authorizer<S>>() -> (runner: RequestRunner<
    SubjectAccessReview,
    SubjectAccessReview,
    S,
    impl Fn(SubjectAccessReview, S) -> Result<SubjectAccessReview, ReviewError>,
>)
    ensures
        forall|sar: SubjectAccessReview, settings: S|
            call_requires(runner.decision(), (sar, settings)),
        forall|
            sar: SubjectAccessReview,
            settings: S,
            result: Result<SubjectAccessReview, ReviewError>,
        |
            call_ensures(runner.decision(), (sar, settings), result) <==> call_ensures(
                A::authorize,
                (sar, settings),
                result,
            ),
{
    RequestRunner::new(A::authorize)
}

/// The runner of the admission controller `A`.
pub fn admiter_runner<S, A: Admiter<S>>() -> (runner: RequestRunner<
    AdmissionReview,
    AdmissionReview,
    S,
    impl Fn(AdmissionReview, S) -> Result<AdmissionReview, ReviewError>,
>)
    ensures
        forall|ar: AdmissionReview, settings: S| call_requires(runner.decision(), (ar, settings)),
        forall|ar: AdmissionReview, settings: S, result: Result<AdmissionReview, ReviewError>|
            call_ensures(runner.decision(), (ar, settings), result) <==> call_ensures(
                A::validate,
                (ar, settings),
                result,
            ),
{
    RequestRunner::new(A::validate)
}

} // verus!
