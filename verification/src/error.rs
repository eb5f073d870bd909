use vstd::prelude::*;

verus! {

/// Why a review could not be answered with a decision.
///
/// Every failure ends up as text in the `error` member of the outcome that is
/// handed back to the host; [`ReviewError::message`] gives that text.
#[derive(Debug, Clone, PartialEq, Eq)]
pub enum ReviewError {
    /// An admission review arrived without a request in it.
    RequestNotSet,
    /// An admission request holds no object: it never had one, or the object
    /// has been taken out before.
    NoObject,
    /// A token review arrived without a token in its spec.
    NoToken,
    /// JSON could not be read or written; the text is the codec's own.
    Json(String),
    /// A failure that the decision function describes in its own words.
    Message(String),
}

impl ReviewError {
    /// The text that stands for this error in an outcome.
    pub open spec fn text(self) -> Seq<char> {
        match self {
            ReviewError::RequestNotSet => "request not set in AdmissionReview"@,
            ReviewError::NoObject => "no object in admission request"@,
            ReviewError::NoToken => "no token in request"@,
            ReviewError::Json(text) => text@,
            ReviewError::Message(text) => text@,
        }
    }

    /// Renders the error as the text that the host will read.
    pub fn message(&self) -> (text: String)
        ensures
            text@ == self.text(),
    {
        match self {
            ReviewError::RequestNotSet => "request not set in AdmissionReview".to_owned(),
            ReviewError::NoObject => "no object in admission request".to_owned(),
            ReviewError::NoToken => "no token in request".to_owned(),
            ReviewError::Json(text) => text.clone(),
            ReviewError::Message(text) => text.clone(),
        }
    }

    /// Holds when this error is the JSON failure `failure` put into words:
    /// the variant is [`ReviewError::Json`], and its text is what the
    /// failure prints as.
    pub open spec fn tells(self, failure: serde_json::Error) -> bool {
        match self {
            ReviewError::Json(text) => vstd::string::to_string_from_display_ensures::<
                serde_json::Error,
            >(&failure, text),
            _ => false,
        }
    }

    /// Puts a JSON failure into words.
    pub fn from_json(failure: &serde_json::Error) -> (error: ReviewError)
        ensures
            error.tells(*failure),
    {
        ReviewError::Json(failure.to_string())
    }
}

/// Holds when `carried` is what becomes of the JSON codec's result `outcome`:
/// a value is kept, and a failure is put into words.
pub open spec fn carries<T>(
    outcome: Result<T, serde_json::Error>,
    carried: Result<T, ReviewError>,
) -> bool {
    match outcome {
        Ok(value) => carried == Ok::<T, ReviewError>(value),
        Err(failure) => match carried {
            Ok(_) => false,
            Err(error) => error.tells(failure),
        },
    }
}

/// Keeps the value that a JSON codec gave, or puts its failure into words.
pub fn json_result<T>(outcome: Result<T, serde_json::Error>) -> (carried: Result<T, ReviewError>)
    ensures
        carries(outcome, carried),
{
    match outcome {
        Ok(value) => Ok(value),
        Err(failure) => Err(ReviewError::from_json(&failure)),
    }
}

} // verus!
