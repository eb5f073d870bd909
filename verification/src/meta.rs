use vstd::prelude::*;

verus! {

/// The status that goes with an answer that is no object: how the operation
/// went, and why. List metadata and the extended details of the failure are
/// not part of the model.
#[derive(Debug, Clone, PartialEq)]
pub struct Status {
    /// The suggested HTTP return code.
    pub code: Option<i32>,
    /// A description of the status for a human reader.
    pub message: Option<String>,
    /// A description of the failure for a machine.
    pub reason: Option<String>,
    /// `Success` or `Failure`.
    pub status: Option<String>,
}

/// The mathematical content of a [`Status`].
pub struct StatusView {
    pub code: Option<i32>,
    pub message: Option<Seq<char>>,
    pub reason: Option<Seq<char>>,
    pub status: Option<Seq<char>>,
}

impl StatusView {
    /// A status that says nothing.
    pub open spec fn empty() -> StatusView {
        StatusView { code: None, message: None, reason: None, status: None }
    }

    /// A status that holds a message and nothing else.
    pub open spec fn saying(message: Seq<char>) -> StatusView {
        StatusView { message: Some(message), ..StatusView::empty() }
    }
}

impl View for Status {
    type V = StatusView;

    open spec fn view(&self) -> StatusView {
        StatusView {
            code: self.code,
            message: self.message.deep_view(),
            reason: self.reason.deep_view(),
            status: self.status.deep_view(),
        }
    }
}

impl Default for Status {
    fn default() -> (status: Status)
        ensures
            status@ == StatusView::empty(),
    {
        Status { code: None, message: None, reason: None, status: None }
    }
}

} // verus!
