//! How a run ends: the final status of a submitted bundle, and the errors
//! that abort a run before there is one.

use vstd::prelude::*;

verus! {

/// What became of a submitted bundle.
#[derive(Clone, Debug, PartialEq, Eq)]
pub enum FinalStatus {
    /// The relay accepted the bundle.
    Confirmed,
    /// The relay rejected or dropped the bundle, for this reason.
    Rejected(String),
    /// A subscription closed or failed while the result was awaited.
    ConnectionLost,
    /// No result arrived within the overall wait budget.
    DeadlineExceeded,
}

/// A final status as a mathematical value.
pub enum FinalStatusView {
    Confirmed,
    Rejected(Seq<char>),
    ConnectionLost,
    DeadlineExceeded,
}

impl View for FinalStatus {
    type V = FinalStatusView;

    open spec fn view(&self) -> FinalStatusView {
        match self {
            FinalStatus::Confirmed => FinalStatusView::Confirmed,
            FinalStatus::Rejected(reason) => FinalStatusView::Rejected(reason@),
            FinalStatus::ConnectionLost => FinalStatusView::ConnectionLost,
            FinalStatus::DeadlineExceeded => FinalStatusView::DeadlineExceeded,
        }
    }
}

/// Why a run was aborted.
#[derive(Clone, Copy, Debug, PartialEq, Eq, Structural)]
pub enum WorkflowError {
    /// The network or the channel failed; the whole run may be tried again.
    TransportError,
    /// The credential is expired or invalid; the channel must be
    /// authenticated anew.
    AuthError,
    /// The number of transactions asked for is zero or above the limit.
    InvalidBundleSize,
    /// Key material is missing or invalid.
    SigningError,
}

/// The end of a run as a mathematical value.
pub type EndView = Result<FinalStatusView, WorkflowError>;

/// The view of the end of a run.
pub open spec fn end_view(end: Result<FinalStatus, WorkflowError>) -> EndView {
    match end {
        Ok(status) => Ok(status@),
        Err(e) => Err(e),
    }
}

} // verus!
