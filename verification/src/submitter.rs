//! The bundle submitter: what is handed to the relay, and what the relay's
//! answer means. The transmission itself is the caller's, and is attempted
//! exactly once: a bundle sent again with a stale recency token would be
//! rejected anyway.

use vstd::prelude::*;
use crate::bundle::{Bundle, BundleIdentity, BundleView};
use crate::status::WorkflowError;

verus! {

/// How the channel to the relay failed.
#[derive(Clone, Copy, Debug, PartialEq, Eq, Structural)]
pub enum ChannelFailure {
    /// The network or the channel failed.
    Transport,
    /// The channel's credential is expired or invalid.
    Auth,
}

/// A bundle made ready for sending.
#[derive(Debug, PartialEq, Eq)]
pub struct Submission {
    /// The serialized transactions, in the order of the bundle.
    pub transactions: Vec<Vec<u8>>,
    /// The identity under which the relay will report on the bundle.
    pub identity: BundleIdentity,
}

/// A submission as a mathematical value.
pub struct SubmissionView {
    pub transactions: Seq<Seq<u8>>,
    pub identity: Seq<Seq<u8>>,
}

/// The views of a list of byte strings, in order.
pub open spec fn byte_views(list: Seq<Vec<u8>>) -> Seq<Seq<u8>> {
    Seq::new(list.len(), |i: int| list[i]@)
}

impl View for Submission {
    type V = SubmissionView;

    open spec fn view(&self) -> SubmissionView {
        SubmissionView { transactions: byte_views(self.transactions@), identity: self.identity@ }
    }
}

/// The error that a channel failure aborts the run with.
pub open spec fn channel_error(failure: ChannelFailure) -> WorkflowError {
    match failure {
        ChannelFailure::Transport => WorkflowError::TransportError,
        ChannelFailure::Auth => WorkflowError::AuthError,
    }
}

/// What is sent for a bundle, and the identity it will be known by.
pub open spec fn submission_of(bundle: BundleView) -> SubmissionView {
    SubmissionView { transactions: bundle.wire_transactions(), identity: bundle.identity() }
}

/// What a submission attempt yields: the identity where the relay
/// acknowledged, else the error of the failure.
pub open spec fn concluded(
    identity: Seq<Seq<u8>>,
    outcome: Result<(), ChannelFailure>,
) -> Result<Seq<Seq<u8>>, WorkflowError> {
    match outcome {
        Ok(_) => Ok(identity),
        Err(failure) => Err(channel_error(failure)),
    }
}

impl ChannelFailure {
    /// The error that this failure aborts a run with.
    pub fn error(&self) -> (r: WorkflowError)
        ensures
            r == channel_error(*self),
    {
        match self {
            ChannelFailure::Transport => WorkflowError::TransportError,
            ChannelFailure::Auth => WorkflowError::AuthError,
        }
    }
}

impl Submission {
    /// Makes a bundle ready for sending: the wire form of each transaction
    /// in order, and the bundle's identity.
    pub fn prepare(bundle: &Bundle) -> (r: Submission)
        ensures
            r@ == submission_of(bundle@),
    {
        let transactions = bundle.wire_transactions();
        assert(byte_views(transactions@) =~= bundle@.wire_transactions());
        Submission { transactions, identity: bundle.identity() }
    }

    /// Reads the outcome of the one transmission attempt.
    pub fn conclude(identity: BundleIdentity, outcome: Result<(), ChannelFailure>) -> (r: Result<
        BundleIdentity,
        WorkflowError,
    >)
        ensures
            match r {
                Ok(known) => concluded(identity@, outcome) == Ok::<Seq<Seq<u8>>, WorkflowError>(
                    known@,
                ),
                Err(e) => concluded(identity@, outcome) == Err::<Seq<Seq<u8>>, WorkflowError>(e),
            },
    {
        match outcome {
            Ok(_) => Ok(identity),
            Err(failure) => Err(failure.error()),
        }
    }
}

} // verus!
