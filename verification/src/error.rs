//! The ways a transfer request can end without a transaction on the chain.

use crate::outcome::ResultCode;
use vstd::prelude::*;

verus! {

/// Why a transfer request was given up. None of these is retried: each stands
/// for a mistake in the configuration or a state of the chain that a second
/// attempt would meet again.
#[derive(Debug, PartialEq, Eq)]
pub enum TransferError {
    /// The wallet holds nothing under this alias for the kind asked for.
    UnknownAlias { alias: String },
    /// The wallet holds something under this alias, but it does not decode.
    MalformedIdentity { alias: String },
    /// The token's precision could not be learned from the network.
    DenominationQueryFailed,
    /// The transaction builder refused the intent.
    BuildFailed,
    /// At least one required signer has no key at hand.
    IncompleteSigningSet,
    /// A node answered, and its result code was not a success.
    SubmissionRejected { code: ResultCode },
    /// No answer came back from the network.
    SubmissionNetworkError,
}

/// A `TransferError` with its texts as sequences of characters.
pub enum TransferErrorView {
    UnknownAlias { alias: Seq<char> },
    MalformedIdentity { alias: Seq<char> },
    DenominationQueryFailed,
    BuildFailed,
    IncompleteSigningSet,
    SubmissionRejected { code: ResultCode },
    SubmissionNetworkError,
}

impl View for TransferError {
    type V = TransferErrorView;

    open spec fn view(&self) -> TransferErrorView {
        match *self {
            TransferError::UnknownAlias { alias } => TransferErrorView::UnknownAlias { alias: alias@ },
            TransferError::MalformedIdentity { alias } => TransferErrorView::MalformedIdentity {
                alias: alias@,
            },
            TransferError::DenominationQueryFailed => TransferErrorView::DenominationQueryFailed,
            TransferError::BuildFailed => TransferErrorView::BuildFailed,
            TransferError::IncompleteSigningSet => TransferErrorView::IncompleteSigningSet,
            TransferError::SubmissionRejected { code } => TransferErrorView::SubmissionRejected {
                code,
            },
            TransferError::SubmissionNetworkError => TransferErrorView::SubmissionNetworkError,
        }
    }
}

/// A result with both of its sides taken by their views.
pub open spec fn result_view<T: View, E: View>(result: Result<T, E>) -> Result<T::V, E::V> {
    match result {
        Ok(value) => Ok(value@),
        Err(error) => Err(error@),
    }
}

} // verus!
