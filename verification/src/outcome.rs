//! What a node answered when a transaction was submitted, and what that means.

use crate::error::{result_view, TransferError, TransferErrorView};
use vstd::prelude::*;
use vstd::string::StringExecFns;

verus! {

/// Status that the chain's logic attaches to a transaction. A response that
/// arrived without a transport error may still carry a code other than `Success`.
#[derive(Clone, Copy, Debug, PartialEq, Eq, Structural)]
pub enum ResultCode {
    /// The transaction was accepted.
    Success,
    /// The transaction was refused, with the number the node gave.
    Failure(u32),
}

impl ResultCode {
    /// The number a node transmits for this code: zero for `Success`.
    pub open spec fn spec_value(self) -> u32 {
        match self {
            ResultCode::Success => 0,
            ResultCode::Failure(n) => n,
        }
    }

    /// The code a transmitted number stands for: zero is `Success`, all else an error.
    pub open spec fn spec_from_value(value: u32) -> ResultCode {
        if value == 0 {
            ResultCode::Success
        } else {
            ResultCode::Failure(value)
        }
    }

    #[verifier::when_used_as_spec(spec_from_value)]
    pub fn from_value(value: u32) -> (code: ResultCode)
        ensures
            code == Self::spec_from_value(value),
    {
        if value == 0 {
            ResultCode::Success
        } else {
            ResultCode::Failure(value)
        }
    }

    #[verifier::when_used_as_spec(spec_value)]
    pub fn value(self) -> (value: u32)
        ensures
            value == self.spec_value(),
    {
        match self {
            ResultCode::Success => 0,
            ResultCode::Failure(n) => n,
        }
    }

    pub fn is_ok(self) -> (ok: bool)
        ensures
            ok == (self is Success),
    {
        match self {
            ResultCode::Success => true,
            ResultCode::Failure(_) => false,
        }
    }
}

/// The sixteen digits of upper-case hexadecimal, in order of their value.
pub open spec fn upper_hex_digits() -> Seq<char> {
    seq!['0', '1', '2', '3', '4', '5', '6', '7', '8', '9', 'A', 'B', 'C', 'D', 'E', 'F']
}

/// Upper-case hexadecimal of a byte string: two digits for each byte, the
/// high half first.
pub open spec fn upper_hex(bytes: Seq<u8>) -> Seq<char> {
    Seq::new(
        2 * bytes.len(),
        |i: int|
            if i % 2 == 0 {
                upper_hex_digits()[bytes[i / 2] as int / 16]
            } else {
                upper_hex_digits()[bytes[i / 2] as int % 16]
            },
    )
}

/// Transaction hash as a node reports it after a broadcast.
#[derive(Clone, Copy, Debug, PartialEq, Eq)]
pub enum TxHash {
    /// A SHA-256 digest.
    Sha256([u8; 32]),
    /// No hash was given.
    Empty,
}

impl TxHash {
    /// The text a hash is printed as: upper-case hexadecimal of the digest,
    /// and nothing at all for the empty hash.
    pub open spec fn text(self) -> Seq<char> {
        match self {
            TxHash::Sha256(bytes) => upper_hex(bytes@),
            TxHash::Empty => Seq::empty(),
        }
    }

    /// Prints the hash the way `tendermint::Hash` does.
    pub fn to_text(&self) -> (text: String)
        ensures
            text@ == self.text(),
    {
        hash_text(self)
    }
}

/// Calls `Display` of `tendermint::Hash` (through `to_string`) on the hash
/// with the same variant and bytes. Trusted: the text is the upper-case
/// hexadecimal of the 32 bytes for `Sha256`, and empty for the empty hash.
#[verifier::external_body]
fn hash_text(hash: &TxHash) -> (text: String)
    ensures
        text@ == hash.text(),
{
    let outside = match hash {
        TxHash::Sha256(bytes) => tendermint::Hash::Sha256(*bytes),
        TxHash::Empty => tendermint::Hash::None,
    };
    outside.to_string()
}

/// A node's answer to a submission that reached it.
#[allow(inconsistent_fields)]
#[derive(Debug, PartialEq, Eq)]
pub enum ProcessResponse {
    /// The transaction was included in a block.
    Applied { code: ResultCode, hash: String },
    /// A node took the transaction; no block holds it yet.
    Broadcast { code: ResultCode, hash: TxHash },
    /// The transaction was only simulated.
    DryRun,
}

/// A `ProcessResponse` with its text as a sequence of characters.
#[allow(inconsistent_fields)]
pub enum ProcessResponseView {
    Applied { code: ResultCode, hash: Seq<char> },
    Broadcast { code: ResultCode, hash: TxHash },
    DryRun,
}

impl View for ProcessResponse {
    type V = ProcessResponseView;

    open spec fn view(&self) -> ProcessResponseView {
        match *self {
            ProcessResponse::Applied { code, hash } => ProcessResponseView::Applied {
                code,
                hash: hash@,
            },
            ProcessResponse::Broadcast { code, hash } => ProcessResponseView::Broadcast {
                code,
                hash,
            },
            ProcessResponse::DryRun => ProcessResponseView::DryRun,
        }
    }
}

/// A submission that never got an answer: the transport failed.
#[derive(Debug, PartialEq, Eq)]
pub struct SubmitError {
    pub reason: String,
}

/// What came back from a submission, as `classify_spec` reads it: the answer,
/// or nothing where the transport failed.
pub open spec fn raw_view(raw: Result<ProcessResponse, SubmitError>) -> Option<
    ProcessResponseView,
> {
    match raw {
        Ok(response) => Some(response@),
        Err(_) => None,
    }
}

/// Whether the chain accepted the transaction, and the name to find it by.
#[derive(Debug, PartialEq, Eq)]
pub struct SubmissionOutcome {
    pub accepted: bool,
    pub tx_id: Option<String>,
}

/// A `SubmissionOutcome` with its text as a sequence of characters.
pub struct SubmissionOutcomeView {
    pub accepted: bool,
    pub tx_id: Option<Seq<char>>,
}

impl View for SubmissionOutcome {
    type V = SubmissionOutcomeView;

    open spec fn view(&self) -> SubmissionOutcomeView {
        SubmissionOutcomeView {
            accepted: self.accepted,
            tx_id: match self.tx_id {
                Some(id) => Some(id@),
                None => None,
            },
        }
    }
}

/// The outcome of a submission. An answer counts as accepted only if its
/// result code says so; an answer without a code, or no answer, is a refusal
/// without a transaction id.
pub open spec fn classify_spec(raw: Option<ProcessResponseView>) -> SubmissionOutcomeView {
    match raw {
        Some(ProcessResponseView::Applied { code, hash }) => SubmissionOutcomeView {
            accepted: code is Success,
            tx_id: Some(hash),
        },
        Some(ProcessResponseView::Broadcast { code, hash }) => SubmissionOutcomeView {
            accepted: code is Success,
            tx_id: Some(hash.text()),
        },
        Some(ProcessResponseView::DryRun) => SubmissionOutcomeView { accepted: false, tx_id: None },
        None => SubmissionOutcomeView { accepted: false, tx_id: None },
    }
}

/// Reads a node's answer to a submission.
pub fn classify(raw: Result<ProcessResponse, SubmitError>) -> (outcome: SubmissionOutcome)
    ensures
        outcome@ == classify_spec(raw_view(raw)),
{
    match raw {
        Ok(ProcessResponse::Applied { code, hash }) => SubmissionOutcome {
            accepted: code.is_ok(),
            tx_id: Some(hash),
        },
        Ok(ProcessResponse::Broadcast { code, hash }) => SubmissionOutcome {
            accepted: code.is_ok(),
            tx_id: Some(hash.to_text()),
        },
        Ok(ProcessResponse::DryRun) => SubmissionOutcome { accepted: false, tx_id: None },
        Err(_) => SubmissionOutcome { accepted: false, tx_id: None },
    }
}

/// The result code of an answer, where it has one.
pub open spec fn code_of(response: ProcessResponseView) -> Option<ResultCode> {
    match response {
        ProcessResponseView::Applied { code, .. } => Some(code),
        ProcessResponseView::Broadcast { code, .. } => Some(code),
        ProcessResponseView::DryRun => None,
    }
}

/// A submission as the end of a request: a transport failure and a result
/// code other than success are errors, and every other answer is handed on
/// as `classify_spec` reads it.
pub open spec fn conclude_spec(raw: Option<ProcessResponseView>) -> Result<
    SubmissionOutcomeView,
    TransferErrorView,
> {
    match raw {
        None => Err(TransferErrorView::SubmissionNetworkError),
        Some(response) => match code_of(response) {
            Some(ResultCode::Failure(n)) => Err(
                TransferErrorView::SubmissionRejected { code: ResultCode::Failure(n) },
            ),
            _ => Ok(classify_spec(raw)),
        },
    }
}

/// Ends a request with the answer to its submission: the outcome, or the
/// error that the answer amounts to.
pub fn conclude(raw: Result<ProcessResponse, SubmitError>) -> (end: Result<
    SubmissionOutcome,
    TransferError,
>)
    ensures
        result_view(end) == conclude_spec(raw_view(raw)),
{
    match raw {
        Err(_) => Err(TransferError::SubmissionNetworkError),
        Ok(ProcessResponse::Applied { code: ResultCode::Failure(n), .. }) => Err(
            TransferError::SubmissionRejected { code: ResultCode::Failure(n) },
        ),
        Ok(ProcessResponse::Broadcast { code: ResultCode::Failure(n), .. }) => Err(
            TransferError::SubmissionRejected { code: ResultCode::Failure(n) },
        ),
        Ok(response) => Ok(classify(Ok(response))),
    }
}

/// An answer is accepted exactly where it carries a result code and that
/// code is a success: arriving without a transport error is not enough. It
/// has a transaction id exactly where it carries a result code. And where
/// `conclude_spec` reports no error, it reports what `classify_spec` reads.
pub proof fn lemma_only_a_success_code_is_accepted(raw: Option<ProcessResponseView>)
    ensures
        classify_spec(raw).accepted <==> raw is Some && code_of(raw->Some_0) == Some(
            ResultCode::Success,
        ),
        classify_spec(raw).tx_id is Some <==> raw is Some && code_of(raw->Some_0) is Some,
        conclude_spec(raw) is Ok ==> conclude_spec(raw)->Ok_0 == classify_spec(raw),
        conclude_spec(raw) is Err ==> !classify_spec(raw).accepted,
{
}

/// The line that tells a user how a submission went.
pub open spec fn report_text(outcome: SubmissionOutcomeView) -> Seq<char>
    recommends
        outcome.tx_id is Some,
{
    "sent: "@ + (if outcome.accepted {
        "true"@
    } else {
        "false"@
    }) + ", tx: "@ + outcome.tx_id.unwrap()
}

impl SubmissionOutcome {
    /// Writes the outcome as one line, `sent: true, tx: ABC` for an accepted
    /// transaction named `ABC`. There is no line for an outcome without a
    /// transaction id.
    pub fn report(&self) -> (line: String)
        requires
            self.tx_id is Some,
        ensures
            line@ == report_text(self@),
    {
        let mut line = String::from_str("sent: ");
        if self.accepted {
            line.append("true");
        } else {
            line.append("false");
        }
        line.append(", tx: ");
        match &self.tx_id {
            Some(id) => {
                line.append(id.as_str());
            },
            None => {},
        }
        line
    }
}

} // verus!
