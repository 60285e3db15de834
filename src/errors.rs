use vstd::prelude::*;

verus! {

/// Why the external process did not take a configuration document.
#[derive(Debug, PartialEq, Eq)]
pub enum ReconfigureError {
    /// The process read the document and refused it.
    Rejected(String),
    /// The process could not be contacted.
    Unreachable,
    /// The process did not answer in time.
    Timeout,
}

pub open spec fn reconfigure_message(e: ReconfigureError) -> Seq<char> {
    match e {
        ReconfigureError::Rejected(reason) => "Rejected: "@ + reason@,
        ReconfigureError::Unreachable => "Unreachable: the core process could not be contacted"@,
        ReconfigureError::Timeout => "Timeout: the core process did not answer in time"@,
    }
}

impl ReconfigureError {
    /// An independent copy of this error.
    pub fn copied(&self) -> (r: ReconfigureError)
        ensures
            r == *self,
    {
        match self {
            ReconfigureError::Rejected(reason) => ReconfigureError::Rejected(reason.clone()),
            ReconfigureError::Unreachable => ReconfigureError::Unreachable,
            ReconfigureError::Timeout => ReconfigureError::Timeout,
        }
    }

    pub fn message(&self) -> (r: String)
        ensures
            r@ == reconfigure_message(*self),
    {
        match self {
            ReconfigureError::Rejected(reason) => {
                let r = String::from_str("Rejected: ");
                r.concat(reason.as_str())
            },
            ReconfigureError::Unreachable => String::from_str(
                "Unreachable: the core process could not be contacted",
            ),
            ReconfigureError::Timeout => String::from_str(
                "Timeout: the core process did not answer in time",
            ),
        }
    }
}

/// The compensating apply of the previous configuration failed too.
#[derive(Debug, PartialEq, Eq)]
pub struct RollbackError {
    pub cause: ReconfigureError,
}

pub open spec fn rollback_message(e: RollbackError) -> Seq<char> {
    "rollback failed: "@ + reconfigure_message(e.cause)
}

impl RollbackError {
    pub fn message(&self) -> (r: String)
        ensures
            r@ == rollback_message(*self),
    {
        let head = String::from_str("rollback failed: ");
        let cause = self.cause.message();
        head.concat(cause.as_str())
    }
}

/// Why a configuration transaction did not commit.
#[derive(Debug, PartialEq, Eq)]
pub enum TransactionError {
    /// The process refused the new document; the previous one was restored.
    Failed(ReconfigureError),
    /// The process refused the new document, and restoring the previous one failed
    /// as well: the running process and the committed value may disagree.
    RollbackFailed { cause: ReconfigureError, rollback: RollbackError },
}

pub open spec fn transaction_message(e: TransactionError) -> Seq<char> {
    match e {
        TransactionError::Failed(cause) => "configuration update failed: "@ + reconfigure_message(
            cause,
        ),
        TransactionError::RollbackFailed { cause, rollback } => "configuration update failed: "@
            + reconfigure_message(cause) + "; "@ + rollback_message(rollback)
            + "; manual intervention may be required"@,
    }
}

impl TransactionError {
    /// The message shown to the caller: the original failure first, then the
    /// rollback failure, if any.
    pub fn message(&self) -> (r: String)
        ensures
            r@ == transaction_message(*self),
    {
        let head = String::from_str("configuration update failed: ");
        match self {
            TransactionError::Failed(cause) => {
                let c = cause.message();
                head.concat(c.as_str())
            },
            TransactionError::RollbackFailed { cause, rollback } => {
                let c = cause.message();
                let rb = rollback.message();
                let s = head.concat(c.as_str());
                let s = s.concat("; ");
                let s = s.concat(rb.as_str());
                s.concat("; manual intervention may be required")
            },
        }
    }
}

} // verus!
