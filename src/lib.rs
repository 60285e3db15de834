//! Transactional updates of a configuration that a running proxy core must
//! accept: a versioned store with one pending draft, a guard that owes the
//! restore of the last committed value until it is discarded, and a
//! transaction that decides, from each answer of the process, whether to
//! commit, re-apply the previous value, or report failure.

pub mod errors;
pub mod guard;
pub mod laws;
pub mod profiles;
pub mod store;
pub mod transaction;

pub use errors::{ReconfigureError, RollbackError, TransactionError};
pub use guard::{ConfigGuard, GuardView, TeardownReport, TeardownView};
pub use profiles::{IProfiles, PrfItem};
pub use store::{NoDraftError, Snapshot, StoreView, VersionedStore};
pub use transaction::{Transaction, TransactionView, TxPhase, TxStep, TxStepView};
