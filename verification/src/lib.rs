//! A reputation registry for a ledger of contracts.
//!
//! A scorer keeps managers, registered users and badges (named, scored
//! credentials issued by an address).  A factory deploys scorers and keeps a
//! directory of them, and a deployer places any uploaded code at a
//! deterministic address and initialises it in the same atomic step.
//!
//! Every contract is a value that holds its persistent slots.  An operation
//! takes that value, the approvals that accompany the invocation and its
//! arguments; it returns the event to publish, or the reason why nothing was
//! changed.
pub mod address;
pub mod deployer;
pub mod laws;
pub mod ledger;
pub mod scorer;
pub mod scorer_factory;
pub mod table;
pub mod value;

pub use address::{Address, Approvals, Bytes32};
pub use deployer::{DeployError, Deployer};
pub use ledger::Ledger;
pub use value::{Invoked, Value};
pub use scorer_factory::{FactoryError, FactoryEvent, FactoryState, ScorerFactoryContract};
pub use scorer::{BadgeId, ScorerContract, ScorerError, ScorerEvent, ScorerState};
pub use table::{Plain, Table};
