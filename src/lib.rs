//! An escrow ledger for crowdfunding campaigns: a creator opens a campaign
//! with a goal and a deadline, contributors put value in, and the funds go to
//! the creator if the goal was met by the deadline, or back to the
//! contributors otherwise.
pub mod engine;
pub mod error;
pub mod identity;
pub mod ledger;
pub mod records;

pub use engine::{contribute, create_campaign, withdraw_contributer, withdraw_creator};
pub use error::SolFundMeError;
pub use identity::Identity;
pub use records::{Campaign, Contributor};
