use vstd::prelude::*;

verus! {

/// Why the ledger rejected an operation. A rejected operation changes no record
/// and moves no value.
#[derive(Clone, Copy, Debug, PartialEq, Eq, Structural)]
pub enum SolFundMeError {
    /// A contribution of zero, or of more than the contributor holds.
    InvalidAmount,
    /// A contribution at or after the campaign's deadline.
    CampaignEnded,
    /// A claim before the campaign's deadline.
    CampaignNotEnded,
    /// A claim while the total contributed is below the goal.
    GoalNotReached,
    /// An exit from a campaign that has ended and met its goal: its funds
    /// now belong to the creator.
    RefundConditionsNotMet,
    /// A second exit from one contributor record, or a second claim.
    AlreadyWithdrawn,
    /// The signer may not perform this operation on these records.
    Unauthorized,
    /// The creator's campaign slot already holds a campaign.
    AlreadyExists,
}

impl SolFundMeError {
    /// A human-readable description of the error.
    pub fn message(&self) -> (r: String) {
        match self {
            SolFundMeError::InvalidAmount => "The amount must be greater than zero.".to_string(),
            SolFundMeError::CampaignEnded => "The campaign has already ended.".to_string(),
            SolFundMeError::CampaignNotEnded => "The campaign has not ended yet.".to_string(),
            SolFundMeError::GoalNotReached => "The goal amount has not been reached.".to_string(),
            SolFundMeError::RefundConditionsNotMet => "Refund conditions are not met.".to_string(),
            SolFundMeError::AlreadyWithdrawn => "Cannot withdraw more than once.".to_string(),
            SolFundMeError::Unauthorized => "The signer is not allowed to do this.".to_string(),
            SolFundMeError::AlreadyExists => "A campaign already exists for this creator.".to_string(),
        }
    }
}

} // verus!
