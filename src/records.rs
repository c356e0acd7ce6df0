use vstd::prelude::*;

use crate::identity::Identity;

verus! {

/// A creator's campaign: its goal, its deadline, the running total of what
/// contributors hold in it, and whether the creator has claimed it.
#[derive(Clone, Copy, Debug, PartialEq, Eq)]
pub struct Campaign {
    /// The creator; never changes after the campaign is opened.
    pub authority: Identity,
    /// Unix time from which no contribution is accepted.
    pub end_date: i64,
    /// The target total, in value units.
    pub goal_amount: u64,
    /// The sum of the outstanding balances of the campaign's contributors.
    pub total_contributed: u64,
    /// Set once the creator has claimed the funds; never cleared.
    pub withdrawn: bool,
}

/// One contributor's position in one campaign.
#[derive(Clone, Copy, Debug, PartialEq, Eq)]
pub struct Contributor {
    /// The contributor this record belongs to.
    pub owner: Identity,
    /// What the contributor has put in and not yet taken out.
    pub amount: u64,
    /// Set when the contributor exits; cleared by a new contribution.
    pub withdrawn: bool,
}

/// The record that a contributor's first contribution starts from.
pub open spec fn fresh_record(owner: Identity) -> Contributor {
    Contributor { owner, amount: 0, withdrawn: false }
}

impl Contributor {
    /// A record holds a balance only while its owner has not exited.
    pub open spec fn wf(&self) -> bool {
        self.amount != 0 ==> !self.withdrawn
    }

    /// The balance the record counts towards its campaign's total.
    pub open spec fn outstanding(&self) -> int {
        if self.withdrawn {
            0
        } else {
            self.amount as int
        }
    }

    /// An empty record for `owner`, as created on a first contribution.
    pub fn new(owner: Identity) -> (r: Contributor)
        ensures
            r == fresh_record(owner),
            r.wf(),
    {
        Contributor { owner, amount: 0, withdrawn: false }
    }
}

} // verus!
