use vstd::prelude::*;

use crate::error::SolFundMeError;
use crate::identity::Identity;
use crate::records::{fresh_record, Campaign, Contributor};

verus! {

/// The campaign that `create_campaign` writes into an empty slot. A zero goal
/// or a deadline in the past is accepted: such a campaign is merely degenerate.
pub open spec fn opened(creator: Identity, goal_amount: u64, end_date: i64) -> Campaign {
    Campaign {
        authority: creator,
        end_date,
        goal_amount,
        total_contributed: 0,
        withdrawn: false,
    }
}

/// Why a contribution of `amount` by `signer`, who holds `balance`, at time
/// `now`, into the signer's record `existing` (`None` before the first
/// contribution), is refused: the first of the checks that fails, in order.
/// A creator may not contribute to their own campaign, and a record keeps the
/// owner it was created for.
pub open spec fn contribute_rejection(
    c: Campaign,
    existing: Option<Contributor>,
    signer: Identity,
    balance: u64,
    amount: u64,
    now: i64,
) -> Option<SolFundMeError> {
    if amount == 0 || amount > balance {
        Some(SolFundMeError::InvalidAmount)
    } else if now >= c.end_date {
        Some(SolFundMeError::CampaignEnded)
    } else if signer == c.authority {
        Some(SolFundMeError::Unauthorized)
    } else if existing matches Some(r) && r.owner != signer {
        Some(SolFundMeError::Unauthorized)
    } else {
        None
    }
}

/// The record a contribution by `signer` works on: the existing one, or a
/// fresh one.
pub open spec fn current_record(existing: Option<Contributor>, signer: Identity) -> Contributor {
    match existing {
        Some(r) => r,
        None => fresh_record(signer),
    }
}

/// The contribution's effect on the campaign.
pub open spec fn contributed_campaign(c: Campaign, amount: u64) -> Campaign {
    Campaign { total_contributed: (c.total_contributed + amount) as u64, ..c }
}

/// The contribution's effect on the contributor's record.
pub open spec fn contributed_record(r: Contributor, amount: u64) -> Contributor {
    Contributor { amount: (r.amount + amount) as u64, withdrawn: false, ..r }
}

/// Whether the campaign has both ended and met its goal at time `now`: from
/// then on its funds belong to the creator.
pub open spec fn succeeded(c: Campaign, now: i64) -> bool {
    now >= c.end_date && c.total_contributed >= c.goal_amount
}

/// Why an exit by `signer` from record `r` of campaign `c` at time `now` is
/// refused: the first of the checks that fails, in order.
pub open spec fn exit_rejection(
    c: Campaign,
    r: Contributor,
    signer: Identity,
    now: i64,
) -> Option<SolFundMeError> {
    if r.owner != signer {
        Some(SolFundMeError::Unauthorized)
    } else if r.withdrawn {
        Some(SolFundMeError::AlreadyWithdrawn)
    } else if succeeded(c, now) {
        Some(SolFundMeError::RefundConditionsNotMet)
    } else {
        None
    }
}

/// The exit's effect on the campaign: the record's balance leaves the total.
pub open spec fn exited_campaign(c: Campaign, r: Contributor) -> Campaign {
    Campaign { total_contributed: (c.total_contributed - r.amount) as u64, ..c }
}

/// The exit's effect on the record: emptied and marked withdrawn.
pub open spec fn exited_record(r: Contributor) -> Contributor {
    Contributor { amount: 0, withdrawn: true, ..r }
}

/// Why a claim by `signer` at time `now` is refused: the first of the checks
/// that fails, in order.
pub open spec fn claim_rejection(c: Campaign, signer: Identity, now: i64) -> Option<
    SolFundMeError,
> {
    if signer != c.authority {
        Some(SolFundMeError::Unauthorized)
    } else if c.total_contributed < c.goal_amount {
        Some(SolFundMeError::GoalNotReached)
    } else if now < c.end_date {
        Some(SolFundMeError::CampaignNotEnded)
    } else if c.withdrawn {
        Some(SolFundMeError::AlreadyWithdrawn)
    } else {
        None
    }
}

/// The claim's effect on the campaign: marked claimed, total kept as a record
/// of what was raised.
pub open spec fn claimed(c: Campaign) -> Campaign {
    Campaign { withdrawn: true, ..c }
}

/// Opens `signer`'s campaign in its slot, which must be empty.
pub fn create_campaign(
    slot: &Option<Campaign>,
    signer: Identity,
    goal_amount: u64,
    end_date: i64,
) -> (r: Result<Campaign, SolFundMeError>)
    ensures
        slot.is_some() ==> r == Err::<Campaign, SolFundMeError>(SolFundMeError::AlreadyExists),
        slot.is_none() ==> r == Ok::<Campaign, SolFundMeError>(
            opened(signer, goal_amount, end_date),
        ),
{
    if slot.is_some() {
        return Err(SolFundMeError::AlreadyExists);
    }
    Ok(Campaign { authority: signer, end_date, goal_amount, total_contributed: 0, withdrawn: false })
}

/// `signer`, holding `signer_balance`, puts `amount` into `campaign` at time
/// `now`, through the signer's record `contributor`, which is created on the
/// first contribution (`None` before it). On success the caller moves the
/// returned amount from the signer to the campaign's account.
pub fn contribute(
    campaign: &mut Campaign,
    contributor: &mut Option<Contributor>,
    signer: Identity,
    signer_balance: u64,
    amount: u64,
    now: i64,
) -> (r: Result<u64, SolFundMeError>)
    requires
        old(campaign).total_contributed + amount <= u64::MAX,
        current_record(*old(contributor), signer).amount + amount <= u64::MAX,
    ensures
        match contribute_rejection(
            *old(campaign),
            *old(contributor),
            signer,
            signer_balance,
            amount,
            now,
        ) {
            Some(e) => {
                &&& r == Err::<u64, SolFundMeError>(e)
                &&& *final(campaign) == *old(campaign)
                &&& *final(contributor) == *old(contributor)
            },
            None => {
                &&& r == Ok::<u64, SolFundMeError>(amount)
                &&& *final(campaign) == contributed_campaign(*old(campaign), amount)
                &&& *final(contributor) == Some(
                    contributed_record(current_record(*old(contributor), signer), amount),
                )
            },
        },
{
    if amount == 0 || amount > signer_balance {
        return Err(SolFundMeError::InvalidAmount);
    }
    if now >= campaign.end_date {
        return Err(SolFundMeError::CampaignEnded);
    }
    if signer == campaign.authority {
        return Err(SolFundMeError::Unauthorized);
    }
    let mut record = match *contributor {
        Some(r) => r,
        None => Contributor::new(signer),
    };
    if record.owner != signer {
        return Err(SolFundMeError::Unauthorized);
    }
    record.amount = record.amount + amount;
    record.withdrawn = false;
    *contributor = Some(record);
    campaign.total_contributed = campaign.total_contributed + amount;
    Ok(amount)
}

/// `signer` takes back their whole balance in `contributor` from `campaign`
/// at time `now`: early, or after the campaign failed. On success the caller
/// moves the returned amount from the campaign's account to the signer.
pub fn withdraw_contributer(
    campaign: &mut Campaign,
    contributor: &mut Contributor,
    signer: Identity,
    now: i64,
) -> (r: Result<u64, SolFundMeError>)
    requires
        old(contributor).amount <= old(campaign).total_contributed,
    ensures
        match exit_rejection(*old(campaign), *old(contributor), signer, now) {
            Some(e) => {
                &&& r == Err::<u64, SolFundMeError>(e)
                &&& *final(campaign) == *old(campaign)
                &&& *final(contributor) == *old(contributor)
            },
            None => {
                &&& r == Ok::<u64, SolFundMeError>(old(contributor).amount)
                &&& *final(campaign) == exited_campaign(*old(campaign), *old(contributor))
                &&& *final(contributor) == exited_record(*old(contributor))
            },
        },
{
    if contributor.owner != signer {
        return Err(SolFundMeError::Unauthorized);
    }
    if contributor.withdrawn {
        return Err(SolFundMeError::AlreadyWithdrawn);
    }
    if now >= campaign.end_date && campaign.total_contributed >= campaign.goal_amount {
        return Err(SolFundMeError::RefundConditionsNotMet);
    }
    let amount = contributor.amount;
    campaign.total_contributed = campaign.total_contributed - amount;
    contributor.withdrawn = true;
    contributor.amount = 0;
    Ok(amount)
}

/// The creator `signer` claims everything `campaign` raised, at time `now`.
/// On success the caller moves the returned amount from the campaign's
/// account to the creator.
pub fn withdraw_creator(campaign: &mut Campaign, signer: Identity, now: i64) -> (r: Result<
    u64,
    SolFundMeError,
>)
    ensures
        match claim_rejection(*old(campaign), signer, now) {
            Some(e) => {
                &&& r == Err::<u64, SolFundMeError>(e)
                &&& *final(campaign) == *old(campaign)
            },
            None => {
                &&& r == Ok::<u64, SolFundMeError>(old(campaign).total_contributed)
                &&& *final(campaign) == claimed(*old(campaign))
            },
        },
{
    if signer != campaign.authority {
        return Err(SolFundMeError::Unauthorized);
    }
    if campaign.total_contributed < campaign.goal_amount {
        return Err(SolFundMeError::GoalNotReached);
    }
    if now < campaign.end_date {
        return Err(SolFundMeError::CampaignNotEnded);
    }
    if campaign.withdrawn {
        return Err(SolFundMeError::AlreadyWithdrawn);
    }
    campaign.withdrawn = true;
    Ok(campaign.total_contributed)
}

/// An exit succeeds at most once on one record: once it has gone through,
/// every further exit from the emptied record is refused, and its owner is
/// told the record is already withdrawn. A refused exit moves nothing (see
/// `withdraw_contributer`).
pub proof fn lemma_no_double_exit(
    c: Campaign,
    r: Contributor,
    signer: Identity,
    now: i64,
    again_signer: Identity,
    again_now: i64,
)
    requires
        exit_rejection(c, r, signer, now).is_none(),
    ensures
        exit_rejection(exited_campaign(c, r), exited_record(r), again_signer, again_now).is_some(),
        again_signer == signer ==> exit_rejection(
            exited_campaign(c, r),
            exited_record(r),
            again_signer,
            again_now,
        ) == Some(SolFundMeError::AlreadyWithdrawn),
{
}

/// A claim succeeds at most once on one campaign: once it has gone through,
/// every further claim is refused; the creator, claiming again no earlier,
/// is told the campaign is already withdrawn.
pub proof fn lemma_no_double_claim(
    c: Campaign,
    signer: Identity,
    now: i64,
    again_signer: Identity,
    again_now: i64,
)
    requires
        claim_rejection(c, signer, now).is_none(),
    ensures
        claim_rejection(claimed(c), again_signer, again_now).is_some(),
        again_signer == signer && again_now >= now ==> claim_rejection(
            claimed(c),
            again_signer,
            again_now,
        ) == Some(SolFundMeError::AlreadyWithdrawn),
{
}

/// A positive contribution that the contributor can afford is refused as
/// late at or after the deadline, and accepted strictly before it unless it
/// comes from the campaign's own creator or names another owner's record.
pub proof fn lemma_deadline_gating(
    c: Campaign,
    existing: Option<Contributor>,
    signer: Identity,
    balance: u64,
    amount: u64,
    now: i64,
)
    requires
        0 < amount <= balance,
    ensures
        now >= c.end_date ==> contribute_rejection(c, existing, signer, balance, amount, now)
            == Some(SolFundMeError::CampaignEnded),
        now < c.end_date && signer != c.authority && current_record(existing, signer).owner
            == signer ==> contribute_rejection(c, existing, signer, balance, amount, now).is_none(),
{
}

/// The owner of a record that has not exited may exit exactly when the
/// campaign has not both ended and met its goal; when it has, the exit is
/// refused for that reason and no other.
pub proof fn lemma_exit_gating(c: Campaign, r: Contributor, now: i64)
    requires
        !r.withdrawn,
    ensures
        exit_rejection(c, r, r.owner, now).is_none() <==> !(now >= c.end_date
            && c.total_contributed >= c.goal_amount),
        now >= c.end_date && c.total_contributed >= c.goal_amount ==> exit_rejection(
            c,
            r,
            r.owner,
            now,
        ) == Some(SolFundMeError::RefundConditionsNotMet),
{
}

} // verus!
