use vstd::prelude::*;

use crate::engine::{
    claim_rejection, claimed, contribute_rejection, contributed_campaign, contributed_record,
    current_record, exit_rejection, exited_campaign, exited_record, opened,
};
use crate::identity::Identity;
use crate::records::{Campaign, Contributor};

verus! {

/// One operation on a campaign, naming the contributor record it touches by
/// its position among the campaign's records. A contribution naming the
/// position just past the last record creates that record.
pub enum Operation {
    Contribute { index: usize, signer: Identity, balance: u64, amount: u64, now: i64 },
    Exit { index: usize, signer: Identity, now: i64 },
    Claim { signer: Identity, now: i64 },
}

/// The time at which an operation is submitted.
pub open spec fn time_of(op: Operation) -> int {
    match op {
        Operation::Contribute { now, .. } => now as int,
        Operation::Exit { now, .. } => now as int,
        Operation::Claim { now, .. } => now as int,
    }
}

/// Everything one campaign consists of: its record, its contributors'
/// records, the value its account holds (net of any fixed reserve), and the
/// time of the last operation that went through.
pub struct Escrow {
    pub campaign: Campaign,
    pub records: Seq<Contributor>,
    pub held: int,
    pub clock: int,
}

/// A campaign just opened: nothing contributed, nothing held.
pub open spec fn opened_escrow(creator: Identity, goal_amount: u64, end_date: i64) -> Escrow {
    Escrow {
        campaign: opened(creator, goal_amount, end_date),
        records: Seq::empty(),
        held: 0,
        clock: i64::MIN as int,
    }
}

/// The sum of the balances of the records whose owners have not exited.
pub open spec fn outstanding(records: Seq<Contributor>) -> int
    decreases records.len(),
{
    if records.len() == 0 {
        0
    } else {
        outstanding(records.drop_last()) + records.last().outstanding()
    }
}

/// The record at `index`, if there is one.
pub open spec fn existing_at(records: Seq<Contributor>, index: usize) -> Option<Contributor> {
    if index < records.len() {
        Some(records[index as int])
    } else {
        None
    }
}

/// The records with the one at `index` (or a new one just past the end)
/// replaced by `r`.
pub open spec fn store(records: Seq<Contributor>, index: usize, r: Contributor) -> Seq<Contributor> {
    if index < records.len() {
        records.update(index as int, r)
    } else {
        records.push(r)
    }
}

/// The state after `op`. An operation that the ledger rejects, that names no
/// record, or whose sums would not fit in 64 bits, changes nothing.
pub open spec fn apply(s: Escrow, op: Operation) -> Escrow {
    match op {
        Operation::Contribute { index, signer, balance, amount, now } => {
            let existing = existing_at(s.records, index);
            let r = current_record(existing, signer);
            if index > s.records.len() || contribute_rejection(
                s.campaign,
                existing,
                signer,
                balance,
                amount,
                now,
            ).is_some() || s.campaign.total_contributed + amount > u64::MAX || r.amount + amount
                > u64::MAX {
                s
            } else {
                Escrow {
                    campaign: contributed_campaign(s.campaign, amount),
                    records: store(s.records, index, contributed_record(r, amount)),
                    held: s.held + amount,
                    clock: now as int,
                }
            }
        },
        Operation::Exit { index, signer, now } => {
            if index >= s.records.len() {
                s
            } else {
                let r = s.records[index as int];
                if exit_rejection(s.campaign, r, signer, now).is_some()
                    || r.amount > s.campaign.total_contributed {
                    s
                } else {
                    Escrow {
                        campaign: exited_campaign(s.campaign, r),
                        records: s.records.update(index as int, exited_record(r)),
                        held: s.held - r.amount,
                        clock: now as int,
                    }
                }
            }
        },
        Operation::Claim { signer, now } => {
            if claim_rejection(s.campaign, signer, now).is_some() {
                s
            } else {
                Escrow {
                    campaign: claimed(s.campaign),
                    records: s.records,
                    held: s.held - s.campaign.total_contributed,
                    clock: now as int,
                }
            }
        },
    }
}

/// The state after each of `ops` in turn.
pub open spec fn run(s: Escrow, ops: Seq<Operation>) -> Escrow
    decreases ops.len(),
{
    if ops.len() == 0 {
        s
    } else {
        run(apply(s, ops[0]), ops.drop_first())
    }
}

/// Operations submitted in order of time: the clock never goes back.
pub open spec fn in_time_order(ops: Seq<Operation>) -> bool {
    forall|i: int, j: int| 0 <= i <= j < ops.len() ==> time_of(ops[i]) <= time_of(ops[j])
}

/// The accounting invariant of a campaign:
/// - its total equals the sum of the balances of the records whose owners
///   have not exited;
/// - its account holds that total until the creator claims, and nothing after;
/// - a record holds a balance only while its owner has not exited;
/// - a claim happened at or after the deadline, with the goal met.
pub open spec fn conserved(s: Escrow) -> bool {
    &&& s.campaign.total_contributed == outstanding(s.records)
    &&& s.held == if s.campaign.withdrawn {
        0
    } else {
        s.campaign.total_contributed as int
    }
    &&& forall|i: int| 0 <= i < s.records.len() ==> #[trigger] s.records[i].wf()
    &&& s.campaign.withdrawn ==> s.clock >= s.campaign.end_date
        && s.campaign.total_contributed >= s.campaign.goal_amount
}

proof fn lemma_outstanding_push(records: Seq<Contributor>, r: Contributor)
    ensures
        outstanding(records.push(r)) == outstanding(records) + r.outstanding(),
{
    assert(records.push(r).drop_last() =~= records);
}

proof fn lemma_outstanding_update(records: Seq<Contributor>, i: int, r: Contributor)
    requires
        0 <= i < records.len(),
    ensures
        outstanding(records.update(i, r)) == outstanding(records) - records[i].outstanding()
            + r.outstanding(),
        records[i].outstanding() <= outstanding(records),
    decreases records.len(),
{
    let u = records.update(i, r);
    if i == records.len() - 1 {
        assert(u.drop_last() =~= records.drop_last());
        lemma_outstanding_nonneg(records.drop_last());
    } else {
        assert(u.drop_last() =~= records.drop_last().update(i, r));
        lemma_outstanding_update(records.drop_last(), i, r);
    }
}

proof fn lemma_outstanding_nonneg(records: Seq<Contributor>)
    ensures
        outstanding(records) >= 0,
    decreases records.len(),
{
    if records.len() > 0 {
        lemma_outstanding_nonneg(records.drop_last());
    }
}

proof fn lemma_apply_conserves(s: Escrow, op: Operation)
    requires
        conserved(s),
        time_of(op) >= s.clock,
    ensures
        conserved(apply(s, op)),
        apply(s, op).clock == s.clock || apply(s, op).clock == time_of(op),
{
    let t = apply(s, op);
    match op {
        Operation::Contribute { index, signer, balance, amount, now } => {
            if t != s {
                let r = current_record(existing_at(s.records, index), signer);
                let r2 = contributed_record(r, amount);
                if index < s.records.len() {
                    assert(r.wf());
                    lemma_outstanding_update(s.records, index as int, r2);
                } else {
                    lemma_outstanding_push(s.records, r2);
                }
                assert forall|i: int| 0 <= i < t.records.len() implies #[trigger] t.records[i].wf() by {
                    if i != index {
                        assert(t.records[i] == s.records[i]);
                    } else {
                        assert(t.records[i] == r2);
                    }
                }
            }
        },
        Operation::Exit { index, signer, now } => {
            if t != s {
                let r = s.records[index as int];
                assert(r.wf());
                lemma_outstanding_update(s.records, index as int, exited_record(r));
                assert forall|i: int| 0 <= i < t.records.len() implies #[trigger] t.records[i].wf() by {
                    if i != index {
                        assert(t.records[i] == s.records[i]);
                    }
                }
            }
        },
        Operation::Claim { signer, now } => {},
    }
}

proof fn lemma_run_conserves(s: Escrow, ops: Seq<Operation>)
    requires
        conserved(s),
        in_time_order(ops),
        forall|i: int| 0 <= i < ops.len() ==> time_of(#[trigger] ops[i]) >= s.clock,
    ensures
        conserved(run(s, ops)),
    decreases ops.len(),
{
    if ops.len() > 0 {
        lemma_apply_conserves(s, ops[0]);
        let rest = ops.drop_first();
        assert forall|i: int| 0 <= i < rest.len() implies time_of(#[trigger] rest[i]) >= apply(
            s,
            ops[0],
        ).clock by {
            assert(rest[i] == ops[i + 1]);
        }
        lemma_run_conserves(apply(s, ops[0]), rest);
    }
}

/// Whatever operations follow the opening of a campaign, in order of time,
/// its total always equals the sum of its contributors' outstanding balances,
/// and its account always holds exactly that total until the creator claims
/// it (and nothing once claimed).
pub proof fn lemma_conservation(
    creator: Identity,
    goal_amount: u64,
    end_date: i64,
    ops: Seq<Operation>,
)
    requires
        in_time_order(ops),
    ensures
        conserved(run(opened_escrow(creator, goal_amount, end_date), ops)),
{
    lemma_run_conserves(opened_escrow(creator, goal_amount, end_date), ops);
}

} // verus!
