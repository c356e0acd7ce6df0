use solfundme::{
    contribute, create_campaign, withdraw_contributer, withdraw_creator, Campaign, Contributor,
    Identity, SolFundMeError,
};

const T: i64 = 1_700_000_000;

fn id(b: u8) -> Identity {
    Identity::new([b; 32])
}

fn creator() -> Identity {
    id(1)
}

fn alice() -> Identity {
    id(2)
}

fn bob() -> Identity {
    id(3)
}

fn open(goal: u64, deadline: i64) -> Campaign {
    create_campaign(&None, creator(), goal, deadline).unwrap()
}

#[test]
fn scenario_goal_met_creator_claims() {
    let mut c = open(100, T);
    let mut ra: Option<Contributor> = None;
    let mut rb: Option<Contributor> = None;
    assert_eq!(contribute(&mut c, &mut ra, alice(), 1_000, 60, T - 10), Ok(60));
    assert_eq!(c.total_contributed, 60);
    assert_eq!(contribute(&mut c, &mut rb, bob(), 1_000, 50, T - 5), Ok(50));
    assert_eq!(c.total_contributed, 110);
    assert_eq!(withdraw_creator(&mut c, creator(), T + 1), Ok(110));
    assert!(c.withdrawn);
    assert_eq!(c.total_contributed, 110);
}

#[test]
fn scenario_goal_missed_contributor_refunded() {
    let mut c = open(100, T);
    let mut ra: Option<Contributor> = None;
    assert_eq!(contribute(&mut c, &mut ra, alice(), 1_000, 40, T - 10), Ok(40));
    let before = c;
    assert_eq!(withdraw_creator(&mut c, creator(), T + 1), Err(SolFundMeError::GoalNotReached));
    assert_eq!(c, before);
    assert_eq!(withdraw_contributer(&mut c, ra.as_mut().unwrap(), alice(), T + 2), Ok(40));
    assert_eq!(c.total_contributed, 0);
    assert_eq!(ra.unwrap().amount, 0);
    assert!(ra.unwrap().withdrawn);
}

#[test]
fn scenario_early_exit_before_deadline() {
    let mut c = open(100, T);
    let mut ra: Option<Contributor> = None;
    assert_eq!(contribute(&mut c, &mut ra, alice(), 1_000, 10, T - 5), Ok(10));
    assert_eq!(withdraw_contributer(&mut c, ra.as_mut().unwrap(), alice(), T - 3), Ok(10));
    assert_eq!(c.total_contributed, 0);
}

#[test]
fn scenario_zero_contribution_rejected() {
    let mut c = open(100, T);
    let mut ra: Option<Contributor> = None;
    assert_eq!(contribute(&mut c, &mut ra, alice(), 1_000, 0, T - 5), Err(SolFundMeError::InvalidAmount));
    assert_eq!(c.total_contributed, 0);
    assert_eq!(ra, None);
}

#[test]
fn scenario_creator_cannot_contribute() {
    let mut c = open(100, T);
    let mut rc: Option<Contributor> = None;
    assert_eq!(contribute(&mut c, &mut rc, creator(), 1_000, 10, T - 5), Err(SolFundMeError::Unauthorized));
    assert_eq!(c.total_contributed, 0);
    assert_eq!(rc, None);
}

#[test]
fn open_fills_fields() {
    let c = open(100, T);
    assert_eq!(c.authority, creator());
    assert_eq!(c.goal_amount, 100);
    assert_eq!(c.end_date, T);
    assert_eq!(c.total_contributed, 0);
    assert!(!c.withdrawn);
}

#[test]
fn open_twice_rejected() {
    let c = open(100, T);
    assert_eq!(create_campaign(&Some(c), creator(), 5, T + 9), Err(SolFundMeError::AlreadyExists));
}

#[test]
fn open_degenerate_campaign_accepted() {
    let c = create_campaign(&None, creator(), 0, 0).unwrap();
    assert_eq!(c.goal_amount, 0);
    assert_eq!(c.end_date, 0);
}

#[test]
fn contribution_over_balance_rejected() {
    let mut c = open(100, T);
    let mut ra: Option<Contributor> = None;
    assert_eq!(contribute(&mut c, &mut ra, alice(), 50, 51, T - 5), Err(SolFundMeError::InvalidAmount));
    assert_eq!(contribute(&mut c, &mut ra, alice(), 50, 50, T - 5), Ok(50));
}

#[test]
fn contribution_at_deadline_rejected() {
    let mut c = open(100, T);
    let mut ra: Option<Contributor> = None;
    assert_eq!(contribute(&mut c, &mut ra, alice(), 1_000, 10, T), Err(SolFundMeError::CampaignEnded));
    assert_eq!(contribute(&mut c, &mut ra, alice(), 1_000, 10, T + 100), Err(SolFundMeError::CampaignEnded));
    assert_eq!(contribute(&mut c, &mut ra, alice(), 1_000, 10, T - 1), Ok(10));
    assert_eq!(c.total_contributed, 10);
}

#[test]
fn contributions_accumulate_in_one_record() {
    let mut c = open(100, T);
    let mut ra: Option<Contributor> = None;
    assert_eq!(contribute(&mut c, &mut ra, alice(), 1_000, 7, T - 9), Ok(7));
    assert_eq!(contribute(&mut c, &mut ra, alice(), 1_000, 8, T - 8), Ok(8));
    assert_eq!(ra.unwrap().amount, 15);
    assert_eq!(ra.unwrap().owner, alice());
    assert_eq!(c.total_contributed, 15);
}

#[test]
fn recontribution_after_exit_reopens_record() {
    let mut c = open(100, T);
    let mut ra: Option<Contributor> = None;
    contribute(&mut c, &mut ra, alice(), 1_000, 30, T - 9).unwrap();
    withdraw_contributer(&mut c, ra.as_mut().unwrap(), alice(), T - 8).unwrap();
    assert_eq!(contribute(&mut c, &mut ra, alice(), 1_000, 5, T - 7), Ok(5));
    assert_eq!(ra.unwrap().amount, 5);
    assert!(!ra.unwrap().withdrawn);
    assert_eq!(c.total_contributed, 5);
}

#[test]
fn second_exit_fails_and_changes_nothing() {
    let mut c = open(100, T);
    let mut ra: Option<Contributor> = None;
    let mut rb: Option<Contributor> = None;
    contribute(&mut c, &mut ra, alice(), 1_000, 20, T - 9).unwrap();
    contribute(&mut c, &mut rb, bob(), 1_000, 30, T - 9).unwrap();
    assert_eq!(withdraw_contributer(&mut c, ra.as_mut().unwrap(), alice(), T - 5), Ok(20));
    let (c_before, ra_before) = (c, ra);
    assert_eq!(withdraw_contributer(&mut c, ra.as_mut().unwrap(), alice(), T - 4), Err(SolFundMeError::AlreadyWithdrawn));
    assert_eq!(c, c_before);
    assert_eq!(ra, ra_before);
    assert_eq!(c.total_contributed, 30);
}

#[test]
fn exit_by_another_signer_rejected() {
    let mut c = open(100, T);
    let mut ra: Option<Contributor> = None;
    contribute(&mut c, &mut ra, alice(), 1_000, 20, T - 9).unwrap();
    assert_eq!(withdraw_contributer(&mut c, ra.as_mut().unwrap(), bob(), T - 5), Err(SolFundMeError::Unauthorized));
    assert_eq!(ra.unwrap().amount, 20);
    assert_eq!(c.total_contributed, 20);
}

#[test]
fn exit_blocked_after_success() {
    let mut c = open(100, T);
    let mut ra: Option<Contributor> = None;
    contribute(&mut c, &mut ra, alice(), 1_000, 100, T - 9).unwrap();
    // Goal met but deadline not reached: exit still allowed.
    let (c0, ra0) = (c, ra);
    assert_eq!(withdraw_contributer(&mut c, ra.as_mut().unwrap(), alice(), T - 1), Ok(100));
    c = c0;
    ra = ra0;
    assert_eq!(withdraw_contributer(&mut c, ra.as_mut().unwrap(), alice(), T), Err(SolFundMeError::RefundConditionsNotMet));
    assert_eq!(c.total_contributed, 100);
    assert_eq!(ra.unwrap().amount, 100);
}

#[test]
fn claim_twice_fails() {
    let mut c = open(50, T);
    let mut ra: Option<Contributor> = None;
    contribute(&mut c, &mut ra, alice(), 1_000, 60, T - 9).unwrap();
    assert_eq!(withdraw_creator(&mut c, creator(), T), Ok(60));
    assert_eq!(withdraw_creator(&mut c, creator(), T + 5), Err(SolFundMeError::AlreadyWithdrawn));
    assert!(c.withdrawn);
}

#[test]
fn claim_by_non_creator_rejected() {
    let mut c = open(50, T);
    let mut ra: Option<Contributor> = None;
    contribute(&mut c, &mut ra, alice(), 1_000, 60, T - 9).unwrap();
    assert_eq!(withdraw_creator(&mut c, alice(), T + 1), Err(SolFundMeError::Unauthorized));
    assert!(!c.withdrawn);
}

#[test]
fn claim_before_deadline_rejected() {
    let mut c = open(50, T);
    let mut ra: Option<Contributor> = None;
    contribute(&mut c, &mut ra, alice(), 1_000, 60, T - 9).unwrap();
    assert_eq!(withdraw_creator(&mut c, creator(), T - 1), Err(SolFundMeError::CampaignNotEnded));
    assert!(!c.withdrawn);
}

#[test]
fn total_tracks_outstanding_balances() {
    let mut c = open(1_000, T);
    let mut ra: Option<Contributor> = None;
    let mut rb: Option<Contributor> = None;
    contribute(&mut c, &mut ra, alice(), 1_000, 11, T - 9).unwrap();
    contribute(&mut c, &mut rb, bob(), 1_000, 22, T - 8).unwrap();
    contribute(&mut c, &mut ra, alice(), 1_000, 33, T - 7).unwrap();
    withdraw_contributer(&mut c, rb.as_mut().unwrap(), bob(), T - 6).unwrap();
    let sum: u64 = [ra.unwrap(), rb.unwrap()].iter().filter(|r| !r.withdrawn).map(|r| r.amount).sum();
    assert_eq!(c.total_contributed, sum);
    assert_eq!(c.total_contributed, 44);
}

#[test]
fn identities_compare_by_bytes() {
    let mut b = [9u8; 32];
    assert_eq!(Identity::new(b), Identity::new([9u8; 32]));
    b[31] = 8;
    assert_ne!(Identity::new(b), Identity::new([9u8; 32]));
}

#[test]
fn error_messages_are_distinct() {
    let all = [
        SolFundMeError::InvalidAmount,
        SolFundMeError::CampaignEnded,
        SolFundMeError::CampaignNotEnded,
        SolFundMeError::GoalNotReached,
        SolFundMeError::RefundConditionsNotMet,
        SolFundMeError::AlreadyWithdrawn,
        SolFundMeError::Unauthorized,
        SolFundMeError::AlreadyExists,
    ];
    for (i, a) in all.iter().enumerate() {
        for b in all.iter().skip(i + 1) {
            assert_ne!(a.message(), b.message());
        }
    }
    assert_eq!(SolFundMeError::InvalidAmount.message(), "The amount must be greater than zero.");
}

#[test]
fn contribution_into_another_owners_record_rejected() {
    let mut c = open(100, T);
    let mut ra: Option<Contributor> = None;
    contribute(&mut c, &mut ra, alice(), 1_000, 10, T - 9).unwrap();
    assert_eq!(contribute(&mut c, &mut ra, bob(), 1_000, 10, T - 8), Err(SolFundMeError::Unauthorized));
    assert_eq!(ra.unwrap().owner, alice());
    assert_eq!(ra.unwrap().amount, 10);
    assert_eq!(c.total_contributed, 10);
}

#[test]
fn first_contribution_creates_record() {
    let mut c = open(100, T);
    let mut rb: Option<Contributor> = None;
    assert_eq!(contribute(&mut c, &mut rb, bob(), 1_000, 12, T - 9), Ok(12));
    assert_eq!(rb, Some(Contributor { owner: bob(), amount: 12, withdrawn: false }));
    assert_eq!(Contributor::new(bob()), Contributor { owner: bob(), amount: 0, withdrawn: false });
}
