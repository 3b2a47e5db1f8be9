use spark_mvp::campaign::{create_campaign, CampaignState};
use spark_mvp::errors::SparkError;
use spark_mvp::state::AccountId;

const T: i64 = 1_000;

fn open_campaign(goal: u64) -> CampaignState {
    let creator = AccountId { id: 1 };
    create_campaign(1, creator, T, T + 100, goal).unwrap()
}

#[test]
fn create_campaign_sets_fields() {
    let creator = AccountId { id: 1 };
    let s = create_campaign(7, creator, T, T + 100, 1_000).unwrap();
    assert_eq!(s.campaign.seed, 7);
    assert_eq!(s.campaign.creator, creator);
    assert_eq!(s.campaign.started_at, T);
    assert_eq!(s.campaign.ending_at, T + 100);
    assert_eq!(s.campaign.funding_goal, 1_000);
    assert!(!s.campaign.is_finished);
    assert_eq!(s.escrow_balance, 0);
    assert_eq!(s.backers.len(), 0);
}

#[test]
fn create_campaign_rejects_past_deadline() {
    let creator = AccountId { id: 1 };
    let r = create_campaign(1, creator, T, T, 1_000);
    assert_eq!(r.err(), Some(SparkError::EndingAtNotInFuture));
    let r = create_campaign(1, creator, T, T - 5, 1_000);
    assert_eq!(r.err(), Some(SparkError::EndingAtNotInFuture));
}

#[test]
fn create_campaign_rejects_zero_goal() {
    let creator = AccountId { id: 1 };
    let r = create_campaign(1, creator, T, T + 100, 0);
    assert_eq!(r.err(), Some(SparkError::FundingGoalZero));
}

#[test]
fn scenario_goal_met_full_flow() {
    // Campaign with seed 1, goal 1000, deadline T+100; backer A pledges 600
    // at T+10 and 500 at T+20; the creator withdraws at T+150.
    let creator = AccountId { id: 1 };
    let backer_a = AccountId { id: 2 };
    let mut s = open_campaign(1_000);

    let mut a_funds: u64 = 10_000;
    assert_eq!(s.pledge(backer_a, 600, T + 10, &mut a_funds), Ok(()));
    assert_eq!(s.escrow_balance, 600);
    assert_eq!(a_funds, 9_400);
    assert_eq!(s.backers.len(), 1);
    assert_eq!(s.backers[0].backer, backer_a);
    assert_eq!(s.backers[0].total_pledged, 600);

    assert_eq!(s.pledge(backer_a, 500, T + 20, &mut a_funds), Ok(()));
    assert_eq!(s.escrow_balance, 1_100);
    assert_eq!(a_funds, 8_900);
    assert_eq!(s.backers.len(), 1);
    assert_eq!(s.backers[0].total_pledged, 1_100);

    let mut creator_funds: u64 = 50;
    assert_eq!(s.withdraw(creator, T + 150, &mut creator_funds), Ok(1_100));
    assert_eq!(creator_funds, 1_150);
    assert_eq!(s.escrow_balance, 0);
    assert!(s.campaign.is_finished);
}

#[test]
fn scenario_goal_missed_funds_locked() {
    // Same setup, but backer A pledges only 400 in total: the withdrawal
    // fails and the pledged funds stay in escrow.
    let creator = AccountId { id: 1 };
    let backer_a = AccountId { id: 2 };
    let mut s = open_campaign(1_000);

    let mut a_funds: u64 = 10_000;
    assert_eq!(s.pledge(backer_a, 400, T + 10, &mut a_funds), Ok(()));
    assert_eq!(s.escrow_balance, 400);

    let mut creator_funds: u64 = 50;
    let r = s.withdraw(creator, T + 150, &mut creator_funds);
    assert_eq!(r, Err(SparkError::CampaignFailedNotEnoughFunds));
    assert_eq!(creator_funds, 50);
    assert_eq!(s.escrow_balance, 400);
    assert!(!s.campaign.is_finished);
    assert_eq!(s.backers[0].total_pledged, 400);
}

#[test]
fn escrow_equals_sum_of_pledges() {
    // Pledges from two backers accumulate: the escrow holds the sum of all
    // amounts and each record the sum of its backer's own amounts.
    let backer_a = AccountId { id: 2 };
    let backer_b = AccountId { id: 3 };
    let mut s = open_campaign(5_000);

    let mut a_funds: u64 = 1_000;
    let mut b_funds: u64 = 1_000;
    assert_eq!(s.pledge(backer_a, 100, T + 1, &mut a_funds), Ok(()));
    assert_eq!(s.pledge(backer_b, 250, T + 2, &mut b_funds), Ok(()));
    assert_eq!(s.pledge(backer_a, 40, T + 3, &mut a_funds), Ok(()));
    assert_eq!(s.pledge(backer_b, 10, T + 4, &mut b_funds), Ok(()));

    assert_eq!(s.escrow_balance, 400);
    assert_eq!(s.backers.len(), 2);
    assert_eq!(s.backers[0].backer, backer_a);
    assert_eq!(s.backers[0].total_pledged, 140);
    assert_eq!(s.backers[1].backer, backer_b);
    assert_eq!(s.backers[1].total_pledged, 260);
    assert_eq!(a_funds, 860);
    assert_eq!(b_funds, 740);
}

#[test]
fn zero_pledge_rejected() {
    let backer = AccountId { id: 2 };
    let mut s = open_campaign(1_000);
    let mut funds: u64 = 500;
    let r = s.pledge(backer, 0, T + 10, &mut funds);
    assert_eq!(r, Err(SparkError::PledgeAmountZero));
    assert_eq!(funds, 500);
    assert_eq!(s.escrow_balance, 0);
    assert_eq!(s.backers.len(), 0);
}

#[test]
fn late_pledge_rejected() {
    let backer = AccountId { id: 2 };
    let mut s = open_campaign(1_000);
    let mut funds: u64 = 500;
    // Exactly at the deadline.
    let r = s.pledge(backer, 100, T + 100, &mut funds);
    assert_eq!(r, Err(SparkError::CampaignHasFinished));
    // After the deadline.
    let r = s.pledge(backer, 100, T + 200, &mut funds);
    assert_eq!(r, Err(SparkError::CampaignHasFinished));
    assert_eq!(funds, 500);
    assert_eq!(s.escrow_balance, 0);
    assert_eq!(s.backers.len(), 0);
}

#[test]
fn underfunded_pledge_rejected() {
    let backer = AccountId { id: 2 };
    let mut s = open_campaign(1_000);
    let mut funds: u64 = 99;
    let r = s.pledge(backer, 100, T + 10, &mut funds);
    assert_eq!(r, Err(SparkError::InsufficientBackerFunds));
    assert_eq!(funds, 99);
    assert_eq!(s.escrow_balance, 0);
}

#[test]
fn early_withdraw_rejected() {
    let creator = AccountId { id: 1 };
    let backer = AccountId { id: 2 };
    let mut s = open_campaign(100);
    let mut funds: u64 = 10_000;
    assert_eq!(s.pledge(backer, 5_000, T + 10, &mut funds), Ok(()));

    let mut creator_funds: u64 = 0;
    // Before the deadline, regardless of the balance.
    let r = s.withdraw(creator, T + 50, &mut creator_funds);
    assert_eq!(r, Err(SparkError::CampaignStillRunning));
    // Exactly at the deadline.
    let r = s.withdraw(creator, T + 100, &mut creator_funds);
    assert_eq!(r, Err(SparkError::CampaignStillRunning));
    assert_eq!(creator_funds, 0);
    assert_eq!(s.escrow_balance, 5_000);
    assert!(!s.campaign.is_finished);
}

#[test]
fn unauthorized_withdraw_rejected() {
    let backer = AccountId { id: 2 };
    let intruder = AccountId { id: 9 };
    let mut s = open_campaign(100);
    let mut funds: u64 = 10_000;
    assert_eq!(s.pledge(backer, 5_000, T + 10, &mut funds), Ok(()));

    let mut intruder_funds: u64 = 0;
    let r = s.withdraw(intruder, T + 150, &mut intruder_funds);
    assert_eq!(r, Err(SparkError::UnauthorizedCreator));
    assert_eq!(intruder_funds, 0);
    assert_eq!(s.escrow_balance, 5_000);
    assert!(!s.campaign.is_finished);
}

#[test]
fn second_withdraw_rejected() {
    let creator = AccountId { id: 1 };
    let backer = AccountId { id: 2 };
    let mut s = open_campaign(100);
    let mut funds: u64 = 10_000;
    assert_eq!(s.pledge(backer, 500, T + 10, &mut funds), Ok(()));

    let mut creator_funds: u64 = 0;
    assert_eq!(s.withdraw(creator, T + 150, &mut creator_funds), Ok(500));
    assert_eq!(creator_funds, 500);

    let r = s.withdraw(creator, T + 151, &mut creator_funds);
    assert_eq!(r, Err(SparkError::CampaignAlreadyFinished));
    assert_eq!(creator_funds, 500);
    assert_eq!(s.escrow_balance, 0);
}

#[test]
fn pledge_to_finished_campaign_rejected() {
    let creator = AccountId { id: 1 };
    let backer = AccountId { id: 2 };
    let mut s = open_campaign(100);
    let mut funds: u64 = 10_000;
    assert_eq!(s.pledge(backer, 500, T + 10, &mut funds), Ok(()));
    let mut creator_funds: u64 = 0;
    assert_eq!(s.withdraw(creator, T + 150, &mut creator_funds), Ok(500));

    // Even a pledge timestamped before the deadline is rejected once the
    // campaign has been withdrawn from.
    let r = s.pledge(backer, 100, T + 10, &mut funds);
    assert_eq!(r, Err(SparkError::CampaignHasFinished));
    assert_eq!(funds, 9_500);
    assert_eq!(s.escrow_balance, 0);
}
