use xshare::bid_close::{
    close_commit_cashout, close_commit_cashout_checked, close_commit_delete_bid, close_commit_delete_bid_checked,
    close_messenger_bid_track,
};
use xshare::error::ProgramError;
use xshare::layout::PROGRAM_ID;
use xshare::types::{AccountClass, AccountInfo, RollupMessenger, RollupUpdates, SpaceCreator};

const SLOTS: usize = 221;

fn account(key: u8, lamports: u64, data: Vec<u8>) -> AccountInfo {
    AccountInfo { key: [key; 32], lamports, data }
}

fn record(creator: [u8; 32], update: RollupUpdates) -> RollupMessenger {
    RollupMessenger {
        class: AccountClass::RollupMessengerV1,
        store_hash: 0,
        state: 0,
        creator,
        slot: 0,
        needs_to_update: vec![update],
    }
}

fn bid_track_on_spot(spot: [u8; 32], budget: u64) -> Vec<u8> {
    let mut bt = vec![0u8; 142];
    bt[47..79].copy_from_slice(&spot);
    bt[79..87].copy_from_slice(&budget.to_le_bytes());
    bt
}

fn space_creator() -> SpaceCreator {
    SpaceCreator {
        class: AccountClass::SpaceCreatorV1,
        creator: [0; 32],
        store_hash: 0,
        created: 0,
        living: 0,
        earning: 5,
        creator_manager: [0; 32],
        extra: [0; 144],
    }
}

fn tracks_of(campaign: [u8; 32]) -> [u8; 32] {
    let program = solana_program::pubkey::Pubkey::new_from_array(PROGRAM_ID);
    solana_program::pubkey::Pubkey::find_program_address(&[b"ad_campaign_bid_tracks", &campaign], &program)
        .0
        .to_bytes()
}

fn register(account: [u8; 32], index: u32) -> RollupUpdates {
    RollupUpdates::RegisterBid { account, changes_count: 1, index, budget: 1, budget_per_click: 1, budget_per_view: 1 }
}

#[test]
fn closing_a_registration_makes_the_bid_ready_and_refunds() {
    let mut m = account(1, 20_000, vec![]);
    let rec = record([7; 32], register([3; 32], 1));
    let mut campaign = vec![0u8; SLOTS + 2];
    campaign[SLOTS + 1] = 3;
    let bt = bid_track_on_spot([4; 32], 0);
    let mut mc = account(5, 100, vec![]);
    close_messenger_bid_track(&mut m, &rec, &mut campaign, &[3; 32], &bt, &[4; 32], &mut mc, &[8; 32]).unwrap();
    assert_eq!(campaign[SLOTS + 1], 1);
    assert_eq!(m.lamports, 15_000);
    assert_eq!(mc.lamports, 5_100);
}

#[test]
fn the_creator_closing_its_own_messenger_keeps_the_lamports() {
    let mut m = account(1, 20_000, vec![]);
    let rec = record([8; 32], register([3; 32], 0));
    let mut campaign = vec![0u8; SLOTS + 1];
    campaign[SLOTS] = 3;
    let bt = bid_track_on_spot([4; 32], 0);
    let mut mc = account(5, 100, vec![]);
    close_messenger_bid_track(&mut m, &rec, &mut campaign, &[3; 32], &bt, &[4; 32], &mut mc, &[8; 32]).unwrap();
    assert_eq!((m.lamports, mc.lamports), (20_000, 100));
}

#[test]
fn closing_a_registration_checks_account_spot_and_state() {
    let bt = bid_track_on_spot([4; 32], 0);
    let mut campaign = vec![0u8; SLOTS + 1];
    campaign[SLOTS] = 3;
    let mut m = account(1, 20_000, vec![]);
    let mut mc = account(5, 100, vec![]);
    let rec = record([7; 32], register([9; 32], 0));
    assert_eq!(
        close_messenger_bid_track(&mut m, &rec, &mut campaign, &[3; 32], &bt, &[4; 32], &mut mc, &[8; 32]),
        Err(ProgramError::InvalidAccountData)
    );
    let cash = record([7; 32], RollupUpdates::CashoutBid { account: [3; 32], changes_count: 0, index: 0, earned: 0 });
    assert_eq!(
        close_messenger_bid_track(&mut m, &cash, &mut campaign, &[3; 32], &bt, &[4; 32], &mut mc, &[8; 32]),
        Err(ProgramError::InvalidAccountData)
    );
    let rec = record([7; 32], register([3; 32], 0));
    assert_eq!(
        close_messenger_bid_track(&mut m, &rec, &mut campaign, &[3; 32], &bt, &[6; 32], &mut mc, &[8; 32]),
        Err(ProgramError::InvalidAccountData)
    );
    campaign[SLOTS] = 1;
    assert_eq!(
        close_messenger_bid_track(&mut m, &rec, &mut campaign, &[3; 32], &bt, &[4; 32], &mut mc, &[8; 32]),
        Err(ProgramError::InvalidArgument)
    );
    assert_eq!((m.lamports, mc.lamports, campaign[SLOTS]), (20_000, 100, 1));
}

#[test]
fn closing_a_cashout_pays_the_space_owner() {
    let mut campaign = account(11, 0, vec![0u8; SLOTS + 1]);
    campaign.data[SLOTS] = 20;
    let tracks = tracks_of([11; 32]);
    let rec = record([7; 32], RollupUpdates::CashoutBid { account: tracks, changes_count: 2, index: 0, earned: 300 });
    let mut m = account(1, 20_000, vec![]);
    let bt = bid_track_on_spot([4; 32], 0);
    let mut owner = account(2, 10, vec![]);
    let mut sc = space_creator();
    let mut mc = account(5, 0, vec![]);
    close_commit_cashout(&mut m, &rec, &mut campaign, &bt, &[4; 32], &mut owner, &mut sc, &mut mc, &[8; 32]).unwrap();
    assert_eq!(owner.lamports, 310);
    assert_eq!(sc.earning, 305);
    assert_eq!(campaign.data[SLOTS], 1);
    assert_eq!(m.lamports, 15_000);
    assert_eq!(mc.lamports, 20_000 - 300 - 15_000);
}

#[test]
fn checked_closing_runs_only_where_the_program_does_not_fail_outright() {
    let mut campaign = account(11, 0, vec![0u8; SLOTS + 1]);
    campaign.data[SLOTS] = 20;
    let tracks = tracks_of([11; 32]);
    let rec = record([7; 32], RollupUpdates::CashoutBid { account: tracks, changes_count: 2, index: 0, earned: 300 });
    let bt = bid_track_on_spot([4; 32], 0);
    let mut sc = space_creator();
    let mut mc = account(5, 0, vec![]);
    let mut owner = account(2, 10, vec![]);
    let mut poor = account(1, 100, vec![]);
    let r = close_commit_cashout_checked(&mut poor, &rec, &mut campaign, &bt, &[4; 32], &mut owner, &mut sc, &mut mc, &[8; 32]);
    assert_eq!(r, None);
    assert_eq!((poor.lamports, owner.lamports, campaign.data[SLOTS]), (100, 10, 20));
    let mut m = account(1, 20_000, vec![]);
    let r = close_commit_cashout_checked(&mut m, &rec, &mut campaign, &bt, &[4; 32], &mut owner, &mut sc, &mut mc, &[8; 32]);
    assert_eq!(r, Some(Ok(())));
    assert_eq!(owner.lamports, 310);
    let mut empty = rec.clone();
    empty.needs_to_update = vec![];
    let mut bt2 = account(3, 0, bid_track_on_spot([4; 32], 0));
    let mut ad_owner = account(6, 0, vec![]);
    let r = close_commit_delete_bid_checked(
        &mut m, &empty, &mut campaign, &mut bt2, &[4; 32], &mut owner, &mut ad_owner, &mut sc, &mut mc, &[8; 32],
    );
    assert_eq!(r, None);
}

#[test]
fn closing_a_cashout_for_another_campaign_is_refused() {
    let mut campaign = account(11, 0, vec![0u8; SLOTS + 1]);
    campaign.data[SLOTS] = 20;
    let rec = record([7; 32], RollupUpdates::CashoutBid { account: [3; 32], changes_count: 2, index: 0, earned: 300 });
    let mut m = account(1, 20_000, vec![]);
    let bt = bid_track_on_spot([4; 32], 0);
    let mut owner = account(2, 10, vec![]);
    let mut sc = space_creator();
    let mut mc = account(5, 0, vec![]);
    assert_eq!(
        close_commit_cashout(&mut m, &rec, &mut campaign, &bt, &[4; 32], &mut owner, &mut sc, &mut mc, &[8; 32]),
        Err(ProgramError::InvalidAccountData)
    );
    assert_eq!((owner.lamports, sc.earning, m.lamports), (10, 5, 20_000));
}

#[test]
fn closing_a_deletion_after_a_delete_request_is_refused() {
    let mut campaign = account(11, 0, vec![0u8; SLOTS + 1]);
    campaign.data[SLOTS] = 22;
    let tracks = tracks_of([11; 32]);
    let rec = record([7; 32], RollupUpdates::DeletingBid { account: tracks, changes_count: 2, index: 0, must_pay_user: 40 });
    let mut m = account(1, 20_000, vec![]);
    let mut bt = account(12, 1_000, bid_track_on_spot([4; 32], 600));
    let mut owner = account(2, 10, vec![]);
    let mut ad_owner = account(3, 0, vec![]);
    let mut sc = space_creator();
    let mut mc = account(5, 0, vec![]);
    assert_eq!(
        close_commit_delete_bid(&mut m, &rec, &mut campaign, &mut bt, &[4; 32], &mut owner, &mut ad_owner, &mut sc, &mut mc, &[8; 32]),
        Err(ProgramError::InvalidAccountData)
    );
    assert_eq!(bt.lamports, 1_000);
}

#[test]
fn closing_a_deletion_returns_the_budget_and_closes_the_track() {
    let mut campaign = account(11, 0, vec![0u8; SLOTS + 1]);
    campaign.data[SLOTS] = 20;
    let tracks = tracks_of([11; 32]);
    let rec = record([7; 32], RollupUpdates::DeletingBid { account: tracks, changes_count: 2, index: 0, must_pay_user: 40 });
    let mut m = account(1, 20_000, vec![]);
    let mut bt = account(12, 1_000, bid_track_on_spot([4; 32], 600));
    let mut owner = account(2, 10, vec![]);
    let mut ad_owner = account(3, 0, vec![]);
    let mut sc = space_creator();
    let mut mc = account(5, 0, vec![]);
    close_commit_delete_bid(&mut m, &rec, &mut campaign, &mut bt, &[4; 32], &mut owner, &mut ad_owner, &mut sc, &mut mc, &[8; 32]).unwrap();
    assert_eq!(owner.lamports, 50);
    assert_eq!(ad_owner.lamports, 1_000);
    assert_eq!(bt.lamports, 0);
    assert!(bt.data.iter().all(|b| *b == 0));
    assert_eq!(sc.earning, 45);
    assert_eq!(campaign.data[SLOTS], 1);
    assert_eq!(m.lamports + mc.lamports, 20_000 - 40);
}

#[test]
fn closing_a_deletion_that_would_overflow_is_refused() {
    let mut campaign = account(11, 0, vec![0u8; SLOTS + 1]);
    campaign.data[SLOTS] = 20;
    let tracks = tracks_of([11; 32]);
    let rec = record([7; 32], RollupUpdates::DeletingBid { account: tracks, changes_count: 2, index: 0, must_pay_user: 0 });
    let mut m = account(1, 20_000, vec![]);
    let mut bt = account(12, 1_000, bid_track_on_spot([4; 32], 0));
    let mut owner = account(2, 10, vec![]);
    let mut ad_owner = account(3, u64::MAX - 10, vec![]);
    let mut sc = space_creator();
    let mut mc = account(5, 0, vec![]);
    assert_eq!(
        close_commit_delete_bid(&mut m, &rec, &mut campaign, &mut bt, &[4; 32], &mut owner, &mut ad_owner, &mut sc, &mut mc, &[8; 32]),
        Err(ProgramError::InvalidArgument)
    );
}
