use xshare::bid_grow::{grow_ad_track, GrowStep};
use xshare::codec::update_to_bytes;
use xshare::error::ProgramError;
use xshare::types::{AccountClass, AccountInfo, AdCreator, RollupUpdates, Store};

fn store(manager: [u8; 32]) -> Store {
    Store {
        class: AccountClass::StoreV1,
        creator: [0; 32],
        universe: [0; 32],
        slot: 0,
        store_hash: 0,
        master: [0; 32],
        master_manager: manager,
        living_campaigns: 0,
        living_spots: 0,
        extra: [0; 144],
    }
}

fn ad_creator(creator: [u8; 32], manager: [u8; 32]) -> AdCreator {
    AdCreator {
        class: AccountClass::AdCreatorV1,
        creator,
        store_hash: 0,
        created_spots: 0,
        living_spots: 0,
        created_bids: 0,
        living_bids: 0,
        spent: 0,
        creator_manager: manager,
        extra: [0; 136],
    }
}

fn messenger(state: u8, update: &RollupUpdates, lamports: u64) -> AccountInfo {
    let mut data = vec![0u8; 131];
    data[17] = state;
    let u = update_to_bytes(update);
    data[62..62 + u.len()].copy_from_slice(&u);
    AccountInfo { key: [1; 32], lamports, data }
}

fn register(account: [u8; 32], index: u32) -> RollupUpdates {
    RollupUpdates::RegisterBid { account, changes_count: 12, index, budget: 500, budget_per_click: 7, budget_per_view: 3 }
}

fn tracks(len: usize) -> AccountInfo {
    AccountInfo { key: [3; 32], lamports: 100, data: vec![0u8; len] }
}

#[test]
fn first_growth_registers_the_bid_and_grows_the_filters() {
    let s = store([9; 32]);
    let a = ad_creator([4; 32], [5; 32]);
    let mut m = messenger(1, &register([3; 32], 1), 5_000);
    let mut bt = AccountInfo { key: [2; 32], lamports: 0, data: vec![0u8; 142] };
    let mut t = tracks(118);
    let r = grow_ad_track(&s, &a, &[4; 32], &mut m, &mut bt, &mut t, 2_000, 800);
    assert_eq!(r, Ok(GrowStep::Grown { done: true }));
    assert_eq!(m.lamports, 2_000);
    assert_eq!(t.lamports, 3_100);
    assert_eq!(t.data.len(), 118 + 22 * 3);
    assert_eq!(&t.data[140..162], &[1, 1, 3, 0, 0, 0, 0, 0, 0, 0, 7, 0, 0, 0, 0, 0, 0, 0, 0, 0, 0, 0]);
    assert_eq!(u32::from_le_bytes(t.data[114..118].try_into().unwrap()), 2);
    assert_eq!(u32::from_le_bytes(t.data[110..114].try_into().unwrap()), 1);
    assert_eq!(u64::from_le_bytes(t.data[81..89].try_into().unwrap()), 12);
    assert_eq!(bt.data.len(), 142 + 200);
    assert_eq!(m.data[17], 4);
}

#[test]
fn large_filters_grow_one_step_at_a_time() {
    let s = store([9; 32]);
    let a = ad_creator([4; 32], [5; 32]);
    let mut m = messenger(1, &register([3; 32], 0), 2_000);
    let mut bt = AccountInfo { key: [2; 32], lamports: 0, data: vec![0u8; 142] };
    let mut t = tracks(118);
    let bits = 8 * 15_000;
    assert_eq!(grow_ad_track(&s, &a, &[9; 32], &mut m, &mut bt, &mut t, 2_000, bits), Ok(GrowStep::Grown { done: false }));
    assert_eq!(bt.data.len(), 142 + 10_240);
    assert_eq!(m.data[17], 3);
    let t_after_first = t.data.clone();
    assert_eq!(grow_ad_track(&s, &a, &[9; 32], &mut m, &mut bt, &mut t, 2_000, bits), Ok(GrowStep::Grown { done: false }));
    assert_eq!(bt.data.len(), 142 + 20_480);
    assert_eq!(t.data, t_after_first);
    assert_eq!(grow_ad_track(&s, &a, &[9; 32], &mut m, &mut bt, &mut t, 2_000, bits), Ok(GrowStep::Grown { done: true }));
    assert_eq!(bt.data.len(), 142 + 30_000);
    assert_eq!(m.data[17], 4);
    assert_eq!(grow_ad_track(&s, &a, &[9; 32], &mut m, &mut bt, &mut t, 2_000, bits), Ok(GrowStep::AlreadyProcessed));
}

#[test]
fn growth_refuses_strangers_and_bad_messengers() {
    let s = store([9; 32]);
    let a = ad_creator([4; 32], [5; 32]);
    let mut bt = AccountInfo { key: [2; 32], lamports: 0, data: vec![0u8; 142] };
    let mut t = tracks(118);
    let mut m = messenger(1, &register([3; 32], 0), 2_000);
    assert_eq!(grow_ad_track(&s, &a, &[6; 32], &mut m, &mut bt, &mut t, 2_000, 800), Err(ProgramError::InvalidAccountData));
    let mut m = messenger(7, &register([3; 32], 0), 2_000);
    assert_eq!(grow_ad_track(&s, &a, &[5; 32], &mut m, &mut bt, &mut t, 2_000, 800), Err(ProgramError::InvalidAccountData));
    let mut m = messenger(1, &RollupUpdates::CashoutBid { account: [3; 32], changes_count: 0, index: 0, earned: 0 }, 2_000);
    assert_eq!(grow_ad_track(&s, &a, &[5; 32], &mut m, &mut bt, &mut t, 2_000, 800), Err(ProgramError::BorshIoError));
    let mut m = messenger(1, &register([8; 32], 0), 2_000);
    assert_eq!(grow_ad_track(&s, &a, &[5; 32], &mut m, &mut bt, &mut t, 2_000, 800), Err(ProgramError::InvalidAccountData));
    assert_eq!((bt.data.len(), t.data.len(), m.data[17]), (142, 118, 1));
}

#[test]
fn growth_refuses_a_taken_slot_and_a_too_large_resize() {
    let s = store([9; 32]);
    let a = ad_creator([4; 32], [5; 32]);
    let mut bt = AccountInfo { key: [2; 32], lamports: 0, data: vec![0u8; 142] };
    let mut t = tracks(140);
    t.data[118] = 1;
    let mut m = messenger(1, &register([3; 32], 0), 2_000);
    assert_eq!(grow_ad_track(&s, &a, &[9; 32], &mut m, &mut bt, &mut t, 2_000, 800), Err(ProgramError::InvalidAccountData));
    let mut m = messenger(1, &register([3; 32], 1_000), 2_000);
    let mut t = tracks(118);
    assert_eq!(grow_ad_track(&s, &a, &[9; 32], &mut m, &mut bt, &mut t, 2_000, 800), Err(ProgramError::InvalidRealloc));
}
