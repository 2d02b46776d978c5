use xshare::ascii::{encode_bytes_to_ascii_string, encode_u64_to_ascii_string};
use xshare::bid_open::{bid_on_space, bid_payments, messenger_funding, BidOpening, BidPayments};
use xshare::bids::{
    cashout_earnings, commit_cashout, commit_delete_bid, delete_bid, record_view_click,
    request_fits, reserve_bid_slot,
};
use xshare::codec::{bid_config_to_bytes, update_to_bytes};
use xshare::error::ProgramError;
use xshare::layout::PROGRAM_ID;
use xshare::types::{
    AccountClass, AccountInfo, AdSpot, AssetBundler, BidConfig, RollupUpdates, Store,
};

const CAMPAIGN_SLOTS: usize = 221;

fn store(manager: [u8; 32], store_hash: u64) -> Store {
    Store {
        class: AccountClass::StoreV1,
        creator: [0; 32],
        universe: [0; 32],
        slot: 0,
        store_hash,
        master: [0; 32],
        master_manager: manager,
        living_campaigns: 0,
        living_spots: 0,
        extra: [0; 144],
    }
}

fn put64(d: &mut [u8], off: usize, v: u64) {
    d[off..off + 8].copy_from_slice(&v.to_le_bytes());
}

fn put32(d: &mut [u8], off: usize, v: u32) {
    d[off..off + 4].copy_from_slice(&v.to_le_bytes());
}

fn get64(d: &[u8], off: usize) -> u64 {
    u64::from_le_bytes(d[off..off + 8].try_into().unwrap())
}

fn get32(d: &[u8], off: usize) -> u32 {
    u32::from_le_bytes(d[off..off + 4].try_into().unwrap())
}

fn account(key: u8, lamports: u64, data: Vec<u8>) -> AccountInfo {
    AccountInfo { key: [key; 32], lamports, data }
}

fn config(budget: u64, per_view: u64, per_click: u64) -> BidConfig {
    BidConfig { budget, bloom_accuracy: 100, max_viewers: 10, budget_per_view: per_view, budget_per_click: per_click }
}

#[test]
fn reserving_a_slot_counts_the_bid() {
    let mut campaign = vec![0u8; CAMPAIGN_SLOTS + 2];
    put64(&mut campaign, 161, 5);
    let r = reserve_bid_slot(&mut campaign, 1).unwrap();
    assert_eq!(r.changes_count, 6);
    assert!(r.native_currency);
    assert_eq!(r.total_needed, CAMPAIGN_SLOTS + 3);
    assert_eq!(r.different_size, 3);
    assert_eq!(campaign[CAMPAIGN_SLOTS + 1], 3);
    assert_eq!(get64(&campaign, 161), 6);
    assert_eq!(get32(&campaign, 217), 3);
    assert_eq!(get32(&campaign, 213), 1);
}

#[test]
fn reserving_a_used_slot_is_refused() {
    let mut campaign = vec![0u8; CAMPAIGN_SLOTS + 2];
    campaign[CAMPAIGN_SLOTS] = 1;
    campaign[127] = 9;
    let before = campaign.clone();
    assert_eq!(reserve_bid_slot(&mut campaign, 0), Err(ProgramError::InvalidArgument));
    assert_eq!(campaign, before);
}

#[test]
fn reserving_reports_a_token_currency() {
    let mut campaign = vec![0u8; CAMPAIGN_SLOTS + 4];
    campaign[127] = 9;
    put32(&mut campaign, 217, 5);
    let r = reserve_bid_slot(&mut campaign, 0).unwrap();
    assert!(!r.native_currency);
    assert_eq!(r.different_size, 1);
    assert_eq!(get32(&campaign, 217), 6);
}

fn bid_track_for(index: u32) -> Vec<u8> {
    let mut bt = vec![0u8; 142];
    put32(&mut bt, 43, index);
    bt
}

#[test]
fn cashout_request_moves_the_slot_and_writes_the_messenger() {
    let s = store([1; 32], 77);
    let bt = bid_track_for(0);
    let mut campaign = vec![0u8; CAMPAIGN_SLOTS + 1];
    campaign[CAMPAIGN_SLOTS] = 1;
    put64(&mut campaign, 161, 4);
    let mut messenger = vec![0u8; 83];
    let c = cashout_earnings(&s, &[2; 32], &bt, &mut campaign, &[3; 32], &mut messenger).unwrap();
    assert_eq!((c.index, c.changes_count), (0, 5));
    assert_eq!(campaign[CAMPAIGN_SLOTS], 20);
    assert_eq!(get64(&messenger, 9), 77);
    assert_eq!(messenger[17], 5);
    assert_eq!(get32(&messenger, 26), 1);
    let expected = update_to_bytes(&RollupUpdates::CashoutBid {
        account: [3; 32],
        changes_count: 5,
        index: 0,
        earned: 0,
    });
    assert_eq!(&messenger[30..83], expected.as_slice());
}

#[test]
fn cashout_request_from_paused_and_refusal() {
    let s = store([1; 32], 0);
    let bt = bid_track_for(0);
    let mut campaign = vec![0u8; CAMPAIGN_SLOTS + 1];
    campaign[CAMPAIGN_SLOTS] = 2;
    let mut messenger = vec![0u8; 83];
    assert!(cashout_earnings(&s, &[2; 32], &bt, &mut campaign, &[3; 32], &mut messenger).is_ok());
    assert_eq!(campaign[CAMPAIGN_SLOTS], 20);
    let mut creating = vec![0u8; CAMPAIGN_SLOTS + 1];
    creating[CAMPAIGN_SLOTS] = 3;
    let mut m2 = vec![0u8; 83];
    assert_eq!(
        cashout_earnings(&s, &[2; 32], &bt, &mut creating, &[3; 32], &mut m2),
        Err(ProgramError::InvalidAccountData)
    );
    assert_eq!(creating[CAMPAIGN_SLOTS], 3);
    assert_eq!(m2, vec![0u8; 83]);
}

#[test]
fn delete_request_states() {
    let s = store([1; 32], 0);
    let bt = bid_track_for(0);
    let mut ready = vec![0u8; CAMPAIGN_SLOTS + 1];
    ready[CAMPAIGN_SLOTS] = 1;
    let mut m = vec![0u8; 83];
    assert!(delete_bid(&s, &[2; 32], &bt, &mut ready, &[3; 32], &mut m).is_ok());
    assert_eq!(ready[CAMPAIGN_SLOTS], 22);
    assert_eq!(m[30], 2);
    let mut other = vec![0u8; CAMPAIGN_SLOTS + 1];
    other[CAMPAIGN_SLOTS] = 3;
    let mut m = vec![0u8; 83];
    assert!(delete_bid(&s, &[2; 32], &bt, &mut other, &[3; 32], &mut m).is_ok());
    assert_eq!(other[CAMPAIGN_SLOTS], 23);
    let mut paused = vec![0u8; CAMPAIGN_SLOTS + 1];
    paused[CAMPAIGN_SLOTS] = 2;
    let mut m = vec![0u8; 83];
    assert_eq!(
        delete_bid(&s, &[2; 32], &bt, &mut paused, &[3; 32], &mut m),
        Err(ProgramError::InvalidAccountData)
    );
}

#[test]
fn a_request_needs_a_messenger_with_room_for_its_record() {
    let bt = bid_track_for(0);
    let mut campaign = vec![0u8; CAMPAIGN_SLOTS + 1];
    campaign[CAMPAIGN_SLOTS] = 1;
    assert!(request_fits(&bt, &campaign, &vec![0u8; 83], false));
    assert!(!request_fits(&bt, &campaign, &vec![0u8; 61], false));
    assert!(!request_fits(&bt, &campaign, &vec![0u8; 61], true));
    campaign[CAMPAIGN_SLOTS] = 3;
    assert!(request_fits(&bt, &campaign, &vec![0u8; 61], false));
    assert!(!request_fits(&bt_short(), &campaign, &vec![0u8; 83], false));
    assert!(!request_fits(&bid_track_for(1), &campaign, &vec![0u8; 83], true));
}

fn bt_short() -> Vec<u8> {
    vec![0u8; 46]
}

fn settle_fixture(state_in_messenger: u8, update: &RollupUpdates) -> (AccountInfo, AccountInfo, Vec<u8>, AccountInfo) {
    let mut bt = bid_track_for(0);
    bt[79..107].copy_from_slice(&bid_config_to_bytes(&config(1000, 10, 100)));
    put64(&mut bt, 107, 3);
    put64(&mut bt, 115, 1);
    let mut m = vec![0u8; 131];
    m[17] = state_in_messenger;
    let u = update_to_bytes(update);
    m[62..62 + u.len()].copy_from_slice(&u);
    let mut campaign = vec![0u8; CAMPAIGN_SLOTS + 1];
    campaign[CAMPAIGN_SLOTS] = 20;
    let mut tracks = vec![0u8; 140];
    tracks[118] = 1;
    tracks[119] = 1;
    put64(&mut tracks, 90, 500);
    (account(1, 10_000, bt), account(2, 1_000, m), campaign, account(3, 50, tracks))
}

fn register_update(account: [u8; 32]) -> RollupUpdates {
    RollupUpdates::RegisterBid { account, changes_count: 9, index: 0, budget: 1, budget_per_click: 2, budget_per_view: 3 }
}

#[test]
fn commit_cashout_cannot_decode_a_short_cashout_from_the_whole_payload() {
    let cash = RollupUpdates::CashoutBid { account: [3; 32], changes_count: 9, index: 0, earned: 0 };
    let (mut bt, mut m, campaign, mut tracks) = settle_fixture(5, &cash);
    let before = (bt.clone(), m.clone(), tracks.clone());
    assert_eq!(
        commit_cashout(&mut bt, &mut m, &campaign, &mut tracks),
        Err(ProgramError::BorshIoError)
    );
    assert_eq!((bt.data, m.data, tracks.data), (before.0.data, before.1.data, before.2.data));
}

#[test]
fn commit_cashout_refuses_a_messenger_not_settling() {
    let cash = RollupUpdates::CashoutBid { account: [3; 32], changes_count: 9, index: 0, earned: 0 };
    let (mut bt, mut m, campaign, mut tracks) = settle_fixture(1, &cash);
    assert_eq!(
        commit_cashout(&mut bt, &mut m, &campaign, &mut tracks),
        Err(ProgramError::InvalidAccountData)
    );
}

#[test]
fn commit_settlement_refuses_a_registration() {
    let (mut bt, mut m, campaign, mut tracks) = settle_fixture(5, &register_update([3; 32]));
    assert_eq!(
        commit_cashout(&mut bt, &mut m, &campaign, &mut tracks),
        Err(ProgramError::InvalidAccountData)
    );
    let (mut bt, mut m, campaign, mut tracks) = settle_fixture(5, &register_update([3; 32]));
    assert_eq!(
        commit_delete_bid(&mut bt, &mut m, &campaign, &mut tracks),
        Err(ProgramError::InvalidAccountData)
    );
}

fn record_fixture(per_view: u64, per_click: u64, budget: u64) -> (Store, Vec<u8>, Vec<u8>, Vec<u8>) {
    let s = store([5; 32], 0);
    let mut campaign = vec![0u8; CAMPAIGN_SLOTS + 1];
    campaign[CAMPAIGN_SLOTS] = 1;
    let mut tracks = vec![0u8; 140];
    tracks[118] = 1;
    tracks[119] = 1;
    let mut bt = vec![0u8; 400];
    bt[79..107].copy_from_slice(&bid_config_to_bytes(&config(budget, per_view, per_click)));
    (s, campaign, tracks, bt)
}

#[test]
fn a_viewer_is_counted_once() {
    let (s, campaign, mut tracks, mut bt) = record_fixture(10, 100, 1_000_000);
    let viewer = [42u8; 32];
    record_view_click(&s, &[5; 32], &campaign, &mut tracks, &mut bt, 0, 1, 0, &viewer, 800, 1_700_000_000).unwrap();
    assert_eq!(get64(&bt, 107), 1);
    assert_eq!(get32(&bt, 123), 1);
    assert_eq!(get64(&tracks, 90), 100);
    assert_eq!(get32(&bt, 136), 1_700_000_000);
    record_view_click(&s, &[5; 32], &campaign, &mut tracks, &mut bt, 0, 1, 0, &viewer, 800, 1_700_000_100).unwrap();
    assert_eq!(get64(&bt, 107), 1);
    assert_eq!(get64(&tracks, 90), 100);
    assert_eq!(get32(&bt, 136), 1_700_000_000);
    let other = [43u8; 32];
    record_view_click(&s, &[5; 32], &campaign, &mut tracks, &mut bt, 0, 1, 0, &other, 800, 1_700_000_200).unwrap();
    assert_eq!(get64(&bt, 107), 2);
    assert_eq!(get64(&tracks, 90), 200);
}

#[test]
fn a_clicker_is_counted_once() {
    let (s, campaign, mut tracks, mut bt) = record_fixture(10, 100, 1_000_000);
    let clicker = [44u8; 32];
    record_view_click(&s, &[5; 32], &campaign, &mut tracks, &mut bt, 0, 0, 1, &clicker, 800, 7).unwrap();
    assert_eq!((get64(&bt, 115), get64(&tracks, 90)), (1, 10));
    record_view_click(&s, &[5; 32], &campaign, &mut tracks, &mut bt, 0, 0, 1, &clicker, 800, 8).unwrap();
    assert_eq!((get64(&bt, 115), get64(&tracks, 90), get32(&bt, 123)), (1, 10, 0));
}

#[test]
fn a_click_earns_the_price_of_a_view() {
    let (s, campaign, mut tracks, mut bt) = record_fixture(10, 100, 1_000_000);
    record_view_click(&s, &[5; 32], &campaign, &mut tracks, &mut bt, 0, 0, 1, &[9; 32], 800, 5).unwrap();
    assert_eq!(get64(&bt, 115), 1);
    assert_eq!(get64(&bt, 107), 0);
    assert_eq!(get64(&tracks, 90), 10);
}

#[test]
fn spending_the_budget_clears_the_budget_flag() {
    let (s, campaign, mut tracks, mut bt) = record_fixture(10, 100, 10);
    record_view_click(&s, &[5; 32], &campaign, &mut tracks, &mut bt, 0, 1, 0, &[9; 32], 800, 5).unwrap();
    assert_eq!(tracks[119], 0);
}

#[test]
fn recording_refuses_strangers_and_slots_not_ready() {
    let (s, campaign, mut tracks, mut bt) = record_fixture(10, 100, 1000);
    let before = (tracks.clone(), bt.clone());
    assert_eq!(
        record_view_click(&s, &[6; 32], &campaign, &mut tracks, &mut bt, 0, 1, 0, &[9; 32], 800, 5),
        Err(ProgramError::IllegalOwner)
    );
    let mut paused = campaign.clone();
    paused[CAMPAIGN_SLOTS] = 2;
    assert_eq!(
        record_view_click(&s, &[5; 32], &paused, &mut tracks, &mut bt, 0, 1, 0, &[9; 32], 800, 5),
        Err(ProgramError::InvalidAccountData)
    );
    tracks[118] = 0;
    assert_eq!(
        record_view_click(&s, &[5; 32], &campaign, &mut tracks, &mut bt, 0, 1, 0, &[9; 32], 800, 5),
        Err(ProgramError::InvalidAccountData)
    );
    tracks[118] = 1;
    assert_eq!((tracks, bt), before);
}

fn ad_spot(live_bids: u32) -> AdSpot {
    AdSpot { class: AccountClass::AdSpotV1, store_hash: 0, creator: [0; 32], slot: 0, live_bids, extra: [0; 192] }
}

fn open_bid(tracks_delegated: bool, bundler: AssetBundler) -> (Result<BidOpening, ProgramError>, AdSpot, AccountInfo, AccountInfo, AccountInfo) {
    let s = store([5; 32], 1234);
    let mut spot = ad_spot(0);
    let mut campaign = account(11, 0, vec![0u8; CAMPAIGN_SLOTS + 2]);
    put64(&mut campaign.data, 161, 7);
    let mut bt = account(12, 0, vec![0u8; 142]);
    let mut m = account(13, 0, vec![0u8; 131]);
    let r = bid_on_space(
        &s,
        &mut spot,
        &[14; 32],
        &mut campaign,
        &mut bt,
        &mut m,
        &[15; 32],
        tracks_delegated,
        &[16; 32],
        &[17; 32],
        1,
        &config(5000, 10, 100),
        33,
        &bundler,
        800,
        1_700_000_000,
    );
    (r, spot, campaign, bt, m)
}

#[test]
fn opening_a_bid_writes_every_account() {
    let (r, spot, campaign, bt, m) = open_bid(true, AssetBundler::Arweave);
    let o = r.unwrap();
    assert_eq!(spot.live_bids, 1);
    assert_eq!(o.plan.bytes_in_bloom, 200);
    assert!(o.plan.must_delegate);
    assert_eq!(o.reservation.changes_count, 8);
    assert_eq!(campaign.data[CAMPAIGN_SLOTS + 1], 3);
    assert!(o.reservation.grows);
    assert_eq!(campaign.data.len(), CAMPAIGN_SLOTS + 3);
    assert_eq!(get32(&campaign.data, 217), 3);
    assert_eq!(o.plan.full_size, 342);
    assert_eq!(&bt.data[0..11], &[120, 37, 248, 129, 6, 97, 52, 91, 11, 1, 1]);
    assert_eq!(&bt.data[11..43], &[11u8; 32]);
    assert_eq!(get32(&bt.data, 43), 1);
    assert_eq!(&bt.data[47..79], &[14u8; 32]);
    assert_eq!(get32(&bt.data, 138), 200);
    assert_eq!(&m.data[0..9], &[115, 14, 78, 217, 78, 139, 183, 233, 13]);
    assert_eq!(get64(&m.data, 9), 1234);
    assert_eq!(m.data[17], 1);
    assert_eq!(&m.data[18..26], &[16u8; 8]);
    assert_eq!(get32(&m.data, 26), 1);
    let update = update_to_bytes(&RollupUpdates::RegisterBid {
        account: [15; 32],
        changes_count: 8,
        index: 1,
        budget: 5000,
        budget_per_click: 100,
        budget_per_view: 10,
    });
    assert_eq!(&m.data[30..99], update.as_slice());
    let md = &o.nft.metadata;
    assert_eq!(md.name, "Bid V0");
    assert_eq!(md.symbol, encode_u64_to_ascii_string(1));
    let mut payload = vec![0u8];
    payload.extend_from_slice(&1_700_000_000u32.to_le_bytes());
    assert_eq!(
        md.uri,
        format!(
            "https://arweave.net/6dGCqBJqOw-cEaFupbtLgZ-Mge1yWHKIW4NhzGS5F70?p={}",
            encode_bytes_to_ascii_string(&payload, true)
        )
    );
    assert_eq!(md.uri, "https://arweave.net/6dGCqBJqOw-cEaFupbtLgZ-Mge1yWHKIW4NhzGS5F70?p=00|i}I}[");
    let program = solana_program::pubkey::Pubkey::new_from_array(PROGRAM_ID);
    let (ad_creator, _) = solana_program::pubkey::Pubkey::find_program_address(
        &[b"ad_creator", &[16u8; 32], &1234u64.to_le_bytes()],
        &program,
    );
    assert_eq!(o.nft.ad_creator, ad_creator.to_bytes());
    let addresses: Vec<[u8; 32]> = md.creators.iter().map(|c| c.address).collect();
    assert_eq!(addresses, vec![[16; 32], ad_creator.to_bytes(), [12; 32], [11; 32]]);
    let shares: Vec<u8> = md.creators.iter().map(|c| c.share).collect();
    assert_eq!(shares, vec![100, 0, 0, 0]);
    assert_eq!(md.collection.unwrap().key, [17; 32]);
}

#[test]
fn opening_a_bid_reports_what_the_bidder_pays() {
    let (r, _, _, _, _) = open_bid(true, AssetBundler::Arweave);
    let o = r.unwrap();
    assert!(o.reservation.native_currency);
    assert_eq!(
        bid_payments(&o, 5000, 900, 400, 70, 60),
        BidPayments { budget: 5000, track_rent: 500, campaign_rent: 10 }
    );
    assert_eq!(bid_payments(&o, 5000, 300, 400, 70, 60).track_rent, 0);
    let mut campaign = vec![0u8; CAMPAIGN_SLOTS + 2];
    put32(&mut campaign, 217, 2);
    assert_eq!(messenger_funding(&campaign, 1), 8 + 123 + 22);
    assert_eq!(messenger_funding(&campaign, 5), 8 + 123 + 22 * 5);
}

#[test]
fn a_campaign_that_would_grow_too_much_is_refused() {
    let s = store([5; 32], 1);
    let mut spot = ad_spot(0);
    let mut campaign = account(11, 0, vec![0u8; 300]);
    put32(&mut campaign.data, 217, 20_000);
    let mut bt = account(12, 0, vec![0u8; 142]);
    let mut m = account(13, 0, vec![0u8; 131]);
    let r = bid_on_space(
        &s, &mut spot, &[14; 32], &mut campaign, &mut bt, &mut m, &[15; 32], true, &[16; 32], &[17; 32], 1,
        &config(5000, 10, 100), 33, &AssetBundler::Arweave, 800, 0,
    );
    assert_eq!(r.map(|_| ()), Err(ProgramError::InvalidRealloc));
}

#[test]
fn opening_a_bid_on_irys_uses_the_gateway() {
    let (r, _, _, _, _) = open_bid(true, AssetBundler::IrysGateway);
    assert!(r.unwrap().nft.metadata.uri.starts_with("https://gateway.irys.xyz/6dGCqBJqOw-cEaFupbtLgZ-Mge1yWHKIW4NhzGS5F70?p="));
}

#[test]
fn opening_a_bid_needs_the_tracks_on_the_rollup() {
    let (r, _, _, _, m) = open_bid(false, AssetBundler::Arweave);
    assert_eq!(r.err(), Some(ProgramError::InvalidAccountOwner));
    assert_eq!(m.data, vec![0u8; 131]);
}
