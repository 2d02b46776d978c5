//! Where each field lives in the program's raw account data, and the state
//! codes it stores there.
use vstd::prelude::*;

verus! {

// Campaign account.
pub const TO_AD_CAMPAIGN_STORE_HASH: usize = 9;
pub const TO_AD_CAMPAIGN_CREATOR: usize = 17;
pub const TO_AD_CAMPAIGN_TWITTER: usize = 49;
pub const TO_AD_CAMPAIGN_SLOT: usize = 81;
pub const TO_AD_CAMPAIGN_CONFIG: usize = 109;
pub const TO_AD_CAMPAIGN_CONFIG_CURRENCY: usize = 127;
pub const AD_CAMPAIGN_CONFIG_SIZE: usize = 52;
pub const TO_AD_CAMPAIGN_CHANGE_COUNT: usize = 161;
pub const TO_AD_CAMPAIGN_LIVING_BID: usize = 213;
pub const TO_AD_CAMPAIGN_SPACES_BID: usize = 217;
pub const START_FROM_AD_CAMPAIGN: usize = 221;
pub const SPACE_IN_CAMPAIGN_BID: usize = 1;

// A campaign's bid-track account.
pub const START_FROM_AD_CAMPAIGN_BID_TRACKS: usize = 118;
pub const SPACE_IN_CAMPAIGN_BID_TRACK: usize = 22;
pub const AD_CAMPAIGN_BID_TRACK_DELETING_STATE: u8 = 10;
pub const AD_CAMPAIGN_BID_TRACK_DELEGATING_STATE: u8 = 9;
pub const TO_AD_CAMPAIGN_BID_TRACK_STORE_HASH: usize = 9;
pub const TO_AD_CAMPAIGN_BID_TRACK_CREATOR: usize = 17;
pub const TO_AD_CAMPAIGN_BID_TRACK_CAMPAIGN: usize = 49;
pub const TO_AD_CAMPAIGN_BID_TRACK_CHANGE_COUNT: usize = 81;
pub const TO_AD_CAMPAIGN_BID_TRACK_DELEGATION_STATE: usize = 89;
pub const TO_AD_CAMPAIGN_BID_EARNED: usize = 90;
pub const TO_AD_CAMPAIGN_BID_TRACK_LIVING: usize = 110;
pub const TO_AD_CAMPAIGN_BID_TRACK_SPACES: usize = 114;

// States of a bid's slot in the campaign account.
pub const AD_CAMPAIGN_BID_STATE_READY: u8 = 1;
pub const AD_CAMPAIGN_BID_STATE_PAUSED: u8 = 2;
pub const AD_CAMPAIGN_BID_STATE_CREATING: u8 = 3;
pub const AD_CAMPAIGN_BID_STATE_CASHINGOUT: u8 = 20;
pub const AD_CAMPAIGN_BID_STATE_CASHINGOUT_PAUSED: u8 = 20;
pub const AD_CAMPAIGN_BID_STATE_DELETING: u8 = 22;
pub const AD_CAMPAIGN_BID_STATE_DELETING_PAUSED: u8 = 23;

// Bid-track account.
pub const START_FROM_BID_TRACK: usize = 142;
pub const TO_BID_TRACK_AD_CAMPAIGN: usize = 11;
pub const TO_BID_TRACK_CAMPAIGN_BID_INDEX: usize = 43;
pub const TO_BID_TRACK_AD_SPOT: usize = 47;
pub const TO_BID_TRACK_AD_CONFIG: usize = 79;
pub const TO_BID_TRACK_BLOOM_ACCURACY: usize = 87;
pub const TO_BID_TRACK_MAX_VIEWERS: usize = 89;
pub const TO_BID_TRACK_TOTAL_VIEWS: usize = 107;
pub const TO_BID_TRACK_TOTAL_CLICKS: usize = 115;
pub const TO_BID_TRACK_VIEWS_IN_DAY: usize = 123;
pub const TO_BID_TRACK_LAST_RESET: usize = 127;
pub const TO_BID_TRACK_SIZE_HELPER: usize = 138;
pub const BID_TRACK_CONFIG_SIZE: usize = 28;

// Messenger account.
pub const MESSENGER_DELEGATED: u8 = 1;
pub const MESSENGER_PENDING_DELEGATION: u8 = 2;
pub const MESSENGER_DELEGATED_PROCESSING: u8 = 3;
pub const MESSENGER_DELEGATED_PROCESSED: u8 = 4;
pub const MESSENGER_DELEGATED_CASHOUT: u8 = 5;
pub const MESSENGER_PROCESSED_CASHOUT: u8 = 6;
pub const MESSAGE_PAYLOAD_SIZE: usize = 69;
pub const MESSAGE_CASHOUT_PAYLOAD_SIZE: usize = 53;
pub const MESSAGE_DELETING_PAYLOAD_SIZE: usize = 53;
pub const MESSENGER_TO_STORE_HASH: usize = 9;
pub const MESSENGER_TO_STATE: usize = 17;
pub const MESSENGER_TO_CREATOR: usize = 18;
pub const MESSENGER_TO_SLOT: usize = 50;
pub const MESSENGER_TO_PAYLOAD: usize = 62;
pub const MESSENGER_TO_CHANGES_COUNT: usize = 95;
pub const MESSENGER_TO_INDEX: usize = 103;
pub const MESSENGER_TO_CASHOUT_EARNED: usize = 107;
/// Where the program writes the serialised list of updates of a new messenger.
pub const MESSENGER_TO_UPDATES_WRITE: usize = 26;
pub const MIN_ROLLUP_MESSENGER: usize = 123;

// Ad and ad-statistics accounts.
pub const AD_STATS_SIZE: usize = 40;
pub const AD_MAIN_STATS_SIZE: usize = 4;
pub const START_FROM_AD: usize = 162;
pub const SPACE_IN_AD: usize = 233;
pub const START_FROM_AD_STATS: usize = 82;

/// Lamports a messenger keeps to pay for the transactions that process it.
pub const MESSENGER_FEE_RESERVE: u64 = 15000;

/// Most bytes one instruction may add to an account.
pub const MAX_ACCOUNT_GROWTH: usize = 10240;

/// Number of hash functions of the view and click bloom filters.
pub const BLOOM_HASH_COUNT: usize = 11;

pub const BID_TRACK_DISCRIMINATOR: [u8; 8] = [120, 37, 248, 129, 6, 97, 52, 91];
pub const ROLLUP_MESSENGER_DISCRIMINATOR: [u8; 8] = [115, 14, 78, 217, 78, 139, 183, 233];
pub const AD_BID_TRACK_DISCRIMINATOR: [u8; 8] = [58, 182, 194, 237, 251, 44, 148, 79];

/// The program's address.
pub const PROGRAM_ID: [u8; 32] = [
    76, 210, 80, 235, 33, 241, 202, 174, 201, 70, 170, 212, 73, 199, 118, 3, 169, 132, 31, 140, 14,
    186, 13, 46, 56, 116, 181, 212, 192, 3, 142, 9,
];

/// The validator bid tracks and messengers are delegated to.
pub const DEVNET_VALIDATOR: [u8; 32] = [
    5, 62, 162, 42, 88, 56, 179, 161, 33, 20, 15, 2, 170, 67, 59, 11, 147, 146, 74, 122, 186, 28,
    135, 70, 6, 17, 193, 187, 246, 101, 67, 254,
];

/// Seed of an ad creator's account address.
pub const AD_CREATOR_SEED: [u8; 10] = [97, 100, 95, 99, 114, 101, 97, 116, 111, 114];

/// Seed of a campaign's bid-track account address.
pub const AD_CAMPAIGN_BID_TRACKS_SEED: [u8; 22] = [
    97, 100, 95, 99, 97, 109, 112, 97, 105, 103, 110, 95, 98, 105, 100, 95, 116, 114, 97, 99, 107,
    115,
];

/// Seed of a twitter handle's account address.
pub const TWITTER_SEED: [u8; 7] = [116, 119, 105, 116, 116, 101, 114];

/// Bubblegum's address.
pub const BUBBLEGUM_ID: [u8; 32] = [
    152, 139, 128, 235, 121, 53, 40, 105, 178, 36, 116, 95, 89, 221, 191, 138, 38, 88, 202, 19, 220,
    104, 129, 33, 38, 53, 28, 174, 7, 193, 165, 165,
];

/// Seed of a compressed NFT's asset id, under Bubblegum.
pub const ASSET_SEED: [u8; 5] = [97, 115, 115, 101, 116];

} // verus!
