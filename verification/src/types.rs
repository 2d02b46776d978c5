//! The program's data: typed accounts, instruction arguments and the
//! records it serialises into raw account data and metadata.
use vstd::prelude::*;

verus! {

/// An account address.
pub type Pubkey = [u8; 32];

/// The model of an account that the logic reads and writes: its address,
/// its balance in lamports and its raw data.
#[derive(Debug, Clone)]
pub struct AccountInfo {
    pub key: Pubkey,
    pub lamports: u64,
    pub data: Vec<u8>,
}

/// The kind tag stored in the first byte after an account's discriminator.
#[derive(Debug, Clone, Copy, PartialEq, Eq, Structural)]
pub enum AccountClass {
    UniverseV1,
    StoreV1,
    MasterV1,
    AdCreatorV1,
    AdV1,
    AdSpaceV1,
    AdStatsV1,
    AdCampaignV1,
    SpaceCreatorV1,
    AdSpotV1,
    AdBidsV1,
    AdTrackV1,
    AdCampaignBidTrackV1,
    RollupMessengerV1,
}

impl AccountClass {
    /// The tag byte of each class: its position in the list, from 0.
    pub open spec fn code(self) -> u8 {
        match self {
            AccountClass::UniverseV1 => 0,
            AccountClass::StoreV1 => 1,
            AccountClass::MasterV1 => 2,
            AccountClass::AdCreatorV1 => 3,
            AccountClass::AdV1 => 4,
            AccountClass::AdSpaceV1 => 5,
            AccountClass::AdStatsV1 => 6,
            AccountClass::AdCampaignV1 => 7,
            AccountClass::SpaceCreatorV1 => 8,
            AccountClass::AdSpotV1 => 9,
            AccountClass::AdBidsV1 => 10,
            AccountClass::AdTrackV1 => 11,
            AccountClass::AdCampaignBidTrackV1 => 12,
            AccountClass::RollupMessengerV1 => 13,
        }
    }

    /// The tag byte of the class.
    pub fn to_byte(&self) -> (b: u8)
        ensures
            b == self.code(),
    {
        match self {
            AccountClass::UniverseV1 => 0,
            AccountClass::StoreV1 => 1,
            AccountClass::MasterV1 => 2,
            AccountClass::AdCreatorV1 => 3,
            AccountClass::AdV1 => 4,
            AccountClass::AdSpaceV1 => 5,
            AccountClass::AdStatsV1 => 6,
            AccountClass::AdCampaignV1 => 7,
            AccountClass::SpaceCreatorV1 => 8,
            AccountClass::AdSpotV1 => 9,
            AccountClass::AdBidsV1 => 10,
            AccountClass::AdTrackV1 => 11,
            AccountClass::AdCampaignBidTrackV1 => 12,
            AccountClass::RollupMessengerV1 => 13,
        }
    }
}

/// Where an asset's files are hosted.
#[derive(Debug, Clone, Copy, PartialEq, Eq, Structural)]
pub enum AssetBundler {
    Arweave,
    IrysGateway,
    RawTurboDev,
    Raw,
}

impl AssetBundler {
    /// The serialised tag of the variant.
    pub open spec fn code(self) -> u8 {
        match self {
            AssetBundler::Arweave => 0,
            AssetBundler::IrysGateway => 1,
            AssetBundler::RawTurboDev => 2,
            AssetBundler::Raw => 3,
        }
    }
}

/// Who may bid on a campaign's spaces.
#[derive(Debug, Clone, Copy, PartialEq, Eq, Structural)]
pub enum PermissionType {
    Open,
    Request,
    VerifiedPass,
    VerifiedOnly,
}

impl PermissionType {
    /// The serialised tag of the variant.
    pub open spec fn code(self) -> u8 {
        match self {
            PermissionType::Open => 0,
            PermissionType::Request => 1,
            PermissionType::VerifiedPass => 2,
            PermissionType::VerifiedOnly => 3,
        }
    }

    /// The serialised tag of the variant.
    pub fn to_byte(&self) -> (b: u8)
        ensures
            b == self.code(),
    {
        match self {
            PermissionType::Open => 0,
            PermissionType::Request => 1,
            PermissionType::VerifiedPass => 2,
            PermissionType::VerifiedOnly => 3,
        }
    }
}

/// The terms of a bid: total budget, bloom-filter sizing and the price of a
/// view and of a click.
#[derive(Debug, Clone, Copy, PartialEq, Eq, Structural)]
pub struct BidConfig {
    pub budget: u64,
    pub bloom_accuracy: u16,
    pub max_viewers: u16,
    pub budget_per_view: u64,
    pub budget_per_click: u64,
}

/// A pending change that a messenger account carries between the base
/// layer and the rollup.
#[derive(Debug, Clone, Copy, PartialEq, Eq)]
pub enum RollupUpdates {
    RegisterBid {
        account: Pubkey,
        changes_count: u64,
        index: u32,
        budget: u64,
        budget_per_click: u64,
        budget_per_view: u64,
    },
    CashoutBid { account: Pubkey, changes_count: u64, index: u32, earned: u64 },
    DeletingBid { account: Pubkey, changes_count: u64, index: u32, must_pay_user: u64 },
}

/// One bid's slot in a campaign's bid-track account.
#[derive(Debug, Clone, Copy, PartialEq, Eq, Structural)]
pub struct AdCampaignBidTrackPieceStruct {
    pub state: u8,
    pub has_budget: u8,
    pub budget_per_view: u64,
    pub budget_per_click: u64,
    pub last_view: u32,
}

/// A campaign's settings.
#[derive(Debug, Clone, Copy, PartialEq, Eq)]
pub struct CampaignConfig {
    pub max_seconds: u8,
    pub permission: PermissionType,
    pub categories: [u8; 16],
    pub currency: Pubkey,
    pub max_bidders: u16,
}

/// An ad's budget.
#[derive(Debug, Clone, Copy, PartialEq, Eq, Structural)]
pub struct AdBudget {
    pub total: u64,
    pub daily: u64,
}

/// An ad's settings; `arweave` is a zero-terminated path.
#[derive(Debug, Clone, Copy, PartialEq, Eq)]
pub struct AdConfig {
    pub category: u8,
    pub budget: AdBudget,
    pub asset_bundler: AssetBundler,
    pub arweave: [u8; 50],
}

/// An ad's headline statistics.
#[derive(Debug, Clone, Copy, PartialEq, Eq, Structural)]
pub struct AdMainStats {
    pub in_spaces: u32,
}

/// A creator entry of NFT metadata.
#[derive(Debug, Clone, Copy, PartialEq, Eq)]
pub struct Creator {
    pub address: Pubkey,
    pub verified: bool,
    pub share: u8,
}

/// The collection an NFT belongs to.
#[derive(Debug, Clone, Copy, PartialEq, Eq)]
pub struct Collection {
    pub verified: bool,
    pub key: Pubkey,
}

#[derive(Debug, Clone, Copy, PartialEq, Eq, Structural)]
pub enum TokenProgramVersion {
    Original,
    Token2022,
}

#[derive(Debug, Clone, Copy, PartialEq, Eq, Structural)]
pub enum TokenStandard {
    NonFungible,
    FungibleAsset,
    Fungible,
    NonFungibleEdition,
}

#[derive(Debug, Clone, Copy, PartialEq, Eq, Structural)]
pub enum UseMethod {
    Burn,
    Multiple,
    Single,
}

#[derive(Debug, Clone, Copy, PartialEq, Eq, Structural)]
pub struct Uses {
    pub use_method: UseMethod,
    pub remaining: u64,
    pub total: u64,
}

/// The metadata of a compressed NFT.
#[derive(Debug, Clone, PartialEq, Eq)]
pub struct MetadataArgs {
    pub name: String,
    pub symbol: String,
    pub uri: String,
    pub seller_fee_basis_points: u16,
    pub primary_sale_happened: bool,
    pub is_mutable: bool,
    pub edition_nonce: Option<u8>,
    pub token_standard: Option<TokenStandard>,
    pub collection: Option<Collection>,
    pub uses: Option<Uses>,
    pub token_program_version: TokenProgramVersion,
    pub creators: Vec<Creator>,
}

/// The fields a caller gives to describe a new compressed NFT.
#[derive(Debug, Clone, PartialEq, Eq)]
pub struct CreateCnft {
    pub name: String,
    pub symbol: String,
    pub uri: String,
    pub fee: u16,
    pub creators: Vec<Creator>,
    pub collection: Option<Collection>,
}

/// The metadata of a collection NFT.
#[derive(Debug, Clone, PartialEq, Eq)]
pub struct TokenMetadata {
    pub name: String,
    pub symbol: String,
    pub arweave: String,
    pub asset_bundler: AssetBundler,
}

/// Where a spot's or a campaign's asset lives.
#[derive(Debug, Clone, PartialEq, Eq)]
pub struct AssetSource {
    pub arweave: String,
    pub asset_bundler: AssetBundler,
}

/// The leaf of a compressed NFT to burn.
#[derive(Debug, Clone, Copy, PartialEq, Eq)]
pub struct CampaignCnft {
    pub root: [u8; 32],
    pub data_hash: [u8; 32],
    pub index: u32,
}

/// A universe account.
#[derive(Debug, Clone, Copy, PartialEq, Eq)]
pub struct Universe {
    pub class: AccountClass,
    pub slot: u16,
    pub creator: Pubkey,
    pub universe_hash: u64,
    pub count: u32,
    pub extra: [u8; 192],
}

/// A store account.
#[derive(Debug, Clone, Copy, PartialEq, Eq)]
pub struct Store {
    pub class: AccountClass,
    pub creator: Pubkey,
    pub universe: Pubkey,
    pub slot: u16,
    pub store_hash: u64,
    pub master: Pubkey,
    pub master_manager: Pubkey,
    pub living_campaigns: u64,
    pub living_spots: u64,
    pub extra: [u8; 144],
}

/// A master account.
#[derive(Debug, Clone, Copy, PartialEq, Eq)]
pub struct Master {
    pub class: AccountClass,
    pub slot: u16,
    pub universe_hash: u64,
    pub manager: Pubkey,
    pub extra: [u8; 32],
}

/// An ad creator's account in a store.
#[derive(Debug, Clone, Copy, PartialEq, Eq)]
pub struct AdCreator {
    pub class: AccountClass,
    pub creator: Pubkey,
    pub store_hash: u64,
    pub created_spots: u32,
    pub living_spots: u32,
    pub created_bids: u32,
    pub living_bids: u32,
    pub spent: u64,
    pub creator_manager: Pubkey,
    pub extra: [u8; 136],
}

/// A space creator's account in a store.
#[derive(Debug, Clone, Copy, PartialEq, Eq)]
pub struct SpaceCreator {
    pub class: AccountClass,
    pub creator: Pubkey,
    pub store_hash: u64,
    pub created: u32,
    pub living: u32,
    pub earning: u64,
    pub creator_manager: Pubkey,
    pub extra: [u8; 144],
}

/// An ad space account.
#[derive(Debug, Clone, Copy, PartialEq, Eq)]
pub struct AdSpace {
    pub class: AccountClass,
    pub creator: Pubkey,
    pub store_hash: u64,
    pub slot: u32,
    pub extra: [u8; 188],
}

/// An ad spot account.
#[derive(Debug, Clone, Copy, PartialEq, Eq)]
pub struct AdSpot {
    pub class: AccountClass,
    pub store_hash: u64,
    pub creator: Pubkey,
    pub slot: u32,
    pub live_bids: u32,
    pub extra: [u8; 192],
}

/// A messenger account, as its typed layout reads it.
#[derive(Debug, Clone, PartialEq, Eq)]
pub struct RollupMessenger {
    pub class: AccountClass,
    pub store_hash: u64,
    pub state: u8,
    pub creator: Pubkey,
    pub slot: u64,
    pub needs_to_update: Vec<RollupUpdates>,
}

/// The header of a campaign's bid-track account (documentation of the layout).
#[derive(Debug, Clone, Copy, PartialEq, Eq)]
pub struct AdCampaignBidTrackStruct {
    pub class: AccountClass,
    pub store_hash: u64,
    pub creator: Pubkey,
    pub campaign: Pubkey,
    pub changes_count: u64,
    pub state: u8,
    pub earned: u64,
    pub extra: [u8; 12],
    pub living_bids: u32,
    pub spaces_bids: u32,
}

/// The header of a campaign account (documentation of the layout).
#[derive(Debug, Clone, Copy, PartialEq, Eq)]
pub struct AdCampaignStruct {
    pub class: AccountClass,
    pub store_hash: u64,
    pub creator: Pubkey,
    pub twitter: [u8; 32],
    pub slot: u32,
    pub extra_pre: [u8; 24],
    pub config: CampaignConfig,
    pub change_counts: u64,
    pub extra_post: [u8; 40],
    pub created_bids: u32,
    pub living_bids: u32,
    pub spaces_bids: u32,
}

/// The header of a bid-track account (documentation of the layout).
#[derive(Debug, Clone, Copy, PartialEq, Eq)]
pub struct AdTrackSetup {
    pub class: AccountClass,
    pub state: u8,
    pub status: u8,
    pub campaign: Pubkey,
    pub index: u32,
    pub spot: Pubkey,
    pub config: BidConfig,
    pub total_views: u64,
    pub total_clicks: u64,
    pub views_in_day: u32,
    pub last_reset: u32,
    pub updated_at: u32,
    pub needs_to_sync: u8,
    pub living_users: u16,
    pub size_helper: u32,
}

/// The header of a bids account (documentation of the layout).
#[derive(Debug, Clone, Copy, PartialEq, Eq)]
pub struct AdBidsSetup {
    pub class: AccountClass,
    pub campaign: Pubkey,
    pub owner: Pubkey,
    pub extra: [u8; 53],
    pub live_bids: u16,
    pub live_spaces: u32,
}

/// One bid record (documentation of the layout).
#[derive(Debug, Clone, Copy, PartialEq, Eq)]
pub struct Bid {
    pub creator: Pubkey,
    pub views: u64,
    pub clicks: u64,
    pub spent: u64,
    pub budget: u64,
    pub extra: [u8; 16],
}

/// Raw data of a campaign account.
#[derive(Debug, Clone, PartialEq, Eq)]
pub struct AdCampaign {
    pub data: Vec<u8>,
}

/// Raw data of a campaign's bid-track account.
#[derive(Debug, Clone, PartialEq, Eq)]
pub struct AdCampaignBidTracks {
    pub data: Vec<u8>,
}

/// Raw data of an ad account.
#[derive(Debug, Clone, PartialEq, Eq)]
pub struct Ad {
    pub data: Vec<u8>,
}

/// Raw data of an ad's statistics account.
#[derive(Debug, Clone, PartialEq, Eq)]
pub struct AdStat {
    pub data: Vec<u8>,
}

/// Raw data of a bids account.
#[derive(Debug, Clone, PartialEq, Eq)]
pub struct AdBids {
    pub data: Vec<u8>,
}

/// Raw data of a bid-track account.
#[derive(Debug, Clone, PartialEq, Eq)]
pub struct BidTrack {
    pub data: Vec<u8>,
}

} // verus!
