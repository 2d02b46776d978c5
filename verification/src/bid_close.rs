//! Closing a messenger on the base layer once the rollup has processed its
//! change: a registered bid becomes ready, a cash-out or a deletion is paid,
//! and what the messenger holds beyond its fee reserve goes back to whoever
//! paid for it.
use crate::bytes::{read_key, keys_equal, zeros};
use crate::codec::{bid_config_from_bytes, read_bid_config, BID_CONFIG_SIZE};
use crate::error::ProgramError;
use crate::layout::{
    AD_CAMPAIGN_BID_STATE_CASHINGOUT, AD_CAMPAIGN_BID_STATE_CASHINGOUT_PAUSED,
    AD_CAMPAIGN_BID_STATE_CREATING, AD_CAMPAIGN_BID_STATE_PAUSED, AD_CAMPAIGN_BID_STATE_READY,
    MESSENGER_FEE_RESERVE, START_FROM_AD_CAMPAIGN, TO_BID_TRACK_AD_CONFIG, TO_BID_TRACK_AD_SPOT,
};
use crate::pda::{bid_tracks_address, bid_tracks_seeds, pda};
use crate::types::{AccountInfo, Pubkey, RollupMessenger, RollupUpdates, SpaceCreator};
use crate::utils::{close_account, pay_to_user};
use vstd::prelude::*;

verus! {

/// The ad spot a bid track names.
pub open spec fn spot_of(bid_track: Seq<u8>) -> Seq<u8> {
    bid_track.subrange(TO_BID_TRACK_AD_SPOT as int, TO_BID_TRACK_AD_SPOT + 32)
}

/// Whether the bid track names the ad spot `ad_spot`.
fn names_spot(bid_track: &Vec<u8>, ad_spot: &Pubkey) -> (r: bool)
    requires
        bid_track@.len() >= TO_BID_TRACK_AD_SPOT + 32,
    ensures
        r == (spot_of(bid_track@) == ad_spot@),
{
    let k = read_key(bid_track, TO_BID_TRACK_AD_SPOT);
    keys_equal(&k, ad_spot)
}

/// Whether a messenger's balance above its fee reserve goes back to the
/// account that created it: when the caller is someone else.
pub open spec fn refunds(owner: Pubkey, creator: Pubkey) -> bool {
    owner@ != creator@
}

/// The messenger and its creator's account after the refund.
pub open spec fn refunded(
    m0: AccountInfo,
    c0: AccountInfo,
    m1: AccountInfo,
    c1: AccountInfo,
    owner: Pubkey,
    creator: Pubkey,
) -> bool {
    &&& m1.key == m0.key
    &&& m1.data == m0.data
    &&& c1.key == c0.key
    &&& c1.data == c0.data
    &&& if refunds(owner, creator) {
        m1.lamports == MESSENGER_FEE_RESERVE && c1.lamports == c0.lamports + (m0.lamports
            - MESSENGER_FEE_RESERVE)
    } else {
        m1.lamports == m0.lamports && c1.lamports == c0.lamports
    }
}

/// What a refund needs: the reserve is there, and the creator's balance
/// can take the rest.
pub open spec fn refund_fits(m0: AccountInfo, c0: AccountInfo, owner: Pubkey, creator: Pubkey) -> bool {
    &&& m0.lamports >= MESSENGER_FEE_RESERVE
    &&& refunds(owner, creator) ==> c0.lamports + (m0.lamports - MESSENGER_FEE_RESERVE) <= u64::MAX
}

/// Gives back what a messenger holds above its fee reserve to the account
/// that created it, unless the caller created it.
fn refund_messenger(
    messenger: &mut AccountInfo,
    messenger_creator: &mut AccountInfo,
    owner: &Pubkey,
    creator: &Pubkey,
)
    requires
        refund_fits(*old(messenger), *old(messenger_creator), *owner, *creator),
    ensures
        refunded(
            *old(messenger),
            *old(messenger_creator),
            *final(messenger),
            *final(messenger_creator),
            *owner,
            *creator,
        ),
{
    let remaining = messenger.lamports - MESSENGER_FEE_RESERVE;
    if !keys_equal(owner, creator) {
        let _ = pay_to_user(messenger, messenger_creator, remaining);
    }
}

/// The slot of the bid a messenger registers, when its first update is a
/// registration for the campaign's bid-track account `tracks`.
pub open spec fn registered_slot(record: RollupMessenger, tracks: Pubkey) -> Option<u32> {
    match record.needs_to_update@[0] {
        RollupUpdates::RegisterBid { account, index, .. } => if account@ == tracks@ {
            Some(index)
        } else {
            None
        },
        _ => None,
    }
}

/// Closes the messenger of a newly registered bid: its first update must
/// register the bid for the campaign's bid-track account `ad_campaign_bid_tracks`
/// and the bid track must name `ad_spot` (else `InvalidAccountData`); the
/// bid's slot must be being created (else `InvalidArgument`) and becomes
/// ready; then the messenger is refunded.  An error changes nothing.
pub fn close_messenger_bid_track(
    bid_messenger: &mut AccountInfo,
    record: &RollupMessenger,
    ad_campaign: &mut Vec<u8>,
    ad_campaign_bid_tracks: &Pubkey,
    bid_track: &Vec<u8>,
    ad_spot: &Pubkey,
    messenger_creator: &mut AccountInfo,
    creator: &Pubkey,
) -> (r: Result<(), ProgramError>)
    requires
        record.needs_to_update@.len() > 0,
        match registered_slot(*record, *ad_campaign_bid_tracks) {
            None => true,
            Some(i) => bid_track@.len() >= TO_BID_TRACK_AD_SPOT + 32 && (spot_of(bid_track@) == ad_spot@ ==> {
                &&& START_FROM_AD_CAMPAIGN + i < old(ad_campaign)@.len()
                &&& old(ad_campaign)@[START_FROM_AD_CAMPAIGN + i] == AD_CAMPAIGN_BID_STATE_CREATING ==> refund_fits(
                    *old(bid_messenger),
                    *old(messenger_creator),
                    record.creator,
                    *creator,
                )
            }),
        },
    ensures
        match registered_slot(*record, *ad_campaign_bid_tracks) {
            None => r == Err::<(), ProgramError>(ProgramError::InvalidAccountData),
            Some(i) => if spot_of(bid_track@) != ad_spot@ {
                r == Err::<(), ProgramError>(ProgramError::InvalidAccountData)
            } else if old(ad_campaign)@[START_FROM_AD_CAMPAIGN + i] != AD_CAMPAIGN_BID_STATE_CREATING {
                r == Err::<(), ProgramError>(ProgramError::InvalidArgument)
            } else {
                &&& r == Ok::<(), ProgramError>(())
                &&& final(bid_messenger).lamports + final(messenger_creator).lamports
                    == old(bid_messenger).lamports + old(messenger_creator).lamports
                &&& final(ad_campaign)@ == old(ad_campaign)@.update(
                    START_FROM_AD_CAMPAIGN + i,
                    AD_CAMPAIGN_BID_STATE_READY,
                )
                &&& refunded(
                    *old(bid_messenger),
                    *old(messenger_creator),
                    *final(bid_messenger),
                    *final(messenger_creator),
                    record.creator,
                    *creator,
                )
            },
        },
        r is Err ==> final(ad_campaign)@ == old(ad_campaign)@ && *final(bid_messenger) == *old(
            bid_messenger,
        ) && *final(messenger_creator) == *old(messenger_creator),
{
    let index = match record.needs_to_update[0] {
        RollupUpdates::RegisterBid { account, index, .. } => {
            if !keys_equal(ad_campaign_bid_tracks, &account) {
                return Err(ProgramError::InvalidAccountData);
            }
            index
        },
        _ => {
            return Err(ProgramError::InvalidAccountData);
        },
    };
    if !names_spot(bid_track, ad_spot) {
        return Err(ProgramError::InvalidAccountData);
    }
    let _len = ad_campaign.len();
    let space_pos = START_FROM_AD_CAMPAIGN + index as usize;
    if ad_campaign[space_pos] != AD_CAMPAIGN_BID_STATE_CREATING {
        return Err(ProgramError::InvalidArgument);
    }
    ad_campaign.set(space_pos, AD_CAMPAIGN_BID_STATE_READY);
    refund_messenger(bid_messenger, messenger_creator, &record.creator, creator);
    Ok(())
}

/// The slot and the amount of the settled update a messenger carries back
/// (a cash-out's earnings, or what a deletion owes the space's owner), when
/// its first update is of the expected kind and names the bid-track account
/// derived from the campaign at `campaign`.  A first update of another kind
/// or for another account is `InvalidAccountData`; seeds that give no
/// address are `InvalidSeeds`.
pub open spec fn closing_update(record: RollupMessenger, campaign: Pubkey, deleting: bool) -> Result<
    (u32, u64),
    ProgramError,
> {
    let (kind_ok, account, index, amount) = match record.needs_to_update@[0] {
        RollupUpdates::CashoutBid { account, index, earned, .. } => (!deleting, account, index, earned),
        RollupUpdates::DeletingBid { account, index, must_pay_user, .. } => (
            deleting,
            account,
            index,
            must_pay_user,
        ),
        RollupUpdates::RegisterBid { account, index, .. } => (false, account, index, 0u64),
    };
    if !kind_ok {
        Err(ProgramError::InvalidAccountData)
    } else {
        match pda(bid_tracks_seeds(campaign)) {
            None => Err(ProgramError::InvalidSeeds),
            Some(k) => if k == account@ {
                Ok((index, amount))
            } else {
                Err(ProgramError::InvalidAccountData)
            },
        }
    }
}

fn read_closing_update(record: &RollupMessenger, campaign: &Pubkey, deleting: bool) -> (r: Result<
    (u32, u64),
    ProgramError,
>)
    requires
        record.needs_to_update@.len() > 0,
    ensures
        r == closing_update(*record, *campaign, deleting),
{
    let (kind_ok, account, index, amount) = match record.needs_to_update[0] {
        RollupUpdates::CashoutBid { account, index, earned, .. } => (!deleting, account, index, earned),
        RollupUpdates::DeletingBid { account, index, must_pay_user, .. } => (
            deleting,
            account,
            index,
            must_pay_user,
        ),
        RollupUpdates::RegisterBid { account, index, .. } => (false, account, index, 0u64),
    };
    if !kind_ok {
        return Err(ProgramError::InvalidAccountData);
    }
    let tracks = match bid_tracks_address(campaign) {
        Ok(k) => k,
        Err(e) => {
            return Err(e);
        },
    };
    if keys_equal(&tracks, &account) {
        Ok((index, amount))
    } else {
        Err(ProgramError::InvalidAccountData)
    }
}

/// The state a bid's slot returns to once a settlement is closed: cashing
/// out becomes ready again, cashing out while paused becomes paused; any
/// other state may not be closed.
pub open spec fn slot_after_settlement(state: u8) -> Option<u8> {
    if state == AD_CAMPAIGN_BID_STATE_CASHINGOUT {
        Some(AD_CAMPAIGN_BID_STATE_READY)
    } else if state == AD_CAMPAIGN_BID_STATE_CASHINGOUT_PAUSED {
        Some(AD_CAMPAIGN_BID_STATE_PAUSED)
    } else {
        None
    }
}

fn next_slot_state(state: u8) -> (r: Option<u8>)
    ensures
        r == slot_after_settlement(state),
{
    if state == AD_CAMPAIGN_BID_STATE_CASHINGOUT {
        Some(AD_CAMPAIGN_BID_STATE_READY)
    } else if state == AD_CAMPAIGN_BID_STATE_CASHINGOUT_PAUSED {
        Some(AD_CAMPAIGN_BID_STATE_PAUSED)
    } else {
        None
    }
}

/// What closing a settled cash-out needs, that is, the inputs on which the
/// program does not fail outright: the messenger holds an update; for a
/// cash-out of this campaign's bid-track account on a bid track that names
/// `ad_spot`, the earnings can be paid and counted, the slot is inside the
/// campaign, and the refund of the messenger fits.
pub open spec fn close_cashout_requires(
    bid_messenger: AccountInfo,
    record: RollupMessenger,
    ad_campaign: AccountInfo,
    bid_track: Seq<u8>,
    ad_spot: Pubkey,
    space_creator_owner: AccountInfo,
    space_creator: SpaceCreator,
    messenger_creator: AccountInfo,
    creator: Pubkey,
) -> bool {
    &&& record.needs_to_update@.len() > 0
    &&& match closing_update(record, ad_campaign.key, false) {
        Err(_) => true,
        Ok((i, earned)) => bid_track.len() >= TO_BID_TRACK_AD_SPOT + 32 && (spot_of(bid_track)
            == ad_spot@ ==> {
            &&& earned <= bid_messenger.lamports
            &&& space_creator_owner.lamports + earned <= u64::MAX
            &&& space_creator.earning + earned <= u64::MAX
            &&& START_FROM_AD_CAMPAIGN + i < ad_campaign.data@.len()
            &&& slot_after_settlement(ad_campaign.data@[START_FROM_AD_CAMPAIGN + i]) is Some
                ==> refund_fits(
                AccountInfo { lamports: (bid_messenger.lamports - earned) as u64, ..bid_messenger },
                messenger_creator,
                record.creator,
                creator,
            )
        }),
    }
}

/// What closing a settled cash-out does, from the accounts before (`0`) to
/// the accounts after (`1`) and its result `r` (see [`close_commit_cashout`]).
pub open spec fn close_cashout_done(
    m0: AccountInfo,
    record: RollupMessenger,
    c0: AccountInfo,
    bid_track: Seq<u8>,
    ad_spot: Pubkey,
    o0: AccountInfo,
    sc0: SpaceCreator,
    mc0: AccountInfo,
    creator: Pubkey,
    m1: AccountInfo,
    c1: AccountInfo,
    o1: AccountInfo,
    sc1: SpaceCreator,
    mc1: AccountInfo,
    r: Result<(), ProgramError>,
) -> bool {
    &&& match closing_update(record, c0.key, false) {
        Err(e) => r == Err::<(), ProgramError>(e),
        Ok((i, earned)) => if spot_of(bid_track) != ad_spot@ {
            r == Err::<(), ProgramError>(ProgramError::InvalidAccountData)
        } else {
            match slot_after_settlement(c0.data@[START_FROM_AD_CAMPAIGN + i]) {
                None => r == Err::<(), ProgramError>(ProgramError::InvalidAccountData),
                Some(s) => {
                    &&& r == Ok::<(), ProgramError>(())
                    &&& c1.data@ == c0.data@.update(
                        START_FROM_AD_CAMPAIGN + i,
                        s,
                    )
                    &&& c1.key == c0.key
                    &&& c1.lamports == c0.lamports
                    &&& o1.lamports == o0.lamports + earned
                    &&& m1.lamports + o1.lamports
                        + mc1.lamports == m0.lamports
                        + o0.lamports + mc0.lamports
                    &&& o1.key == o0.key
                    &&& o1.data == o0.data
                    &&& sc1 == SpaceCreator {
                        earning: (sc0.earning + earned) as u64,
                        ..sc0
                    }
                    &&& refunded(
                        AccountInfo {
                            lamports: (m0.lamports - earned) as u64,
                            ..m0
                        },
                        mc0,
                        m1,
                        mc1,
                        record.creator,
                        creator,
                    )
                },
            }
        },
    }
    &&& r is Err ==> c1 == c0 && m1 == m0 && mc1 == mc0 && o1 == o0 && sc1 == sc0
}

/// What closing a settled deletion needs, that is, the inputs on which the
/// program does not fail outright (see [`close_cashout_requires`]; here the
/// budget left in the bid track must also be payable back).
pub open spec fn close_deletion_requires(
    bid_messenger: AccountInfo,
    record: RollupMessenger,
    ad_campaign: AccountInfo,
    bid_track: AccountInfo,
    ad_spot: Pubkey,
    space_creator_owner: AccountInfo,
    ad_creator_owner: AccountInfo,
    space_creator: SpaceCreator,
    messenger_creator: AccountInfo,
    creator: Pubkey,
) -> bool {
    &&& record.needs_to_update@.len() > 0
    &&& match closing_update(record, ad_campaign.key, true) {
        Err(_) => true,
        Ok((i, owed)) => bid_track.data@.len() >= TO_BID_TRACK_AD_SPOT + 32 && (spot_of(bid_track.data@)
            == ad_spot@ ==> {
            let budget = read_bid_config(bid_track.data@, TO_BID_TRACK_AD_CONFIG as int).budget;
            &&& owed <= bid_messenger.lamports
            &&& space_creator_owner.lamports + owed <= u64::MAX
            &&& bid_track.data@.len() >= TO_BID_TRACK_AD_CONFIG + BID_CONFIG_SIZE
            &&& budget <= bid_track.lamports
            &&& ad_creator_owner.lamports + budget <= u64::MAX
            &&& ad_creator_owner.lamports + bid_track.lamports <= u64::MAX ==> {
                &&& space_creator.earning + owed <= u64::MAX
                &&& START_FROM_AD_CAMPAIGN + i < ad_campaign.data@.len()
                &&& slot_after_settlement(ad_campaign.data@[START_FROM_AD_CAMPAIGN + i]) is Some
                    ==> refund_fits(
                    AccountInfo { lamports: (bid_messenger.lamports - owed) as u64, ..bid_messenger },
                    messenger_creator,
                    record.creator,
                    creator,
                )
            }
        }),
    }
}

/// What closing a settled deletion does, from the accounts before (`0`) to
/// the accounts after (`1`) and its result `r` (see [`close_commit_delete_bid`]).
pub open spec fn close_deletion_done(
    m0: AccountInfo,
    record: RollupMessenger,
    c0: AccountInfo,
    t0: AccountInfo,
    ad_spot: Pubkey,
    o0: AccountInfo,
    a0: AccountInfo,
    sc0: SpaceCreator,
    mc0: AccountInfo,
    creator: Pubkey,
    m1: AccountInfo,
    c1: AccountInfo,
    t1: AccountInfo,
    o1: AccountInfo,
    a1: AccountInfo,
    sc1: SpaceCreator,
    mc1: AccountInfo,
    r: Result<(), ProgramError>,
) -> bool {
    &&& match closing_update(record, c0.key, true) {
        Err(e) => r == Err::<(), ProgramError>(e),
        Ok((i, owed)) => if spot_of(t0.data@) != ad_spot@ {
            r == Err::<(), ProgramError>(ProgramError::InvalidAccountData)
        } else if a0.lamports + t0.lamports > u64::MAX {
            r == Err::<(), ProgramError>(ProgramError::InvalidArgument)
        } else {
            match slot_after_settlement(c0.data@[START_FROM_AD_CAMPAIGN + i]) {
                None => r == Err::<(), ProgramError>(ProgramError::InvalidAccountData),
                Some(s) => {
                    &&& r == Ok::<(), ProgramError>(())
                    &&& c1.data@ == c0.data@.update(
                        START_FROM_AD_CAMPAIGN + i,
                        s,
                    )
                    &&& c1.key == c0.key
                    &&& c1.lamports == c0.lamports
                    &&& o1.lamports == o0.lamports + owed
                    &&& m1.lamports + o1.lamports
                        + mc1.lamports + t1.lamports
                        + a1.lamports == m0.lamports
                        + o0.lamports + mc0.lamports
                        + t0.lamports + a0.lamports
                    &&& o1.key == o0.key
                    &&& o1.data == o0.data
                    &&& t1.lamports == 0
                    &&& t1.data@ == zeros(t0.data@.len())
                    &&& t1.key == t0.key
                    &&& a1.lamports == a0.lamports + t0.lamports
                    &&& a1.key == a0.key
                    &&& a1.data == a0.data
                    &&& sc1 == SpaceCreator {
                        earning: (sc0.earning + owed) as u64,
                        ..sc0
                    }
                    &&& refunded(
                        AccountInfo {
                            lamports: (m0.lamports - owed) as u64,
                            ..m0
                        },
                        mc0,
                        m1,
                        mc1,
                        record.creator,
                        creator,
                    )
                },
            }
        },
    }
    &&& r is Err ==> c1 == c0 && m1 == m0 && mc1 == mc0 && o1 == o0 && sc1 == sc0
        && t1 == t0 && a1 == a0
}

/// Closes the messenger of a settled cash-out: its first update must be a
/// cash-out for the campaign's bid-track account and the bid track must name
/// `ad_spot` (else `InvalidAccountData`; no derivable account:
/// `InvalidSeeds`); the earnings go from the messenger to the space's owner
/// and are added to the space creator's; the bid's slot leaves the
/// cashing-out state (any other state: `InvalidAccountData`); then the
/// messenger is refunded.  An error changes nothing.
pub fn close_commit_cashout(
    bid_messenger: &mut AccountInfo,
    record: &RollupMessenger,
    ad_campaign: &mut AccountInfo,
    bid_track: &Vec<u8>,
    ad_spot: &Pubkey,
    space_creator_owner: &mut AccountInfo,
    space_creator: &mut SpaceCreator,
    messenger_creator: &mut AccountInfo,
    creator: &Pubkey,
) -> (r: Result<(), ProgramError>)
    requires
        close_cashout_requires(
            *old(bid_messenger),
            *record,
            *old(ad_campaign),
            bid_track@,
            *ad_spot,
            *old(space_creator_owner),
            *old(space_creator),
            *old(messenger_creator),
            *creator,
        ),
    ensures
        close_cashout_done(
            *old(bid_messenger),
            *record,
            *old(ad_campaign),
            bid_track@,
            *ad_spot,
            *old(space_creator_owner),
            *old(space_creator),
            *old(messenger_creator),
            *creator,
            *final(bid_messenger),
            *final(ad_campaign),
            *final(space_creator_owner),
            *final(space_creator),
            *final(messenger_creator),
            r,
        ),
{
    let (index, earned) = match read_closing_update(record, &ad_campaign.key, false) {
        Ok(u) => u,
        Err(e) => {
            return Err(e);
        },
    };
    if !names_spot(bid_track, ad_spot) {
        return Err(ProgramError::InvalidAccountData);
    }
    let _len = ad_campaign.data.len();
    let pos = START_FROM_AD_CAMPAIGN + index as usize;
    let next = match next_slot_state(ad_campaign.data[pos]) {
        Some(s) => s,
        None => {
            return Err(ProgramError::InvalidAccountData);
        },
    };
    let _ = pay_to_user(bid_messenger, space_creator_owner, earned);
    space_creator.earning = space_creator.earning + earned;
    ad_campaign.data.set(pos, next);
    refund_messenger(bid_messenger, messenger_creator, &record.creator, creator);
    Ok(())
}

/// Closes the messenger of a settled deletion: its first update must be a
/// deletion for the campaign's bid-track account and the bid track must name
/// `ad_spot` (else `InvalidAccountData`; no derivable account:
/// `InvalidSeeds`); what the deletion owes goes from the messenger to the
/// space's owner; the budget left in the bid goes back to the ad's owner and
/// the bid track is closed into it (a balance that would overflow:
/// `InvalidArgument`); the space creator's earnings grow by what was owed;
/// the bid's slot must be in a cashing-out state (else `InvalidAccountData`)
/// and leaves it; then the messenger is refunded.  An error changes nothing.
pub fn close_commit_delete_bid(
    bid_messenger: &mut AccountInfo,
    record: &RollupMessenger,
    ad_campaign: &mut AccountInfo,
    bid_track: &mut AccountInfo,
    ad_spot: &Pubkey,
    space_creator_owner: &mut AccountInfo,
    ad_creator_owner: &mut AccountInfo,
    space_creator: &mut SpaceCreator,
    messenger_creator: &mut AccountInfo,
    creator: &Pubkey,
) -> (r: Result<(), ProgramError>)
    requires
        close_deletion_requires(
            *old(bid_messenger),
            *record,
            *old(ad_campaign),
            *old(bid_track),
            *ad_spot,
            *old(space_creator_owner),
            *old(ad_creator_owner),
            *old(space_creator),
            *old(messenger_creator),
            *creator,
        ),
    ensures
        close_deletion_done(
            *old(bid_messenger),
            *record,
            *old(ad_campaign),
            *old(bid_track),
            *ad_spot,
            *old(space_creator_owner),
            *old(ad_creator_owner),
            *old(space_creator),
            *old(messenger_creator),
            *creator,
            *final(bid_messenger),
            *final(ad_campaign),
            *final(bid_track),
            *final(space_creator_owner),
            *final(ad_creator_owner),
            *final(space_creator),
            *final(messenger_creator),
            r,
        ),
{
    let (index, owed) = match read_closing_update(record, &ad_campaign.key, true) {
        Ok(u) => u,
        Err(e) => {
            return Err(e);
        },
    };
    if !names_spot(&bid_track.data, ad_spot) {
        return Err(ProgramError::InvalidAccountData);
    }
    if ad_creator_owner.lamports.checked_add(bid_track.lamports).is_none() {
        return Err(ProgramError::InvalidArgument);
    }
    let _len = ad_campaign.data.len();
    let pos = START_FROM_AD_CAMPAIGN + index as usize;
    let next = match next_slot_state(ad_campaign.data[pos]) {
        Some(s) => s,
        None => {
            return Err(ProgramError::InvalidAccountData);
        },
    };
    let _ = pay_to_user(bid_messenger, space_creator_owner, owed);
    let bid_config = bid_config_from_bytes(&bid_track.data, TO_BID_TRACK_AD_CONFIG);
    if bid_config.budget > 0 {
        let _ = pay_to_user(bid_track, ad_creator_owner, bid_config.budget);
    }
    let _ = close_account(bid_track, ad_creator_owner);
    space_creator.earning = space_creator.earning + owed;
    ad_campaign.data.set(pos, next);
    refund_messenger(bid_messenger, messenger_creator, &record.creator, creator);
    Ok(())
}

fn refund_ok(messenger_lamports: u64, creator_lamports: u64, owner: &Pubkey, creator: &Pubkey) -> (ok: bool)
    ensures
        ok == (messenger_lamports >= MESSENGER_FEE_RESERVE && (refunds(*owner, *creator) ==> creator_lamports
            + (messenger_lamports - MESSENGER_FEE_RESERVE) <= u64::MAX)),
{
    if messenger_lamports < MESSENGER_FEE_RESERVE {
        return false;
    }
    keys_equal(owner, creator) || creator_lamports as u128 + (messenger_lamports - MESSENGER_FEE_RESERVE) as u128
        <= u64::MAX as u128
}

/// Whether closing a registration stays on the inputs the program handles:
/// the preconditions of [`close_messenger_bid_track`]; on the others the
/// program fails outright.
pub fn close_registration_fits(
    bid_messenger: &AccountInfo,
    record: &RollupMessenger,
    ad_campaign: &Vec<u8>,
    ad_campaign_bid_tracks: &Pubkey,
    bid_track: &Vec<u8>,
    ad_spot: &Pubkey,
    messenger_creator: &AccountInfo,
    creator: &Pubkey,
) -> (ok: bool)
    ensures
        ok == ({
            &&& record.needs_to_update@.len() > 0
            &&& match registered_slot(*record, *ad_campaign_bid_tracks) {
                None => true,
                Some(i) => bid_track@.len() >= TO_BID_TRACK_AD_SPOT + 32 && (spot_of(bid_track@) == ad_spot@ ==> {
                    &&& START_FROM_AD_CAMPAIGN + i < ad_campaign@.len()
                    &&& ad_campaign@[START_FROM_AD_CAMPAIGN + i] == AD_CAMPAIGN_BID_STATE_CREATING ==> refund_fits(
                        *bid_messenger,
                        *messenger_creator,
                        record.creator,
                        *creator,
                    )
                }),
            }
        }),
{
    if record.needs_to_update.len() == 0 {
        return false;
    }
    let index = match record.needs_to_update[0] {
        RollupUpdates::RegisterBid { account, index, .. } => {
            if !keys_equal(ad_campaign_bid_tracks, &account) {
                return true;
            }
            index
        },
        _ => {
            return true;
        },
    };
    if bid_track.len() < TO_BID_TRACK_AD_SPOT + 32 {
        return false;
    }
    if !names_spot(bid_track, ad_spot) {
        return true;
    }
    let pos: u64 = START_FROM_AD_CAMPAIGN as u64 + index as u64;
    if pos >= ad_campaign.len() as u64 {
        return false;
    }
    ad_campaign[pos as usize] != AD_CAMPAIGN_BID_STATE_CREATING || refund_ok(
        bid_messenger.lamports,
        messenger_creator.lamports,
        &record.creator,
        creator,
    )
}

/// Whether closing a settled cash-out stays on the inputs the program
/// handles: the preconditions of [`close_commit_cashout`]; on the others
/// the program fails outright.
pub fn close_cashout_fits(
    bid_messenger: &AccountInfo,
    record: &RollupMessenger,
    ad_campaign: &AccountInfo,
    bid_track: &Vec<u8>,
    ad_spot: &Pubkey,
    space_creator_owner: &AccountInfo,
    space_creator: &SpaceCreator,
    messenger_creator: &AccountInfo,
    creator: &Pubkey,
) -> (ok: bool)
    ensures
        ok == close_cashout_requires(
            *bid_messenger,
            *record,
            *ad_campaign,
            bid_track@,
            *ad_spot,
            *space_creator_owner,
            *space_creator,
            *messenger_creator,
            *creator,
        ),
{
    if record.needs_to_update.len() == 0 {
        return false;
    }
    let (index, earned) = match read_closing_update(record, &ad_campaign.key, false) {
        Ok(u) => u,
        Err(_) => {
            return true;
        },
    };
    if bid_track.len() < TO_BID_TRACK_AD_SPOT + 32 {
        return false;
    }
    if !names_spot(bid_track, ad_spot) {
        return true;
    }
    if earned > bid_messenger.lamports || space_creator_owner.lamports as u128 + earned as u128 > u64::MAX as u128
        || space_creator.earning as u128 + earned as u128 > u64::MAX as u128 {
        return false;
    }
    let pos: u64 = START_FROM_AD_CAMPAIGN as u64 + index as u64;
    if pos >= ad_campaign.data.len() as u64 {
        return false;
    }
    next_slot_state(ad_campaign.data[pos as usize]).is_none() || refund_ok(
        bid_messenger.lamports - earned,
        messenger_creator.lamports,
        &record.creator,
        creator,
    )
}

/// Whether closing a settled deletion stays on the inputs the program
/// handles: the preconditions of [`close_commit_delete_bid`]; on the others
/// the program fails outright.
pub fn close_deletion_fits(
    bid_messenger: &AccountInfo,
    record: &RollupMessenger,
    ad_campaign: &AccountInfo,
    bid_track: &AccountInfo,
    ad_spot: &Pubkey,
    space_creator_owner: &AccountInfo,
    ad_creator_owner: &AccountInfo,
    space_creator: &SpaceCreator,
    messenger_creator: &AccountInfo,
    creator: &Pubkey,
) -> (ok: bool)
    ensures
        ok == close_deletion_requires(
            *bid_messenger,
            *record,
            *ad_campaign,
            *bid_track,
            *ad_spot,
            *space_creator_owner,
            *ad_creator_owner,
            *space_creator,
            *messenger_creator,
            *creator,
        ),
{
    if record.needs_to_update.len() == 0 {
        return false;
    }
    let (index, owed) = match read_closing_update(record, &ad_campaign.key, true) {
        Ok(u) => u,
        Err(_) => {
            return true;
        },
    };
    if bid_track.data.len() < TO_BID_TRACK_AD_SPOT + 32 {
        return false;
    }
    if !names_spot(&bid_track.data, ad_spot) {
        return true;
    }
    if owed > bid_messenger.lamports || space_creator_owner.lamports as u128 + owed as u128 > u64::MAX as u128 {
        return false;
    }
    if bid_track.data.len() < TO_BID_TRACK_AD_CONFIG + BID_CONFIG_SIZE {
        return false;
    }
    let budget = bid_config_from_bytes(&bid_track.data, TO_BID_TRACK_AD_CONFIG).budget;
    if budget > bid_track.lamports || ad_creator_owner.lamports as u128 + budget as u128 > u64::MAX as u128 {
        return false;
    }
    if ad_creator_owner.lamports as u128 + bid_track.lamports as u128 > u64::MAX as u128 {
        return true;
    }
    if space_creator.earning as u128 + owed as u128 > u64::MAX as u128 {
        return false;
    }
    let pos: u64 = START_FROM_AD_CAMPAIGN as u64 + index as u64;
    if pos >= ad_campaign.data.len() as u64 {
        return false;
    }
    next_slot_state(ad_campaign.data[pos as usize]).is_none() || refund_ok(
        bid_messenger.lamports - owed,
        messenger_creator.lamports,
        &record.creator,
        creator,
    )
}

/// Closes a settled cash-out (see [`close_commit_cashout`]) when the inputs
/// are ones the program handles (see [`close_cashout_fits`]); on the others,
/// where the program fails outright, returns `None` and changes nothing.
pub fn close_commit_cashout_checked(
    bid_messenger: &mut AccountInfo,
    record: &RollupMessenger,
    ad_campaign: &mut AccountInfo,
    bid_track: &Vec<u8>,
    ad_spot: &Pubkey,
    space_creator_owner: &mut AccountInfo,
    space_creator: &mut SpaceCreator,
    messenger_creator: &mut AccountInfo,
    creator: &Pubkey,
) -> (r: Option<Result<(), ProgramError>>)
    ensures
        r is None <==> !close_cashout_requires(
            *old(bid_messenger),
            *record,
            *old(ad_campaign),
            bid_track@,
            *ad_spot,
            *old(space_creator_owner),
            *old(space_creator),
            *old(messenger_creator),
            *creator,
        ),
        r is None ==> *final(bid_messenger) == *old(bid_messenger) && *final(ad_campaign) == *old(ad_campaign)
            && *final(space_creator_owner) == *old(space_creator_owner) && *final(space_creator) == *old(
            space_creator,
        ) && *final(messenger_creator) == *old(messenger_creator),
        r matches Some(x) ==> close_cashout_done(
            *old(bid_messenger),
            *record,
            *old(ad_campaign),
            bid_track@,
            *ad_spot,
            *old(space_creator_owner),
            *old(space_creator),
            *old(messenger_creator),
            *creator,
            *final(bid_messenger),
            *final(ad_campaign),
            *final(space_creator_owner),
            *final(space_creator),
            *final(messenger_creator),
            x,
        ),
{
    if !close_cashout_fits(
        bid_messenger,
        record,
        ad_campaign,
        bid_track,
        ad_spot,
        space_creator_owner,
        space_creator,
        messenger_creator,
        creator,
    ) {
        return None;
    }
    Some(
        close_commit_cashout(
            bid_messenger,
            record,
            ad_campaign,
            bid_track,
            ad_spot,
            space_creator_owner,
            space_creator,
            messenger_creator,
            creator,
        ),
    )
}

/// Closes a settled deletion (see [`close_commit_delete_bid`]) when the
/// inputs are ones the program handles (see [`close_deletion_fits`]); on the
/// others, where the program fails outright, returns `None` and changes
/// nothing.
pub fn close_commit_delete_bid_checked(
    bid_messenger: &mut AccountInfo,
    record: &RollupMessenger,
    ad_campaign: &mut AccountInfo,
    bid_track: &mut AccountInfo,
    ad_spot: &Pubkey,
    space_creator_owner: &mut AccountInfo,
    ad_creator_owner: &mut AccountInfo,
    space_creator: &mut SpaceCreator,
    messenger_creator: &mut AccountInfo,
    creator: &Pubkey,
) -> (r: Option<Result<(), ProgramError>>)
    ensures
        r is None <==> !close_deletion_requires(
            *old(bid_messenger),
            *record,
            *old(ad_campaign),
            *old(bid_track),
            *ad_spot,
            *old(space_creator_owner),
            *old(ad_creator_owner),
            *old(space_creator),
            *old(messenger_creator),
            *creator,
        ),
        r is None ==> *final(bid_messenger) == *old(bid_messenger) && *final(ad_campaign) == *old(ad_campaign)
            && *final(bid_track) == *old(bid_track) && *final(space_creator_owner) == *old(space_creator_owner)
            && *final(ad_creator_owner) == *old(ad_creator_owner) && *final(space_creator) == *old(space_creator)
            && *final(messenger_creator) == *old(messenger_creator),
        r matches Some(x) ==> close_deletion_done(
            *old(bid_messenger),
            *record,
            *old(ad_campaign),
            *old(bid_track),
            *ad_spot,
            *old(space_creator_owner),
            *old(ad_creator_owner),
            *old(space_creator),
            *old(messenger_creator),
            *creator,
            *final(bid_messenger),
            *final(ad_campaign),
            *final(bid_track),
            *final(space_creator_owner),
            *final(ad_creator_owner),
            *final(space_creator),
            *final(messenger_creator),
            x,
        ),
{
    if !close_deletion_fits(
        bid_messenger,
        record,
        ad_campaign,
        bid_track,
        ad_spot,
        space_creator_owner,
        ad_creator_owner,
        space_creator,
        messenger_creator,
        creator,
    ) {
        return None;
    }
    Some(
        close_commit_delete_bid(
            bid_messenger,
            record,
            ad_campaign,
            bid_track,
            ad_spot,
            space_creator_owner,
            ad_creator_owner,
            space_creator,
            messenger_creator,
            creator,
        ),
    )
}

} // verus!
