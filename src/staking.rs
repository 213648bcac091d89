use vstd::prelude::*;

use crate::errors::StakingError;
use crate::ledger::{
    add_to_tier, later, remove_from_tier, settle, settled_reward, tier_full, tier_is_full,
    tiers_after_deposit, tiers_after_withdraw, lemma_nothing_pending_before,
};
use crate::rewarder::{check_eligibility, eligibility};
use crate::state::{
    Address, MetadataAccount, NftItem, NftStakeAccount, NftStakeRewarder, NftStaked, VaultAccount,
};
use crate::vault::{
    can_release, items_after_deposit, items_after_withdraw, releasable_period, released_period,
};

verus! {

/// Whether a deposit is accepted, and if not, why.
pub open spec fn stake_verdict(
    rewarder: NftStakeRewarder,
    stake_account: NftStakeAccount,
    nft_mint: Address,
    locking_period: i64,
    now: i64,
    metadata: Option<MetadataAccount>,
) -> Result<(), StakingError> {
    match eligibility(rewarder, nft_mint, metadata) {
        Err(e) => Err(e),
        Ok(()) => if tier_full(stake_account.nfts_staked@, locking_period) || settled_reward(
            stake_account,
            rewarder.reward_rate,
            now,
        ) > u64::MAX {
            Err(StakingError::ArithmeticOverflow)
        } else {
            Ok(())
        },
    }
}

/// Whether a withdrawal is accepted, and if not, why.
pub open spec fn unstake_verdict(
    rewarder: NftStakeRewarder,
    stake_account: NftStakeAccount,
    vault_account: VaultAccount,
    owner: Address,
    nft_mint: Address,
    now: i64,
) -> Result<(), StakingError> {
    if !can_release(vault_account.nft_items_staked@, owner, nft_mint, now) {
        Err(StakingError::NFTAUnlocked)
    } else if settled_reward(stake_account, rewarder.reward_rate, now) > u64::MAX {
        Err(StakingError::ArithmeticOverflow)
    } else {
        Ok(())
    }
}

/// The stake account as settlement at `now` leaves it.
pub open spec fn settled(stake_account: NftStakeAccount, reward_rate: u64, now: i64) -> NftStakeAccount {
    NftStakeAccount {
        claimed_reward: settled_reward(stake_account, reward_rate, now) as u64,
        last_claimed: later(stake_account.last_claimed, now),
        ..stake_account
    }
}

/// A new vault for one owner.
pub fn initialize_valut(reward_mint: Address, bump: u8) -> (r: VaultAccount)
    ensures
        r.reward_mint == reward_mint,
        r.bump == bump,
        r.nft_items_staked@ == Seq::<NftItem>::empty(),
        r.wf(),
{
    VaultAccount::new(reward_mint, bump)
}

/// A new rewarder for a collection, with an empty whitelist.
pub fn initialize_rewarder(
    authority: Address,
    reward_mint: Address,
    reward_authority_bump: u8,
    reward_rate: u64,
    collection: String,
    creators: Vec<crate::state::CreatorStruct>,
    nft_update_authority: Address,
    enforce_metadata: bool,
) -> (r: NftStakeRewarder)
    ensures
        r.authority == authority,
        r.reward_mint == reward_mint,
        r.reward_authority_bump == reward_authority_bump,
        r.reward_rate == reward_rate,
        r.collection@ == collection@,
        r.creators@ == creators@,
        r.allowed_update_authority == nft_update_authority,
        r.enforce_metadata == enforce_metadata,
        r.total_staked == 0,
        r.whitelist_addresses@ == Seq::<Address>::empty(),
        r.wf(),
{
    NftStakeRewarder::new(
        authority,
        reward_mint,
        reward_authority_bump,
        reward_rate,
        collection,
        creators,
        nft_update_authority,
        enforce_metadata,
    )
}

/// A new, empty stake account of `owner` with `rewarder`.
pub fn initialize_stake_account(owner: Address, rewarder: Address, bump: u8) -> (r: NftStakeAccount)
    ensures
        r.owner == owner,
        r.rewarder == rewarder,
        r.bump == bump,
        r.nfts_staked@.len() == 0,
        r.last_claimed == 0,
        r.claimed_reward == 0,
        r.wf(),
{
    NftStakeAccount { owner, rewarder, nfts_staked: Vec::new(), bump, last_claimed: 0, claimed_reward: 0 }
}

/// Deposits `nft_mint` of `owner` with `locking_period` at `now`: checks
/// eligibility, settles pending reward, records the asset in the vault and
/// counts it in its tier. On refusal nothing changes. The caller moves the
/// asset into custody and keeps the new records only once that succeeded.
pub fn stake_nft(
    rewarder: &NftStakeRewarder,
    stake_account: &mut NftStakeAccount,
    vault_account: &mut VaultAccount,
    owner: Address,
    nft_mint: Address,
    locking_period: i64,
    now: i64,
    metadata: &Option<MetadataAccount>,
) -> (r: Result<(), StakingError>)
    requires
        old(stake_account).wf(),
        old(vault_account).wf(),
    ensures
        r == stake_verdict(*rewarder, *old(stake_account), nft_mint, locking_period, now, *metadata),
        final(stake_account).wf(),
        final(vault_account).wf(),
        r is Err ==> *final(stake_account) == *old(stake_account) && *final(vault_account) == *old(vault_account),
        r is Ok ==> {
            &&& final(stake_account).claimed_reward == settled_reward(*old(stake_account), rewarder.reward_rate, now)
            &&& final(stake_account).last_claimed == later(old(stake_account).last_claimed, now)
            &&& final(stake_account).nfts_staked@ == tiers_after_deposit(old(stake_account).nfts_staked@, locking_period)
            &&& final(stake_account).owner == old(stake_account).owner
            &&& final(stake_account).rewarder == old(stake_account).rewarder
            &&& final(stake_account).bump == old(stake_account).bump
            &&& final(vault_account).nft_items_staked@ == items_after_deposit(
                old(vault_account).nft_items_staked@,
                (NftItem { owner, locking_period, start_staking: now, nft_mint, flag: true }),
            )
            &&& final(vault_account).reward_mint == old(vault_account).reward_mint
            &&& final(vault_account).bump == old(vault_account).bump
        },
{
    let eligible = check_eligibility(rewarder, &nft_mint, metadata);
    if eligible.is_err() {
        return eligible;
    }
    if tier_is_full(&stake_account.nfts_staked, locking_period) {
        return Err(StakingError::ArithmeticOverflow);
    }
    let settlement = settle(stake_account, rewarder.reward_rate, now);
    if settlement.is_err() {
        return settlement;
    }
    vault_account.deposit_item(NftItem { owner, locking_period, start_staking: now, nft_mint, flag: true });
    add_to_tier(&mut stake_account.nfts_staked, locking_period);
    Ok(())
}

/// Withdraws `nft_mint` of `owner` at `now`: its vault entry must be
/// releasable; pending reward is settled, the entry marked inactive and the
/// bucket of the entry's own locking period counts one fewer, never below zero. On refusal
/// nothing changes. The caller hands the asset back and keeps the new records
/// only once that succeeded.
pub fn unstake_nft(
    rewarder: &NftStakeRewarder,
    stake_account: &mut NftStakeAccount,
    vault_account: &mut VaultAccount,
    owner: Address,
    nft_mint: Address,
    now: i64,
) -> (r: Result<(), StakingError>)
    requires
        old(stake_account).wf(),
        old(vault_account).wf(),
    ensures
        r == unstake_verdict(*rewarder, *old(stake_account), *old(vault_account), owner, nft_mint, now),
        final(stake_account).wf(),
        final(vault_account).wf(),
        r is Err ==> *final(stake_account) == *old(stake_account) && *final(vault_account) == *old(vault_account),
        r is Ok ==> {
            &&& final(stake_account).claimed_reward == settled_reward(*old(stake_account), rewarder.reward_rate, now)
            &&& final(stake_account).last_claimed == later(old(stake_account).last_claimed, now)
            &&& final(stake_account).nfts_staked@ == tiers_after_withdraw(
                old(stake_account).nfts_staked@,
                released_period(old(vault_account).nft_items_staked@, owner, nft_mint, now),
            )
            &&& final(stake_account).owner == old(stake_account).owner
            &&& final(stake_account).rewarder == old(stake_account).rewarder
            &&& final(stake_account).bump == old(stake_account).bump
            &&& final(vault_account).nft_items_staked@ == items_after_withdraw(
                old(vault_account).nft_items_staked@,
                owner,
                nft_mint,
                now,
            )
            &&& final(vault_account).reward_mint == old(vault_account).reward_mint
            &&& final(vault_account).bump == old(vault_account).bump
        },
{
    let period = match releasable_period(&vault_account.nft_items_staked, owner, nft_mint, now) {
        Some(p) => p,
        None => {
            return Err(StakingError::NFTAUnlocked);
        },
    };
    let settlement = settle(stake_account, rewarder.reward_rate, now);
    if settlement.is_err() {
        return settlement;
    }
    vault_account.release_item(owner, nft_mint, now);
    remove_from_tier(&mut stake_account.nfts_staked, period);
    Ok(())
}

/// Settles at `now` and hands out the whole balance: returns the amount to
/// issue, with the balance reset to zero. On refusal nothing changes. The
/// caller issues the amount and keeps the new record only once that succeeded.
pub fn claim(rewarder: &NftStakeRewarder, stake_account: &mut NftStakeAccount, now: i64) -> (r: Result<u64, StakingError>)
    requires
        old(stake_account).wf(),
    ensures
        final(stake_account).wf(),
        settled_reward(*old(stake_account), rewarder.reward_rate, now) <= u64::MAX ==> {
            &&& r == Ok::<u64, StakingError>(settled_reward(*old(stake_account), rewarder.reward_rate, now) as u64)
            &&& *final(stake_account) == (NftStakeAccount {
                claimed_reward: 0,
                ..settled(*old(stake_account), rewarder.reward_rate, now)
            })
        },
        settled_reward(*old(stake_account), rewarder.reward_rate, now) > u64::MAX ==> {
            &&& r == Err::<u64, StakingError>(StakingError::ArithmeticOverflow)
            &&& *final(stake_account) == *old(stake_account)
        },
{
    let settlement = settle(stake_account, rewarder.reward_rate, now);
    match settlement {
        Err(e) => Err(e),
        Ok(()) => {
            let amount = stake_account.claimed_reward;
            stake_account.claimed_reward = 0;
            Ok(amount)
        },
    }
}

/// Settles at `now` without issuing anything, so that the balance can be read.
pub fn check_balance(rewarder: &NftStakeRewarder, stake_account: &mut NftStakeAccount, now: i64) -> (r: Result<(), StakingError>)
    requires
        old(stake_account).wf(),
    ensures
        final(stake_account).wf(),
        settled_reward(*old(stake_account), rewarder.reward_rate, now) <= u64::MAX ==> {
            &&& r is Ok
            &&& *final(stake_account) == settled(*old(stake_account), rewarder.reward_rate, now)
        },
        settled_reward(*old(stake_account), rewarder.reward_rate, now) > u64::MAX ==> {
            &&& r == Err::<(), StakingError>(StakingError::ArithmeticOverflow)
            &&& *final(stake_account) == *old(stake_account)
        },
{
    settle(stake_account, rewarder.reward_rate, now)
}

/// Settling twice at the same `now` adds the reward once: the second
/// settlement leaves the account as the first left it.
pub proof fn lemma_settle_idempotent(stake_account: NftStakeAccount, reward_rate: u64, now: i64)
    requires
        settled_reward(stake_account, reward_rate, now) <= u64::MAX,
    ensures
        settled(settled(stake_account, reward_rate, now), reward_rate, now) == settled(stake_account, reward_rate, now),
{
    let once = settled(stake_account, reward_rate, now);
    crate::ledger::lemma_pending_nonneg(stake_account.nfts_staked@, reward_rate, stake_account.last_claimed, now);
    lemma_nothing_pending_before(once.nfts_staked@, reward_rate, once.last_claimed, now);
}

/// A claim right after a claim at the same `now` hands out nothing and leaves
/// the account as the first claim left it.
pub proof fn lemma_second_claim_is_zero(stake_account: NftStakeAccount, reward_rate: u64, now: i64)
    ensures
        ({
            let after = NftStakeAccount { claimed_reward: 0, ..settled(stake_account, reward_rate, now) };
            &&& settled_reward(after, reward_rate, now) == 0
            &&& (NftStakeAccount { claimed_reward: 0, ..settled(after, reward_rate, now) }) == after
        }),
{
    lemma_nothing_pending_before(stake_account.nfts_staked@, reward_rate, later(stake_account.last_claimed, now), now);
}

/// The buckets after `k` withdrawals from the bucket of `locking_period`.
pub open spec fn withdrawn_times(tiers: Seq<NftStaked>, locking_period: i64, k: nat) -> Seq<NftStaked>
    decreases k,
{
    if k == 0 {
        tiers
    } else {
        tiers_after_withdraw(withdrawn_times(tiers, locking_period, (k - 1) as nat), locking_period)
    }
}

/// Withdrawing `k` times takes the matching bucket from `c` to `c - k`, and
/// to zero, never below, when there were fewer than `k` deposits; the other
/// buckets stay.
pub proof fn lemma_withdraw_saturates(tiers: Seq<NftStaked>, locking_period: i64, k: nat)
    ensures
        withdrawn_times(tiers, locking_period, k).len() == tiers.len(),
        forall|i: int|
            0 <= i < tiers.len() ==> {
                let after = #[trigger] withdrawn_times(tiers, locking_period, k)[i];
                &&& after.locking_period == tiers[i].locking_period
                &&& after.num_staked == if tiers[i].locking_period != locking_period {
                    tiers[i].num_staked as int
                } else if tiers[i].num_staked >= k {
                    tiers[i].num_staked - k
                } else {
                    0
                }
            },
    decreases k,
{
    if k > 0 {
        lemma_withdraw_saturates(tiers, locking_period, (k - 1) as nat);
    }
}

} // verus!
