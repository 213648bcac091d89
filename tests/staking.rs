use anchor_lang::prelude::Pubkey;
use nft_staking::errors::StakingError;
use nft_staking::rewarder::{check_eligibility, check_metadata, check_metadata_at, update_reward_rate};
use nft_staking::staking::{
    check_balance, claim, initialize_rewarder, initialize_stake_account, initialize_valut, stake_nft,
    unstake_nft,
};
use nft_staking::state::{Address, CreatorStruct, MetadataAccount, NftStakeRewarder, NftStaked};

fn addr(n: u128) -> Address {
    Address { hi: 0, lo: n }
}

fn from_pubkey(p: &Pubkey) -> Address {
    let b = p.to_bytes();
    let mut hi = [0u8; 16];
    let mut lo = [0u8; 16];
    hi.copy_from_slice(&b[..16]);
    lo.copy_from_slice(&b[16..]);
    Address { hi: u128::from_be_bytes(hi), lo: u128::from_be_bytes(lo) }
}

fn to_pubkey(a: &Address) -> Pubkey {
    let mut b = [0u8; 32];
    b[..16].copy_from_slice(&a.hi.to_be_bytes());
    b[16..].copy_from_slice(&a.lo.to_be_bytes());
    Pubkey::new_from_array(b)
}

fn creator(n: u128, share: u8) -> CreatorStruct {
    CreatorStruct { address: addr(n), verified: true, share }
}

fn rewarder_with(whitelist: Vec<Address>, enforce_metadata: bool) -> NftStakeRewarder {
    let mut r = initialize_rewarder(
        addr(1),
        addr(2),
        255,
        2400,
        "Apes".to_string(),
        vec![creator(10, 60), creator(11, 40)],
        addr(3),
        enforce_metadata,
    );
    update_reward_rate(&mut r, addr(1), 2400, whitelist).unwrap();
    r
}

#[test]
fn whitelist_update_skips_duplicates() {
    let mut r = rewarder_with(vec![], false);
    update_reward_rate(&mut r, addr(1), 3000, vec![addr(100), addr(101), addr(100)]).unwrap();
    assert_eq!(r.reward_rate, 3000);
    assert_eq!(r.whitelist_addresses, vec![addr(100), addr(101)]);
    assert_eq!(r.total_whitelist_address, 2);
    update_reward_rate(&mut r, addr(1), 3000, vec![addr(101)]).unwrap();
    assert_eq!(r.whitelist_addresses, vec![addr(100), addr(101)]);
    assert_eq!(r.total_whitelist_address, 2);
    update_reward_rate(&mut r, addr(1), 3000, vec![addr(102), addr(100)]).unwrap();
    assert_eq!(r.whitelist_addresses, vec![addr(100), addr(101), addr(102)]);
    assert_eq!(r.total_whitelist_address, 3);
}

#[test]
fn whitelist_update_needs_authority() {
    let mut r = rewarder_with(vec![addr(100)], false);
    let res = update_reward_rate(&mut r, addr(9), 1, vec![addr(200)]);
    assert_eq!(res, Err(StakingError::InvalidRewarderAuthority));
    assert_eq!(r.reward_rate, 2400);
    assert_eq!(r.whitelist_addresses, vec![addr(100)]);
    assert_eq!(r.total_whitelist_address, 1);
}

#[test]
fn deposit_settles_and_counts_tiers() {
    let r = rewarder_with(vec![addr(100), addr(101)], false);
    let mut s = initialize_stake_account(addr(5), addr(50), 1);
    let mut v = initialize_valut(addr(2), 1);
    stake_nft(&r, &mut s, &mut v, addr(5), addr(100), 7, 0, &None).unwrap();
    assert_eq!(s.nfts_staked, vec![NftStaked { locking_period: 7, num_staked: 1 }]);
    assert_eq!(s.last_claimed, 0);
    assert_eq!(s.claimed_reward, 0);
    stake_nft(&r, &mut s, &mut v, addr(5), addr(101), 7, 3600, &None).unwrap();
    assert_eq!(s.claimed_reward, 125);
    assert_eq!(s.last_claimed, 3600);
    assert_eq!(s.nfts_staked, vec![NftStaked { locking_period: 7, num_staked: 2 }]);
    assert_eq!(v.nft_items_staked.len(), 2);
    assert_eq!(v.total_staked(), 2);
}

#[test]
fn deposit_needs_whitelist() {
    let r = rewarder_with(vec![addr(100)], false);
    let mut s = initialize_stake_account(addr(5), addr(50), 1);
    let mut v = initialize_valut(addr(2), 1);
    let res = stake_nft(&r, &mut s, &mut v, addr(5), addr(999), 0, 10, &None);
    assert_eq!(res, Err(StakingError::NFTWhitelisted));
    assert!(s.nfts_staked.is_empty());
    assert!(v.nft_items_staked.is_empty());
    assert_eq!(s.last_claimed, 0);
}

#[test]
fn redeposit_updates_entry_in_place() {
    let r = rewarder_with(vec![addr(100)], false);
    let mut s = initialize_stake_account(addr(5), addr(50), 1);
    let mut v = initialize_valut(addr(2), 1);
    stake_nft(&r, &mut s, &mut v, addr(5), addr(100), 0, 10, &None).unwrap();
    stake_nft(&r, &mut s, &mut v, addr(5), addr(100), 30, 20, &None).unwrap();
    assert_eq!(v.nft_items_staked.len(), 1);
    let e = v.nft_items_staked[0];
    assert_eq!(e.locking_period, 30);
    assert_eq!(e.start_staking, 20);
    assert!(e.flag);
    // the custody count is the number of active entries, not the number of deposits
    assert_eq!(v.total_staked(), 1);
}

#[test]
fn withdraw_is_locked_until_period_elapsed() {
    let r = rewarder_with(vec![addr(100)], false);
    let mut s = initialize_stake_account(addr(5), addr(50), 1);
    let mut v = initialize_valut(addr(2), 1);
    stake_nft(&r, &mut s, &mut v, addr(5), addr(100), 100, 1000, &None).unwrap();
    let res = unstake_nft(&r, &mut s, &mut v, addr(5), addr(100), 1100);
    assert_eq!(res, Err(StakingError::NFTAUnlocked));
    assert!(v.nft_items_staked[0].flag);
    assert_eq!(s.last_claimed, 1000);
    unstake_nft(&r, &mut s, &mut v, addr(5), addr(100), 1101).unwrap();
    assert!(!v.nft_items_staked[0].flag);
    assert_eq!(v.total_staked(), 0);
    assert_eq!(s.nfts_staked, vec![NftStaked { locking_period: 100, num_staked: 0 }]);
    assert_eq!(s.last_claimed, 1101);
}

#[test]
fn withdraw_of_another_owner_is_refused() {
    let r = rewarder_with(vec![addr(100)], false);
    let mut s = initialize_stake_account(addr(5), addr(50), 1);
    let mut v = initialize_valut(addr(2), 1);
    stake_nft(&r, &mut s, &mut v, addr(5), addr(100), 0, 1000, &None).unwrap();
    let res = unstake_nft(&r, &mut s, &mut v, addr(6), addr(100), 2000);
    assert_eq!(res, Err(StakingError::NFTAUnlocked));
}

#[test]
fn withdraw_never_goes_below_zero() {
    let r = rewarder_with(vec![addr(100)], false);
    let mut s = initialize_stake_account(addr(5), addr(50), 1);
    let mut v = initialize_valut(addr(2), 1);
    stake_nft(&r, &mut s, &mut v, addr(5), addr(100), 0, 10, &None).unwrap();
    unstake_nft(&r, &mut s, &mut v, addr(5), addr(100), 20).unwrap();
    unstake_nft(&r, &mut s, &mut v, addr(5), addr(100), 30).unwrap();
    unstake_nft(&r, &mut s, &mut v, addr(5), addr(100), 40).unwrap();
    assert_eq!(s.nfts_staked, vec![NftStaked { locking_period: 0, num_staked: 0 }]);
}

#[test]
fn settling_twice_at_same_time_adds_once() {
    let r = rewarder_with(vec![addr(100)], false);
    let mut s = initialize_stake_account(addr(5), addr(50), 1);
    let mut v = initialize_valut(addr(2), 1);
    stake_nft(&r, &mut s, &mut v, addr(5), addr(100), 0, 0, &None).unwrap();
    check_balance(&r, &mut s, 3600).unwrap();
    assert_eq!(s.claimed_reward, 100);
    check_balance(&r, &mut s, 3600).unwrap();
    assert_eq!(s.claimed_reward, 100);
    assert_eq!(s.last_claimed, 3600);
}

#[test]
fn settlement_never_moves_time_back() {
    let r = rewarder_with(vec![addr(100)], false);
    let mut s = initialize_stake_account(addr(5), addr(50), 1);
    let mut v = initialize_valut(addr(2), 1);
    stake_nft(&r, &mut s, &mut v, addr(5), addr(100), 0, 3600, &None).unwrap();
    check_balance(&r, &mut s, 100).unwrap();
    assert_eq!(s.last_claimed, 3600);
    assert_eq!(s.claimed_reward, 0);
}

#[test]
fn claim_twice_pays_once() {
    let r = rewarder_with(vec![addr(100)], false);
    let mut s = initialize_stake_account(addr(5), addr(50), 1);
    let mut v = initialize_valut(addr(2), 1);
    stake_nft(&r, &mut s, &mut v, addr(5), addr(100), 0, 0, &None).unwrap();
    assert_eq!(claim(&r, &mut s, 7200), Ok(200));
    assert_eq!(s.claimed_reward, 0);
    assert_eq!(claim(&r, &mut s, 7200), Ok(0));
    assert_eq!(s.last_claimed, 7200);
}

#[test]
fn settlement_overflow_changes_nothing() {
    let mut r = rewarder_with(vec![addr(100)], false);
    r.reward_rate = u64::MAX;
    let mut s = initialize_stake_account(addr(5), addr(50), 1);
    let mut v = initialize_valut(addr(2), 1);
    stake_nft(&r, &mut s, &mut v, addr(5), addr(100), 90, 0, &None).unwrap();
    assert_eq!(claim(&r, &mut s, 86400), Err(StakingError::ArithmeticOverflow));
    assert_eq!(s.last_claimed, 0);
    assert_eq!(s.claimed_reward, 0);
}

#[test]
fn full_tier_is_refused() {
    let r = rewarder_with(vec![addr(100)], false);
    let mut s = initialize_stake_account(addr(5), addr(50), 1);
    s.nfts_staked.push(NftStaked { locking_period: 0, num_staked: u16::MAX });
    let mut v = initialize_valut(addr(2), 1);
    let res = stake_nft(&r, &mut s, &mut v, addr(5), addr(100), 0, 0, &None);
    assert_eq!(res, Err(StakingError::ArithmeticOverflow));
    assert!(v.nft_items_staked.is_empty());
}

fn record(key: Address, name: &str, creators: Option<Vec<CreatorStruct>>) -> MetadataAccount {
    MetadataAccount { key, update_authority: addr(3), name: name.to_string(), creators }
}

#[test]
fn provenance_checks() {
    let r = rewarder_with(vec![addr(100)], true);
    let k = addr(77);
    let good = record(k, "Apes #1", Some(vec![creator(11, 40), creator(10, 60)]));
    assert_eq!(check_metadata_at(&good, &Some(k), &r), Ok(()));
    assert_eq!(check_metadata_at(&good, &Some(addr(78)), &r), Err(StakingError::InvalidMetadataAccountAddress));
    assert_eq!(check_metadata_at(&good, &None, &r), Err(StakingError::InvalidMetadataAccountAddress));
    let mut wrong_authority = good.clone();
    wrong_authority.update_authority = addr(4);
    assert_eq!(check_metadata_at(&wrong_authority, &Some(k), &r), Err(StakingError::InvalidMetadataUpdateAuthority));
    let wrong_name = record(k, "Ape #1", Some(vec![creator(10, 60), creator(11, 40)]));
    assert_eq!(check_metadata_at(&wrong_name, &Some(k), &r), Err(StakingError::InvalidMetadataCollectionPrefix));
    let exact_name = record(k, "Apes", Some(vec![creator(10, 60), creator(11, 40)]));
    assert_eq!(check_metadata_at(&exact_name, &Some(k), &r), Ok(()));
    let no_creators = record(k, "Apes #1", None);
    assert_eq!(check_metadata_at(&no_creators, &Some(k), &r), Err(StakingError::InvalidMetadataCreators));
    let too_few = record(k, "Apes #1", Some(vec![creator(10, 60)]));
    assert_eq!(check_metadata_at(&too_few, &Some(k), &r), Err(StakingError::InvalidMetadataCreators));
    let other_share = record(k, "Apes #1", Some(vec![creator(10, 60), creator(11, 41)]));
    assert_eq!(check_metadata_at(&other_share, &Some(k), &r), Err(StakingError::InvalidMetadataCreators));
}

#[test]
fn creators_must_match_as_a_multiset() {
    let r = rewarder_with(vec![addr(100)], true);
    let k = addr(77);
    let repeated = record(k, "Apes #1", Some(vec![creator(10, 60), creator(10, 60)]));
    assert_eq!(check_metadata_at(&repeated, &Some(k), &r), Err(StakingError::InvalidMetadataCreators));
    let extra = record(k, "Apes #1", Some(vec![creator(10, 60), creator(11, 40), creator(12, 0)]));
    assert_eq!(check_metadata_at(&extra, &Some(k), &r), Err(StakingError::InvalidMetadataCreators));
    let swapped = record(k, "Apes #1", Some(vec![creator(11, 40), creator(10, 60)]));
    assert_eq!(check_metadata_at(&swapped, &Some(k), &r), Ok(()));
}

#[test]
fn withdraw_decrements_the_entry_bucket() {
    let r = rewarder_with(vec![addr(100), addr(101)], false);
    let mut s = initialize_stake_account(addr(5), addr(50), 1);
    let mut v = initialize_valut(addr(2), 1);
    stake_nft(&r, &mut s, &mut v, addr(5), addr(100), 0, 10, &None).unwrap();
    stake_nft(&r, &mut s, &mut v, addr(5), addr(101), 50, 10, &None).unwrap();
    unstake_nft(&r, &mut s, &mut v, addr(5), addr(101), 100).unwrap();
    assert_eq!(
        s.nfts_staked,
        vec![NftStaked { locking_period: 0, num_staked: 1 }, NftStaked { locking_period: 50, num_staked: 0 }]
    );
}

#[test]
fn provenance_address_is_derived_from_mint() {
    let r = rewarder_with(vec![addr(100)], true);
    let mint = addr(100);
    let program = metaplex_token_metadata::id();
    let (pda, _) = Pubkey::find_program_address(
        &[b"metadata", &program.to_bytes(), &to_pubkey(&mint).to_bytes()],
        &program,
    );
    let good = record(from_pubkey(&pda), "Apes #1", Some(vec![creator(10, 60), creator(11, 40)]));
    assert_eq!(check_metadata(&good, &mint, &r), Ok(()));
    let at_mint = record(mint, "Apes #1", Some(vec![creator(10, 60), creator(11, 40)]));
    assert_eq!(check_metadata(&at_mint, &mint, &r), Err(StakingError::InvalidMetadataAccountAddress));
    assert_eq!(check_eligibility(&r, &mint, &Some(good.clone())), Ok(()));
    assert_eq!(check_eligibility(&r, &mint, &None), Err(StakingError::MetadataAccountNotFound));
    assert_eq!(check_eligibility(&r, &addr(5), &Some(good)), Err(StakingError::InvalidMetadataAccountAddress));
}

#[test]
fn whitelist_is_required_even_without_provenance() {
    let r = rewarder_with(vec![], false);
    assert_eq!(check_eligibility(&r, &addr(100), &None), Err(StakingError::NFTWhitelisted));
}

#[test]
fn rewarder_record_length() {
    assert_eq!(NftStakeRewarder::calculate_len(0, ""), 111);
    assert_eq!(NftStakeRewarder::calculate_len(2, "Apes"), 111 + 68 + 96);
}

#[test]
fn error_messages() {
    assert_eq!(StakingError::NFTAUnlocked.message(), "This NFT is locked");
    assert_eq!(StakingError::NFTWhitelisted.message(), "NFT is not whitelist");
}

#[test]
fn locking_period_counts_seconds_for_release() {
    let r = rewarder_with(vec![addr(100), addr(101)], false);
    let mut s = initialize_stake_account(addr(5), addr(50), 1);
    let mut v = initialize_valut(addr(2), 1);
    stake_nft(&r, &mut s, &mut v, addr(5), addr(100), 7, 0, &None).unwrap();
    stake_nft(&r, &mut s, &mut v, addr(5), addr(101), 7 * 86400, 0, &None).unwrap();
    let week = 7 * 86400;
    assert_eq!(unstake_nft(&r, &mut s, &mut v, addr(5), addr(100), 7), Err(StakingError::NFTAUnlocked));
    unstake_nft(&r, &mut s, &mut v, addr(5), addr(100), 8).unwrap();
    assert_eq!(unstake_nft(&r, &mut s, &mut v, addr(5), addr(101), week), Err(StakingError::NFTAUnlocked));
    unstake_nft(&r, &mut s, &mut v, addr(5), addr(101), week + 1).unwrap();
    assert_eq!(v.total_staked(), 0);
}

#[test]
fn every_error_has_its_message() {
    assert_eq!(StakingError::InvalidRewarderAuthority.message(), "The provided authority is not valid for the rewarder");
    assert_eq!(
        StakingError::InvalidMetadataCreators.message(),
        "The Metaplex Metadata account did not have the expected creators"
    );
    assert_eq!(StakingError::ArithmeticOverflow.message(), "A reward balance or a stake count overflowed");
}
