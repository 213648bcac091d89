use vstd::prelude::*;

verus! {

/// A 32-byte account identity, held as its big-endian upper and lower halves.
#[derive(Debug, Clone, Copy, PartialEq, Eq, Structural)]
pub struct Address {
    pub hi: u128,
    pub lo: u128,
}

/// A creator that staked assets must list.
#[derive(Debug, Clone, Copy, PartialEq, Eq, Structural)]
pub struct CreatorStruct {
    pub address: Address,
    pub verified: bool,
    pub share: u8,
}

/// Reward policy and eligibility rules of one collection.
#[derive(Debug, Clone)]
pub struct NftStakeRewarder {
    pub authority: Address,
    pub reward_mint: Address,
    pub reward_authority_bump: u8,
    /// reward units per staked asset per day
    pub reward_rate: u64,
    /// the update authority required in assets being staked
    pub allowed_update_authority: Address,
    /// the creators required for the assets being staked
    pub creators: Vec<CreatorStruct>,
    /// the collection name that the names of staked assets begin with
    pub collection: String,
    /// whether provenance is checked against the rewarder's settings
    pub enforce_metadata: bool,
    pub total_staked: u32,
    pub bump: u8,
    /// assets permitted to stake, without duplicates
    pub whitelist_addresses: Vec<Address>,
    /// the number of whitelisted assets
    pub total_whitelist_address: u64,
}

/// One lock tier of a stake account: how many assets are staked with it.
#[derive(Debug, Clone, Copy, PartialEq, Eq, Structural)]
pub struct NftStaked {
    pub locking_period: i64,
    pub num_staked: u16,
}

/// The accrual ledger of one owner with one rewarder.
#[derive(Debug, Clone)]
pub struct NftStakeAccount {
    pub owner: Address,
    pub rewarder: Address,
    /// tier buckets, at most one per locking period
    pub nfts_staked: Vec<NftStaked>,
    pub bump: u8,
    pub last_claimed: i64,
    pub claimed_reward: u64,
}

/// One custody entry of a vault: an asset, who staked it, and its lock.
#[derive(Debug, Clone, Copy, PartialEq, Eq, Structural)]
pub struct NftItem {
    pub owner: Address,
    pub locking_period: i64,
    pub start_staking: i64,
    pub nft_mint: Address,
    /// whether the asset is in custody now
    pub flag: bool,
}

/// The custody record of one owner: every asset ever deposited, one entry each.
#[derive(Debug, Clone)]
pub struct VaultAccount {
    pub reward_mint: Address,
    pub bump: u8,
    pub nft_items_staked: Vec<NftItem>,
}

/// The provenance record of an asset as the metadata registry holds it.
#[derive(Debug, Clone)]
pub struct MetadataAccount {
    /// the address the record was read from
    pub key: Address,
    pub update_authority: Address,
    pub name: String,
    pub creators: Option<Vec<CreatorStruct>>,
}

/// No two whitelist entries are equal.
pub open spec fn addresses_distinct(s: Seq<Address>) -> bool {
    forall|i: int, j: int| 0 <= i < j < s.len() ==> s[i] != s[j]
}

/// No two tier buckets share a locking period.
pub open spec fn tiers_distinct(s: Seq<NftStaked>) -> bool {
    forall|i: int, j: int| 0 <= i < j < s.len() ==> s[i].locking_period != s[j].locking_period
}

/// No two vault entries are for the same asset.
pub open spec fn items_distinct(s: Seq<NftItem>) -> bool {
    forall|i: int, j: int| 0 <= i < j < s.len() ==> s[i].nft_mint != s[j].nft_mint
}

impl NftStakeRewarder {
    /// The whitelist holds no duplicates and its counter is its length.
    pub open spec fn wf(&self) -> bool {
        &&& addresses_distinct(self.whitelist_addresses@)
        &&& self.total_whitelist_address == self.whitelist_addresses@.len()
    }
}

impl NftStakeAccount {
    pub open spec fn wf(&self) -> bool {
        tiers_distinct(self.nfts_staked@)
    }
}

impl VaultAccount {
    pub open spec fn wf(&self) -> bool {
        items_distinct(self.nft_items_staked@)
    }
}

impl NftStakeRewarder {
    /// Whether the record keeps its invariant: a duplicate-free whitelist
    /// whose counter is its length.
    pub fn is_well_formed(&self) -> (r: bool)
        ensures
            r == self.wf(),
    {
        (self.whitelist_addresses.len() as u64) == self.total_whitelist_address
            && distinct_addresses(&self.whitelist_addresses)
    }
}

impl NftStakeAccount {
    /// Whether no two tier buckets share a locking period.
    pub fn is_well_formed(&self) -> (r: bool)
        ensures
            r == self.wf(),
    {
        distinct_tiers(&self.nfts_staked)
    }
}

impl VaultAccount {
    /// Whether no two entries are for the same asset.
    pub fn is_well_formed(&self) -> (r: bool)
        ensures
            r == self.wf(),
    {
        distinct_items(&self.nft_items_staked)
    }
}

/// Whether no two of `addresses` are equal.
fn distinct_addresses(addresses: &Vec<Address>) -> (r: bool)
    ensures
        r == addresses_distinct(addresses@),
{
    let n = addresses.len();
    let mut i: usize = 0;
    while i < n
        invariant
            n == addresses@.len(),
            0 <= i <= n,
            forall|a: int, b: int| 0 <= a < b < n && a < i ==> addresses@[a] != addresses@[b],
        decreases n - i,
    {
        let mut j: usize = i + 1;
        while j < n
            invariant
                n == addresses@.len(),
                0 <= i < n,
                i < j <= n,
                forall|a: int, b: int| 0 <= a < b < n && a < i ==> addresses@[a] != addresses@[b],
                forall|b: int| i < b < j ==> addresses@[i as int] != addresses@[b],
            decreases n - j,
        {
            if addresses[i] == addresses[j] {
                return false;
            }
            j = j + 1;
        }
        i = i + 1;
    }
    true
}

/// Whether no two buckets share a locking period.
fn distinct_tiers(tiers: &Vec<NftStaked>) -> (r: bool)
    ensures
        r == tiers_distinct(tiers@),
{
    let n = tiers.len();
    let mut i: usize = 0;
    while i < n
        invariant
            n == tiers@.len(),
            0 <= i <= n,
            forall|a: int, b: int| 0 <= a < b < n && a < i ==> tiers@[a].locking_period != tiers@[b].locking_period,
        decreases n - i,
    {
        let mut j: usize = i + 1;
        while j < n
            invariant
                n == tiers@.len(),
                0 <= i < n,
                i < j <= n,
                forall|a: int, b: int| 0 <= a < b < n && a < i ==> tiers@[a].locking_period != tiers@[b].locking_period,
                forall|b: int| i < b < j ==> tiers@[i as int].locking_period != tiers@[b].locking_period,
            decreases n - j,
        {
            if tiers[i].locking_period == tiers[j].locking_period {
                return false;
            }
            j = j + 1;
        }
        i = i + 1;
    }
    true
}

/// Whether no two entries are for the same asset.
fn distinct_items(items: &Vec<NftItem>) -> (r: bool)
    ensures
        r == items_distinct(items@),
{
    let n = items.len();
    let mut i: usize = 0;
    while i < n
        invariant
            n == items@.len(),
            0 <= i <= n,
            forall|a: int, b: int| 0 <= a < b < n && a < i ==> items@[a].nft_mint != items@[b].nft_mint,
        decreases n - i,
    {
        let mut j: usize = i + 1;
        while j < n
            invariant
                n == items@.len(),
                0 <= i < n,
                i < j <= n,
                forall|a: int, b: int| 0 <= a < b < n && a < i ==> items@[a].nft_mint != items@[b].nft_mint,
                forall|b: int| i < b < j ==> items@[i as int].nft_mint != items@[b].nft_mint,
            decreases n - j,
        {
            if items[i].nft_mint == items[j].nft_mint {
                return false;
            }
            j = j + 1;
        }
        i = i + 1;
    }
    true
}

} // verus!
