use vstd::prelude::*;

use crate::state::{Address, NftItem, VaultAccount, items_distinct};

verus! {

/// The entries after depositing `item`: an entry for the same asset is
/// overwritten in place, else `item` is appended.
pub open spec fn items_after_deposit(items: Seq<NftItem>, item: NftItem) -> Seq<NftItem> {
    if exists|i: int| 0 <= i < items.len() && items[i].nft_mint == item.nft_mint {
        items.map_values(|e: NftItem| if e.nft_mint == item.nft_mint { item } else { e })
    } else {
        items.push(item)
    }
}

/// Whether the lock of an entry has run out at `now`: it had none, or its
/// period has fully elapsed.
pub open spec fn releasable(e: NftItem, now: i64) -> bool {
    e.locking_period == 0 || e.start_staking + e.locking_period < now
}

/// Whether `e` is the entry of `owner` for `nft_mint` and may be released at `now`.
pub open spec fn release_matches(e: NftItem, owner: Address, nft_mint: Address, now: i64) -> bool {
    e.owner == owner && e.nft_mint == nft_mint && releasable(e, now)
}

/// Whether some entry may be released.
pub open spec fn can_release(items: Seq<NftItem>, owner: Address, nft_mint: Address, now: i64) -> bool {
    exists|i: int| 0 <= i < items.len() && release_matches(items[i], owner, nft_mint, now)
}

/// The entries after a withdrawal: the released entry is marked inactive and kept.
pub open spec fn items_after_withdraw(items: Seq<NftItem>, owner: Address, nft_mint: Address, now: i64) -> Seq<NftItem> {
    items.map_values(
        |e: NftItem|
            if release_matches(e, owner, nft_mint, now) {
                NftItem { flag: false, ..e }
            } else {
                e
            },
    )
}

/// The number of entries whose asset is in custody.
pub open spec fn active_count(items: Seq<NftItem>) -> nat
    decreases items.len(),
{
    if items.len() == 0 {
        0
    } else {
        active_count(items.drop_last()) + if items.last().flag {
            1nat
        } else {
            0nat
        }
    }
}

proof fn lemma_active_count_bound(items: Seq<NftItem>)
    ensures
        active_count(items) <= items.len(),
    decreases items.len(),
{
    if items.len() > 0 {
        lemma_active_count_bound(items.drop_last());
    }
}

/// Whether an entry may be released at `now`, computed without overflow.
fn is_releasable(e: &NftItem, now: i64) -> (r: bool)
    ensures
        r == releasable(*e, now),
{
    e.locking_period == 0 || (e.start_staking as i128) + (e.locking_period as i128) < (now as i128)
}

impl VaultAccount {
    /// An empty vault.
    pub fn new(reward_mint: Address, bump: u8) -> (r: VaultAccount)
        ensures
            r.reward_mint == reward_mint,
            r.bump == bump,
            r.nft_items_staked@ == Seq::<NftItem>::empty(),
            r.wf(),
    {
        VaultAccount { reward_mint, bump, nft_items_staked: Vec::new() }
    }

    /// The number of assets in custody: the entries marked active.
    pub fn total_staked(&self) -> (r: usize)
        ensures
            r == active_count(self.nft_items_staked@),
    {
        let mut count: usize = 0;
        let mut i: usize = 0;
        while i < self.nft_items_staked.len()
            invariant
                0 <= i <= self.nft_items_staked@.len(),
                count == active_count(self.nft_items_staked@.take(i as int)),
            decreases self.nft_items_staked@.len() - i,
        {
            proof {
                assert(self.nft_items_staked@.take(i + 1).drop_last() =~= self.nft_items_staked@.take(i as int));
                lemma_active_count_bound(self.nft_items_staked@.take(i as int));
            }
            if self.nft_items_staked[i].flag {
                count = count + 1;
            }
            i = i + 1;
        }
        proof {
            assert(self.nft_items_staked@.take(i as int) =~= self.nft_items_staked@);
        }
        count
    }

    /// Records `item` as deposited: the entry for its asset is overwritten in
    /// place, or a new one is appended.
    pub fn deposit_item(&mut self, item: NftItem)
        requires
            old(self).wf(),
        ensures
            final(self).nft_items_staked@ == items_after_deposit(old(self).nft_items_staked@, item),
            final(self).reward_mint == old(self).reward_mint,
            final(self).bump == old(self).bump,
            final(self).wf(),
    {
        let ghost pre = self.nft_items_staked@;
        let mut found = false;
        let mut i: usize = 0;
        while i < self.nft_items_staked.len()
            invariant
                0 <= i <= self.nft_items_staked@.len(),
                self.nft_items_staked@.len() == pre.len(),
                forall|j: int|
                    0 <= j < i ==> self.nft_items_staked@[j] == (if pre[j].nft_mint == item.nft_mint {
                        item
                    } else {
                        pre[j]
                    }),
                forall|j: int| i <= j < self.nft_items_staked@.len() ==> self.nft_items_staked@[j] == pre[j],
                found == exists|j: int| 0 <= j < i && pre[j].nft_mint == item.nft_mint,
                self.reward_mint == old(self).reward_mint,
                self.bump == old(self).bump,
                items_distinct(pre),
            decreases self.nft_items_staked@.len() - i,
        {
            if self.nft_items_staked[i].nft_mint == item.nft_mint {
                assert(pre[i as int].nft_mint == item.nft_mint);
                self.nft_items_staked[i] = item;
                found = true;
            }
            i = i + 1;
        }
        if !found {
            self.nft_items_staked.push(item);
        }
        assert(self.nft_items_staked@ =~= items_after_deposit(pre, item));
    }

    /// Marks inactive the entry of `owner` for `nft_mint` if its lock has run
    /// out at `now`; says whether one was released.
    pub fn release_item(&mut self, owner: Address, nft_mint: Address, now: i64) -> (r: bool)
        requires
            old(self).wf(),
        ensures
            r == can_release(old(self).nft_items_staked@, owner, nft_mint, now),
            final(self).nft_items_staked@ == items_after_withdraw(old(self).nft_items_staked@, owner, nft_mint, now),
            final(self).reward_mint == old(self).reward_mint,
            final(self).bump == old(self).bump,
            final(self).wf(),
    {
        let ghost pre = self.nft_items_staked@;
        let mut checked = false;
        let mut i: usize = 0;
        while i < self.nft_items_staked.len()
            invariant
                0 <= i <= self.nft_items_staked@.len(),
                self.nft_items_staked@.len() == pre.len(),
                forall|j: int|
                    0 <= j < i ==> self.nft_items_staked@[j] == (if release_matches(pre[j], owner, nft_mint, now) {
                        NftItem { flag: false, ..pre[j] }
                    } else {
                        pre[j]
                    }),
                forall|j: int| i <= j < self.nft_items_staked@.len() ==> self.nft_items_staked@[j] == pre[j],
                checked == exists|j: int| 0 <= j < i && release_matches(pre[j], owner, nft_mint, now),
                self.reward_mint == old(self).reward_mint,
                self.bump == old(self).bump,
                items_distinct(pre),
            decreases self.nft_items_staked@.len() - i,
        {
            let e = self.nft_items_staked[i];
            assert(e == pre[i as int]);
            if e.owner == owner && e.nft_mint == nft_mint && is_releasable(&e, now) {
                self.nft_items_staked[i] = NftItem { flag: false, ..e };
                checked = true;
            }
            i = i + 1;
        }
        assert(self.nft_items_staked@ =~= items_after_withdraw(pre, owner, nft_mint, now));
        checked
    }
}

/// The locking period of the entry that a withdrawal releases.
pub open spec fn released_period(items: Seq<NftItem>, owner: Address, nft_mint: Address, now: i64) -> i64 {
    items[choose|i: int| 0 <= i < items.len() && release_matches(items[i], owner, nft_mint, now)].locking_period
}

/// The locking period of the entry of `owner` for `nft_mint` if it may be
/// released at `now`.
pub fn releasable_period(items: &Vec<NftItem>, owner: Address, nft_mint: Address, now: i64) -> (r: Option<i64>)
    requires
        items_distinct(items@),
    ensures
        r is Some == can_release(items@, owner, nft_mint, now),
        r is Some ==> r->0 == released_period(items@, owner, nft_mint, now),
{
    let mut i: usize = 0;
    while i < items.len()
        invariant
            0 <= i <= items@.len(),
            items_distinct(items@),
            forall|j: int| 0 <= j < i ==> !release_matches(#[trigger] items@[j], owner, nft_mint, now),
        decreases items@.len() - i,
    {
        let e = items[i];
        if e.owner == owner && e.nft_mint == nft_mint && is_releasable(&e, now) {
            proof {
                assert(release_matches(items@[i as int], owner, nft_mint, now));
                let k = choose|k: int| 0 <= k < items@.len() && release_matches(items@[k], owner, nft_mint, now);
                assert(items@[k].nft_mint == items@[i as int].nft_mint);
                assert(k == i);
            }
            return Some(e.locking_period);
        }
        i = i + 1;
    }
    None
}

/// Depositing an asset that has an entry already overwrites that entry in
/// place: nothing is appended and every other entry stays.
pub proof fn lemma_redeposit_in_place(items: Seq<NftItem>, item: NftItem, i: int)
    requires
        items_distinct(items),
        0 <= i < items.len(),
        items[i].nft_mint == item.nft_mint,
    ensures
        items_after_deposit(items, item).len() == items.len(),
        items_after_deposit(items, item)[i] == item,
        forall|j: int| 0 <= j < items.len() && j != i ==> items_after_deposit(items, item)[j] == items[j],
{
}

} // verus!
