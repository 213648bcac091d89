use vstd::prelude::*;

use anchor_lang::prelude::Pubkey;

use vstd::multiset::Multiset;
use vstd::seq_lib::lemma_multiset_commutative;
use vstd::std_specs::iter::IteratorSpec;
use vstd::string::StringSliceAdditionalSpecFns;

use crate::errors::StakingError;
use crate::state::{Address, CreatorStruct, MetadataAccount, NftStakeRewarder};

verus! {

broadcast use
    vstd::seq_lib::group_to_multiset_ensures,
    vstd::multiset::group_multiset_axioms,
    vstd::string::axiom_spec_iter,
    vstd::string::next_postcondition,
;

/// The address of an asset's provenance record in the metadata registry, as
/// derived from its mint; `None` where no address can be derived.
pub uninterp spec fn metadata_address_of(mint: Address) -> Option<Address>;

/// Relies on solana_program's `Pubkey::try_find_program_address`: the record
/// address derived from the registry's seed prefix, its program id and the
/// mint, which depends on those bytes alone.
#[verifier::external_body]
fn metadata_address(mint: &Address) -> (r: Option<Address>)
    ensures
        r == metadata_address_of(*mint),
{
    let key = [mint.hi.to_be_bytes(), mint.lo.to_be_bytes()].concat();
    let program = metaplex_token_metadata::id();
    let prefix = metaplex_token_metadata::state::PREFIX.as_bytes();
    let (pda, _) = Pubkey::try_find_program_address(&[prefix, &program.to_bytes(), key.as_slice()], &program)?;
    let (b, mut hi, mut lo) = (pda.to_bytes(), [0u8; 16], [0u8; 16]);
    hi.copy_from_slice(&b[..16]);
    lo.copy_from_slice(&b[16..]);
    Some(Address { hi: u128::from_be_bytes(hi), lo: u128::from_be_bytes(lo) })
}

/// Whether `name` begins with `collection`.
pub open spec fn has_prefix(name: Seq<char>, collection: Seq<char>) -> bool {
    collection.len() <= name.len() && name.subrange(0, collection.len() as int) == collection
}

/// Whether `prefix` begins `s`, compared character by character.
fn str_starts_with(s: &str, prefix: &str) -> (r: bool)
    ensures
        r == has_prefix(s@, prefix@),
{
    let mut sc = s.chars();
    let mut pc = prefix.chars();
    let ghost mut i: int = 0;
    loop
        invariant
            sc.remaining() == s@.skip(i),
            pc.remaining() == prefix@.skip(i),
            0 <= i <= s@.len(),
            i <= prefix@.len(),
            forall|j: int| 0 <= j < i ==> s@[j] == prefix@[j],
        decreases prefix@.len() - i,
    {
        match pc.next() {
            None => {
                proof {
                    assert(prefix@.len() == i);
                    assert(s@.subrange(0, prefix@.len() as int) =~= prefix@);
                }
                return true;
            },
            Some(c) => {
                assert(c == prefix@[i]);
                match sc.next() {
                    None => {
                        assert(s@.len() == i);
                        return false;
                    },
                    Some(d) => {
                        assert(d == s@[i]);
                        if c != d {
                            proof {
                                if has_prefix(s@, prefix@) {
                                    assert(s@.subrange(0, prefix@.len() as int)[i] == s@[i]);
                                }
                            }
                            return false;
                        }
                        proof {
                            assert(s@.skip(i).drop_first() =~= s@.skip(i + 1));
                            assert(prefix@.skip(i).drop_first() =~= prefix@.skip(i + 1));
                            i = i + 1;
                        }
                    },
                }
            },
        }
    }
}

/// The asset's creators are the required ones, in any order: each creator is
/// listed as often as it is required.
pub open spec fn creators_match(creators: Seq<CreatorStruct>, required: Seq<CreatorStruct>) -> bool {
    creators.to_multiset() == required.to_multiset()
}

/// The outcome of checking a provenance record against a rewarder, where the
/// record should have been read from `expected`.
pub open spec fn metadata_verdict(
    metadata: MetadataAccount,
    expected: Option<Address>,
    rewarder: NftStakeRewarder,
) -> Result<(), StakingError> {
    if expected != Some(metadata.key) {
        Err(StakingError::InvalidMetadataAccountAddress)
    } else if metadata.update_authority != rewarder.allowed_update_authority {
        Err(StakingError::InvalidMetadataUpdateAuthority)
    } else if !has_prefix(metadata.name@, rewarder.collection@) {
        Err(StakingError::InvalidMetadataCollectionPrefix)
    } else {
        match metadata.creators {
            Some(c) => if creators_match(c@, rewarder.creators@) {
                Ok(())
            } else {
                Err(StakingError::InvalidMetadataCreators)
            },
            None => Err(StakingError::InvalidMetadataCreators),
        }
    }
}

/// Whether a deposit of `nft_mint` is permitted: provenance first where the
/// rewarder enforces it, then whitelist membership.
pub open spec fn eligibility(
    rewarder: NftStakeRewarder,
    nft_mint: Address,
    metadata: Option<MetadataAccount>,
) -> Result<(), StakingError> {
    let provenance = if rewarder.enforce_metadata {
        match metadata {
            Some(md) => metadata_verdict(md, metadata_address_of(nft_mint), rewarder),
            None => Err(StakingError::MetadataAccountNotFound),
        }
    } else {
        Ok(())
    };
    match provenance {
        Err(e) => Err(e),
        Ok(()) => if rewarder.whitelist_addresses@.contains(nft_mint) {
            Ok(())
        } else {
            Err(StakingError::NFTWhitelisted)
        },
    }
}

/// The whitelist after merging `additions` in order, skipping addresses
/// already present.
pub open spec fn whitelist_merge(whitelist: Seq<Address>, additions: Seq<Address>) -> Seq<Address>
    decreases additions.len(),
{
    if additions.len() == 0 {
        whitelist
    } else {
        let merged = whitelist_merge(whitelist, additions.drop_last());
        if merged.contains(additions.last()) {
            merged
        } else {
            merged.push(additions.last())
        }
    }
}

/// Whether `addresses` holds `a`.
fn contains_address(addresses: &Vec<Address>, a: &Address) -> (r: bool)
    ensures
        r == addresses@.contains(*a),
{
    let mut i: usize = 0;
    while i < addresses.len()
        invariant
            0 <= i <= addresses@.len(),
            forall|j: int| 0 <= j < i ==> addresses@[j] != *a,
        decreases addresses@.len() - i,
    {
        if addresses[i] == *a {
            return true;
        }
        i = i + 1;
    }
    false
}

/// Where `c` stands in `creators`, if anywhere.
fn position_of_creator(creators: &Vec<CreatorStruct>, c: &CreatorStruct) -> (r: Option<usize>)
    ensures
        match r {
            Some(j) => j < creators@.len() && creators@[j as int] == *c,
            None => !creators@.contains(*c),
        },
{
    let mut i: usize = 0;
    while i < creators.len()
        invariant
            0 <= i <= creators@.len(),
            forall|j: int| 0 <= j < i ==> creators@[j] != *c,
        decreases creators@.len() - i,
    {
        if creators[i] == *c {
            return Some(i);
        }
        i = i + 1;
    }
    None
}

/// Whether `creators` are the `required` ones, in any order, each as often.
fn same_creators(creators: &Vec<CreatorStruct>, required: &Vec<CreatorStruct>) -> (r: bool)
    ensures
        r == creators_match(creators@, required@),
{
    if creators.len() != required.len() {
        proof {
            assert(creators@.to_multiset().len() == creators@.len());
            assert(required@.to_multiset().len() == required@.len());
        }
        return false;
    }
    let mut remaining: Vec<CreatorStruct> = Vec::new();
    let mut k: usize = 0;
    while k < required.len()
        invariant
            0 <= k <= required@.len(),
            remaining@ == required@.take(k as int),
        decreases required@.len() - k,
    {
        remaining.push(required[k]);
        proof {
            assert(required@.take(k + 1) =~= required@.take(k as int).push(required@[k as int]));
        }
        k = k + 1;
    }
    proof {
        assert(required@.take(required@.len() as int) =~= required@);
        assert(creators@.take(0) =~= Seq::<CreatorStruct>::empty());
        assert(creators@.take(0).to_multiset() =~= Multiset::<CreatorStruct>::empty());
        assert(creators@.take(0).to_multiset().add(remaining@.to_multiset()) =~= required@.to_multiset());
    }
    let n = creators.len();
    let mut i: usize = 0;
    while i < n
        invariant
            n == creators@.len(),
            0 <= i <= n,
            creators@.take(i as int).to_multiset().add(remaining@.to_multiset()) =~= required@.to_multiset(),
        decreases n - i,
    {
        let c = creators[i];
        proof {
            assert(creators@.take(i + 1) =~= creators@.take(i as int).push(c));
        }
        match position_of_creator(&remaining, &c) {
            None => {
                proof {
                    let head = creators@.take(i + 1);
                    let tail = creators@.skip(i + 1);
                    assert(creators@ =~= head + tail);
                    lemma_multiset_commutative(head, tail);
                    assert(remaining@.to_multiset().count(c) == 0);
                    assert(creators@.to_multiset().count(c) >= head.to_multiset().count(c));
                    assert(head.to_multiset().count(c) == creators@.take(i as int).to_multiset().count(c) + 1);
                    assert(required@.to_multiset().count(c) == creators@.take(i as int).to_multiset().count(c));
                }
                return false;
            },
            Some(j) => {
                let ghost before = remaining@;
                remaining.remove(j);
                proof {
                    assert(remaining@ == before.remove(j as int));
                    assert(remaining@.to_multiset() =~= before.to_multiset().remove(c));
                    assert(before.to_multiset().count(c) > 0);
                    assert(creators@.take(i + 1).to_multiset() =~= creators@.take(i as int).to_multiset().insert(c));
                    assert(creators@.take(i + 1).to_multiset().add(remaining@.to_multiset()) =~= required@.to_multiset());
                }
            },
        }
        i = i + 1;
    }
    proof {
        assert(creators@.take(n as int) =~= creators@);
        assert(creators@.to_multiset().len() == n);
        assert(required@.to_multiset().len() == n);
        assert(remaining@.to_multiset().len() == 0);
        assert(remaining@.to_multiset() =~= Multiset::<CreatorStruct>::empty());
        assert(creators@.to_multiset() =~= required@.to_multiset());
    }
    true
}

/// Checks a provenance record against the rewarder, where the record should
/// have been read from `expected_address`.
pub fn check_metadata_at(
    metadata: &MetadataAccount,
    expected_address: &Option<Address>,
    rewarder: &NftStakeRewarder,
) -> (r: Result<(), StakingError>)
    ensures
        r == metadata_verdict(*metadata, *expected_address, *rewarder),
{
    match expected_address {
        Some(a) => {
            if *a != metadata.key {
                return Err(StakingError::InvalidMetadataAccountAddress);
            }
        },
        None => {
            return Err(StakingError::InvalidMetadataAccountAddress);
        },
    }
    if metadata.update_authority != rewarder.allowed_update_authority {
        return Err(StakingError::InvalidMetadataUpdateAuthority);
    }
    if !str_starts_with(metadata.name.as_str(), rewarder.collection.as_str()) {
        return Err(StakingError::InvalidMetadataCollectionPrefix);
    }
    match &metadata.creators {
        Some(creators) => {
            if same_creators(creators, &rewarder.creators) {
                Ok(())
            } else {
                Err(StakingError::InvalidMetadataCreators)
            }
        },
        None => Err(StakingError::InvalidMetadataCreators),
    }
}

/// Checks the provenance record of the asset `nft_mint_key` against the rewarder.
pub fn check_metadata(
    metadata: &MetadataAccount,
    nft_mint_key: &Address,
    rewarder: &NftStakeRewarder,
) -> (r: Result<(), StakingError>)
    ensures
        r == metadata_verdict(*metadata, metadata_address_of(*nft_mint_key), *rewarder),
{
    let expected = metadata_address(nft_mint_key);
    check_metadata_at(metadata, &expected, rewarder)
}

/// Whether `nft_mint` may be deposited with this rewarder.
pub fn check_eligibility(
    rewarder: &NftStakeRewarder,
    nft_mint: &Address,
    metadata: &Option<MetadataAccount>,
) -> (r: Result<(), StakingError>)
    ensures
        r == eligibility(*rewarder, *nft_mint, *metadata),
{
    if rewarder.enforce_metadata {
        match metadata {
            Some(md) => {
                let verdict = check_metadata(md, nft_mint, rewarder);
                if verdict.is_err() {
                    return verdict;
                }
            },
            None => {
                return Err(StakingError::MetadataAccountNotFound);
            },
        }
    }
    if contains_address(&rewarder.whitelist_addresses, nft_mint) {
        Ok(())
    } else {
        Err(StakingError::NFTWhitelisted)
    }
}

/// Merging addresses that are all whitelisted already changes nothing: no
/// entry is added, so the counter, which is the whitelist's length, stays.
pub proof fn lemma_merge_known_addresses(whitelist: Seq<Address>, additions: Seq<Address>)
    requires
        forall|i: int| 0 <= i < additions.len() ==> whitelist.contains(#[trigger] additions[i]),
    ensures
        whitelist_merge(whitelist, additions) == whitelist,
    decreases additions.len(),
{
    if additions.len() > 0 {
        let rest = additions.drop_last();
        assert forall|i: int| 0 <= i < rest.len() implies whitelist.contains(#[trigger] rest[i]) by {
            assert(rest[i] == additions[i]);
        }
        lemma_merge_known_addresses(whitelist, rest);
        assert(whitelist.contains(additions[additions.len() - 1]));
    }
}

/// Every address merged in is whitelisted afterwards, and every address whitelisted before stays.
pub proof fn lemma_merge_covers(whitelist: Seq<Address>, additions: Seq<Address>, a: Address)
    ensures
        whitelist_merge(whitelist, additions).contains(a) <==> (whitelist.contains(a) || additions.contains(a)),
    decreases additions.len(),
{
    if additions.len() > 0 {
        let rest = additions.drop_last();
        lemma_merge_covers(whitelist, rest, a);
        let merged = whitelist_merge(whitelist, rest);
        if additions.contains(a) && !rest.contains(a) {
            let k = choose|k: int| 0 <= k < additions.len() && additions[k] == a;
            if k < rest.len() {
                assert(rest[k] == a);
            }
        }
        if rest.contains(a) {
            let k = choose|k: int| 0 <= k < rest.len() && rest[k] == a;
            assert(additions[k] == a);
        }
        if merged.contains(a) && !merged.contains(additions.last()) {
            let k = choose|k: int| 0 <= k < merged.len() && merged[k] == a;
            assert(merged.push(additions.last())[k] == a);
        }
        if !merged.contains(additions.last()) {
            assert(merged.push(additions.last())[merged.len() as int] == additions.last());
        }
    }
}

impl NftStakeRewarder {
    /// A new rewarder with an empty whitelist.
    pub fn new(
        authority: Address,
        reward_mint: Address,
        reward_authority_bump: u8,
        reward_rate: u64,
        collection: String,
        creators: Vec<CreatorStruct>,
        nft_update_authority: Address,
        enforce_metadata: bool,
    ) -> (r: NftStakeRewarder)
        ensures
            r.authority == authority,
            r.reward_mint == reward_mint,
            r.reward_authority_bump == reward_authority_bump,
            r.reward_rate == reward_rate,
            r.collection@ == collection@,
            r.creators@ == creators@,
            r.allowed_update_authority == nft_update_authority,
            r.enforce_metadata == enforce_metadata,
            r.total_staked == 0,
            r.bump == 0,
            r.whitelist_addresses@ == Seq::<Address>::empty(),
            r.wf(),
    {
        NftStakeRewarder {
            authority,
            reward_mint,
            reward_authority_bump,
            reward_rate,
            allowed_update_authority: nft_update_authority,
            creators,
            collection,
            enforce_metadata,
            total_staked: 0,
            bump: 0,
            whitelist_addresses: Vec::new(),
            total_whitelist_address: 0,
        }
    }

    /// Bytes reserved for a stored rewarder record with `num_creators`
    /// creators and a collection name of `collection.len()` bytes.
    pub fn calculate_len(num_creators: usize, collection: &str) -> (r: usize)
        requires
            111 + 34 * num_creators + 24 * collection.spec_bytes().len() <= usize::MAX,
        ensures
            r == 111 + 34 * num_creators + 24 * collection.spec_bytes().len(),
    {
        let mut size: usize = PUBKEY_LEN * 3;
        size += 1;
        size += 8;
        size += 4;
        size += 1;
        size += 1;
        size += CREATOR_LEN * num_creators;
        let len = collection.len();
        size += STRING_LEN * len;
        size
    }
}

/// Bytes of a stored account identity.
pub const PUBKEY_LEN: usize = 32;

/// Bytes of a stored creator: its identity, verified flag and share.
pub const CREATOR_LEN: usize = 34;

/// Bytes counted per byte of the collection name.
pub const STRING_LEN: usize = 24;

/// Replaces the reward rate and whitelists the new addresses among
/// `whitelist_addresses`; refused, with nothing changed, unless `authority`
/// is the rewarder's.
pub fn update_reward_rate(
    rewarder: &mut NftStakeRewarder,
    authority: Address,
    new_rate: u64,
    whitelist_addresses: Vec<Address>,
) -> (r: Result<(), StakingError>)
    requires
        old(rewarder).wf(),
    ensures
        final(rewarder).wf(),
        authority != old(rewarder).authority ==> {
            &&& r == Err::<(), StakingError>(StakingError::InvalidRewarderAuthority)
            &&& *final(rewarder) == *old(rewarder)
        },
        authority == old(rewarder).authority ==> {
            &&& r is Ok
            &&& final(rewarder).reward_rate == new_rate
            &&& final(rewarder).whitelist_addresses@ == whitelist_merge(
                old(rewarder).whitelist_addresses@,
                whitelist_addresses@,
            )
            &&& final(rewarder).total_whitelist_address == final(rewarder).whitelist_addresses@.len()
            &&& final(rewarder).authority == old(rewarder).authority
            &&& final(rewarder).reward_mint == old(rewarder).reward_mint
            &&& final(rewarder).reward_authority_bump == old(rewarder).reward_authority_bump
            &&& final(rewarder).allowed_update_authority == old(rewarder).allowed_update_authority
            &&& final(rewarder).creators == old(rewarder).creators
            &&& final(rewarder).collection == old(rewarder).collection
            &&& final(rewarder).enforce_metadata == old(rewarder).enforce_metadata
            &&& final(rewarder).total_staked == old(rewarder).total_staked
            &&& final(rewarder).bump == old(rewarder).bump
        },
{
    if authority != rewarder.authority {
        return Err(StakingError::InvalidRewarderAuthority);
    }
    let ghost pre = *rewarder;
    rewarder.reward_rate = new_rate;
    let mut i: usize = 0;
    while i < whitelist_addresses.len()
        invariant
            0 <= i <= whitelist_addresses@.len(),
            rewarder.whitelist_addresses@ == whitelist_merge(
                pre.whitelist_addresses@,
                whitelist_addresses@.take(i as int),
            ),
            rewarder.wf(),
            rewarder.reward_rate == new_rate,
            rewarder.authority == pre.authority,
            rewarder.reward_mint == pre.reward_mint,
            rewarder.reward_authority_bump == pre.reward_authority_bump,
            rewarder.allowed_update_authority == pre.allowed_update_authority,
            rewarder.creators == pre.creators,
            rewarder.collection == pre.collection,
            rewarder.enforce_metadata == pre.enforce_metadata,
            rewarder.total_staked == pre.total_staked,
            rewarder.bump == pre.bump,
        decreases whitelist_addresses@.len() - i,
    {
        let a = whitelist_addresses[i];
        proof {
            assert(whitelist_addresses@.take(i + 1).drop_last() =~= whitelist_addresses@.take(i as int));
            assert(whitelist_addresses@.take(i + 1).last() == a);
        }
        if !contains_address(&rewarder.whitelist_addresses, &a) {
            rewarder.whitelist_addresses.push(a);
            let len = rewarder.whitelist_addresses.len();
            assert(rewarder.total_whitelist_address + 1 == len);
            rewarder.total_whitelist_address = rewarder.total_whitelist_address + 1;
        }
        i = i + 1;
    }
    proof {
        assert(whitelist_addresses@.take(i as int) =~= whitelist_addresses@);
    }
    Ok(())
}

} // verus!
