use vstd::pervasive::VecAdditionalExecFns;
use vstd::prelude::*;

verus! {

/// Admission-control data of one bucket: which collection its assets must
/// belong to, and which assets are excluded outright.
#[derive(Debug)]
pub struct CollectionInfo {
    /// Identity of the collection every admitted asset must be a verified
    /// member of.
    pub collection_mint: u64,
    /// The exclusion list: assets that may never enter the bucket.
    pub banned_nfts: Vec<u64>,
}

impl CollectionInfo {
    /// Whether the asset is on the exclusion list.
    pub open spec fn spec_is_banned(self, nft_mint: u64) -> bool {
        self.banned_nfts@.contains(nft_mint)
    }

    /// Scans the exclusion list for the asset.
    pub fn is_banned(&self, nft_mint: u64) -> (banned: bool)
        ensures
            banned == self.spec_is_banned(nft_mint),
    {
        let mut i: usize = 0;
        while i < self.banned_nfts.len()
            invariant
                i <= self.banned_nfts.len(),
                forall|k: int| 0 <= k < i ==> self.banned_nfts@[k] != nft_mint,
            decreases self.banned_nfts.len() - i,
        {
            if self.banned_nfts[i] == nft_mint {
                return true;
            }
            i = i + 1;
        }
        false
    }
}

/// What the asset's metadata attests: which collection the asset belongs to
/// and whether that membership is verified. The metadata service that signs
/// these facts is an external collaborator; the caller reads them from the
/// asset's metadata record and hands them over as plain values.
#[derive(Clone, Copy, Debug, PartialEq, Eq, Structural)]
pub struct NftMetadata {
    /// The asset the metadata record belongs to.
    pub mint: u64,
    /// The collection the metadata names.
    pub collection: u64,
    /// Whether the collection membership is verified by the collection
    /// authority.
    pub collection_verified: bool,
}

/// Custody record: proof that the bucket of `droplet_mint` currently holds
/// the asset `nft_mint`. Its existence is the sole authority; redeeming
/// destroys it.
#[derive(Clone, Copy, Debug, PartialEq, Eq, Structural)]
pub struct DepositState {
    /// The fungible token of the bucket holding the asset.
    pub droplet_mint: u64,
    /// The custodied asset.
    pub nft_mint: u64,
}

/// Swap-eligibility record of one holder on one bucket. `flag` set means the
/// holder deposited an asset under swap intent and has not yet completed the
/// matching redeem. The record is created lazily and never deleted.
#[derive(Clone, Copy, Debug, PartialEq, Eq, Structural)]
pub struct SwapState {
    /// The fungible token of the bucket the eligibility belongs to.
    pub droplet_mint: u64,
    /// The holder the eligibility belongs to.
    pub signer: u64,
    /// Whether a swap-intent deposit is pending.
    pub flag: bool,
}

/// The swap-eligibility records as a map from holder to pending flag.
pub open spec fn swaps_as_map(records: Seq<SwapState>) -> Map<u64, bool>
    decreases records.len(),
{
    if records.len() == 0 {
        Map::empty()
    } else {
        swaps_as_map(records.drop_last()).insert(records.last().signer, records.last().flag)
    }
}

/// No two swap-eligibility records belong to the same holder.
pub open spec fn distinct_signers(records: Seq<SwapState>) -> bool {
    forall|i: int, j: int|
        0 <= i < j < records.len() ==> records[i].signer != records[j].signer
}

/// One bucket: the pool record itself together with its keyed stores of
/// custody and swap-eligibility records. On the ledger the records live at
/// addresses derived from their keys; here the derivation scheme's one
/// record per key guarantee is the well-formedness invariant `wf`.
#[derive(Debug)]
pub struct Bucket {
    /// The fungible token this bucket issues and accepts.
    pub droplet_mint: u64,
    /// Admission-control data, consulted and never mutated by deposits.
    pub collection_info: CollectionInfo,
    /// How many assets the bucket currently holds. Equals the number of
    /// live custody records whenever the bucket is well-formed.
    pub num_nfts_in_bucket: u16,
    /// The live custody records, one per custodied asset.
    pub deposits: Vec<DepositState>,
    /// The swap-eligibility records, one per holder that ever used this
    /// bucket.
    pub swaps: Vec<SwapState>,
}

impl Bucket {
    /// The custody records are well-formed: each names this bucket, and no
    /// asset has two.
    pub open spec fn deposits_wf(self) -> bool {
        &&& forall|i: int|
            0 <= i < self.deposits@.len() ==> (#[trigger] self.deposits@[i]).droplet_mint
                == self.droplet_mint
        &&& forall|i: int, j: int|
            0 <= i < j < self.deposits@.len() ==> self.deposits@[i].nft_mint
                != self.deposits@[j].nft_mint
    }

    /// The swap-eligibility records are well-formed: each names this bucket,
    /// and no holder has two.
    pub open spec fn swaps_wf(self) -> bool {
        &&& forall|i: int|
            0 <= i < self.swaps@.len() ==> (#[trigger] self.swaps@[i]).droplet_mint
                == self.droplet_mint
        &&& distinct_signers(self.swaps@)
    }

    /// The bucket invariant: well-formed stores, and the counter equal to
    /// the number of live custody records.
    pub open spec fn wf(self) -> bool {
        &&& self.deposits_wf()
        &&& self.swaps_wf()
        &&& self.num_nfts_in_bucket as int == self.deposits@.len()
    }

    /// Whether a custody record for the asset exists: whether the bucket
    /// currently holds it.
    pub open spec fn holds_nft(self, nft_mint: u64) -> bool {
        exists|i: int|
            0 <= i < self.deposits@.len() && (#[trigger] self.deposits@[i]).nft_mint == nft_mint
    }

    /// The swap-eligibility store, seen as a map from holder to flag.
    pub open spec fn swap_flags(self) -> Map<u64, bool> {
        swaps_as_map(self.swaps@)
    }

    /// Whether the holder has an outstanding swap-intent deposit.
    pub open spec fn swap_pending(self, signer: u64) -> bool {
        self.swap_flags().contains_key(signer) && self.swap_flags()[signer]
    }

    /// A freshly initialized bucket: empty custody, no eligibility records,
    /// counter zero.
    pub fn new(droplet_mint: u64, collection_info: CollectionInfo) -> (bucket: Bucket)
        ensures
            bucket.wf(),
            bucket.droplet_mint == droplet_mint,
            bucket.collection_info == collection_info,
            bucket.num_nfts_in_bucket == 0,
            bucket.deposits@ =~= Seq::<DepositState>::empty(),
            bucket.swap_flags() =~= Map::<u64, bool>::empty(),
    {
        Bucket {
            droplet_mint,
            collection_info,
            num_nfts_in_bucket: 0,
            deposits: Vec::new(),
            swaps: Vec::new(),
        }
    }

    /// Finds the custody record of an asset, if one exists.
    pub fn find_deposit(&self, nft_mint: u64) -> (found: Option<usize>)
        ensures
            match found {
                Some(i) => i < self.deposits@.len() && self.deposits@[i as int].nft_mint
                    == nft_mint,
                None => !self.holds_nft(nft_mint),
            },
    {
        let mut i: usize = 0;
        while i < self.deposits.len()
            invariant
                i <= self.deposits.len(),
                forall|k: int| 0 <= k < i ==> self.deposits@[k].nft_mint != nft_mint,
            decreases self.deposits.len() - i,
        {
            if self.deposits[i].nft_mint == nft_mint {
                return Some(i);
            }
            i = i + 1;
        }
        None
    }

    /// Whether the bucket currently holds the asset.
    pub fn contains_nft(&self, nft_mint: u64) -> (held: bool)
        ensures
            held == self.holds_nft(nft_mint),
    {
        match self.find_deposit(nft_mint) {
            Some(_) => true,
            None => false,
        }
    }

    /// Finds the swap-eligibility record of a holder, if one exists.
    fn find_swap(&self, signer: u64) -> (found: Option<usize>)
        ensures
            match found {
                Some(i) => i < self.swaps@.len() && self.swaps@[i as int].signer == signer,
                None => forall|k: int| 0 <= k < self.swaps@.len() ==> self.swaps@[k].signer
                    != signer,
            },
    {
        let mut i: usize = 0;
        while i < self.swaps.len()
            invariant
                i <= self.swaps.len(),
                forall|k: int| 0 <= k < i ==> self.swaps@[k].signer != signer,
            decreases self.swaps.len() - i,
        {
            if self.swaps[i].signer == signer {
                return Some(i);
            }
            i = i + 1;
        }
        None
    }

    /// Whether the holder has an outstanding swap-intent deposit.
    pub fn is_swap_pending(&self, signer: u64) -> (pending: bool)
        requires
            self.swaps_wf(),
        ensures
            pending == self.swap_pending(signer),
    {
        match self.find_swap(signer) {
            Some(i) => {
                proof {
                    lemma_swaps_as_map_record(self.swaps@, i as int);
                }
                self.swaps[i].flag
            },
            None => {
                proof {
                    lemma_swaps_as_map_absent(self.swaps@, signer);
                }
                false
            },
        }
    }

    /// Creates or overwrites the holder's swap-eligibility record with the
    /// given flag: the upsert both operations perform.
    pub fn upsert_swap_state(&mut self, signer: u64, flag: bool)
        requires
            old(self).swaps_wf(),
        ensures
            final(self).swaps_wf(),
            final(self).swap_flags() == old(self).swap_flags().insert(signer, flag),
            final(self).droplet_mint == old(self).droplet_mint,
            final(self).collection_info == old(self).collection_info,
            final(self).num_nfts_in_bucket == old(self).num_nfts_in_bucket,
            final(self).deposits == old(self).deposits,
    {
        let record = SwapState { droplet_mint: self.droplet_mint, signer, flag };
        match self.find_swap(signer) {
            Some(i) => {
                proof {
                    lemma_swaps_as_map_update(self.swaps@, i as int, record);
                }
                self.swaps.set(i, record);
            },
            None => {
                proof {
                    lemma_swaps_as_map_push(self.swaps@, record);
                }
                self.swaps.push(record);
            },
        }
    }

    /// Creates the holder's swap-eligibility record if absent, leaving an
    /// existing flag untouched: the lazy get-or-create both operations rely
    /// on. A fresh record starts with no pending swap.
    pub fn ensure_swap_record(&mut self, signer: u64)
        requires
            old(self).swaps_wf(),
        ensures
            final(self).swaps_wf(),
            final(self).swap_flags() == if old(self).swap_flags().contains_key(signer) {
                old(self).swap_flags()
            } else {
                old(self).swap_flags().insert(signer, false)
            },
            final(self).swap_flags().contains_key(signer),
            final(self).droplet_mint == old(self).droplet_mint,
            final(self).collection_info == old(self).collection_info,
            final(self).num_nfts_in_bucket == old(self).num_nfts_in_bucket,
            final(self).deposits == old(self).deposits,
    {
        match self.find_swap(signer) {
            Some(i) => {
                proof {
                    lemma_swaps_as_map_record(self.swaps@, i as int);
                }
            },
            None => {
                let record = SwapState { droplet_mint: self.droplet_mint, signer, flag: false };
                proof {
                    lemma_swaps_as_map_absent(self.swaps@, signer);
                    lemma_swaps_as_map_push(self.swaps@, record);
                }
                self.swaps.push(record);
            },
        }
    }
}

/// A record present in a store with distinct holders is what the map view
/// reports for its holder.
pub proof fn lemma_swaps_as_map_record(records: Seq<SwapState>, i: int)
    requires
        0 <= i < records.len(),
        distinct_signers(records),
    ensures
        swaps_as_map(records).contains_key(records[i].signer),
        swaps_as_map(records)[records[i].signer] == records[i].flag,
    decreases records.len(),
{
    if i < records.len() - 1 {
        assert(distinct_signers(records.drop_last())) by {
            assert(forall|k: int|
                0 <= k < records.len() - 1 ==> records.drop_last()[k] == records[k]);
        }
        lemma_swaps_as_map_record(records.drop_last(), i);
        assert(records[i].signer != records.last().signer);
    }
}

/// A holder with no record in the store is absent from the map view.
pub proof fn lemma_swaps_as_map_absent(records: Seq<SwapState>, signer: u64)
    requires
        forall|k: int| 0 <= k < records.len() ==> (#[trigger] records[k]).signer != signer,
    ensures
        !swaps_as_map(records).contains_key(signer),
    decreases records.len(),
{
    if records.len() > 0 {
        lemma_swaps_as_map_absent(records.drop_last(), signer);
    }
}

/// Overwriting the record of a holder updates the map view at that holder
/// alone.
pub proof fn lemma_swaps_as_map_update(records: Seq<SwapState>, i: int, record: SwapState)
    requires
        0 <= i < records.len(),
        distinct_signers(records),
        record.signer == records[i].signer,
    ensures
        swaps_as_map(records.update(i, record)) == swaps_as_map(records).insert(
            record.signer,
            record.flag,
        ),
    decreases records.len(),
{
    let updated = records.update(i, record);
    if i == records.len() - 1 {
        assert(updated.drop_last() =~= records.drop_last());
        assert(updated.last() == record);
        assert(swaps_as_map(records.drop_last()).insert(
            records.last().signer,
            records.last().flag,
        ).insert(record.signer, record.flag) =~= swaps_as_map(records.drop_last()).insert(
            record.signer,
            record.flag,
        ));
    } else {
        assert(distinct_signers(records.drop_last())) by {
            assert(forall|k: int|
                0 <= k < records.len() - 1 ==> records.drop_last()[k] == records[k]);
        }
        assert(updated.drop_last() =~= records.drop_last().update(i, record));
        lemma_swaps_as_map_update(records.drop_last(), i, record);
        assert(updated.last() == records.last());
        assert(record.signer != records.last().signer);
        assert(swaps_as_map(records.drop_last()).insert(record.signer, record.flag).insert(
            records.last().signer,
            records.last().flag,
        ) =~= swaps_as_map(records.drop_last()).insert(
            records.last().signer,
            records.last().flag,
        ).insert(record.signer, record.flag));
    }
}

/// Appending the record of a new holder inserts that holder into the map
/// view.
pub proof fn lemma_swaps_as_map_push(records: Seq<SwapState>, record: SwapState)
    ensures
        swaps_as_map(records.push(record)) == swaps_as_map(records).insert(
            record.signer,
            record.flag,
        ),
{
    assert(records.push(record).drop_last() =~= records);
    assert(records.push(record).last() == record);
}

} // verus!
