use crate::asset::AssetInfo;
use crate::asset::AssetInfoView;
use crate::error::ContractError;
use crate::error::ErrorView;
use crate::results::views;
use vstd::prelude::*;

verus! {

/// The configuration: who may create pools, and which code a new share
/// token is instantiated from.
#[derive(Debug, PartialEq, Eq)]
pub struct State {
    pub owner: String,
    pub token_code_id: u64,
}

/// A `State` with its owner as a character sequence.
pub struct StateView {
    pub owner: Seq<char>,
    pub token_code_id: u64,
}

impl View for State {
    type V = StateView;

    open spec fn view(&self) -> StateView {
        StateView { owner: self.owner@, token_code_id: self.token_code_id }
    }
}

impl Clone for State {
    fn clone(&self) -> (r: Self)
        ensures
            r@ == self@,
    {
        State { owner: self.owner.clone(), token_code_id: self.token_code_id }
    }
}

/// One pool: a base asset and the share token bound to it.
#[derive(Debug, PartialEq, Eq)]
pub struct LpEntry {
    pub asset_info: AssetInfo,
    pub lp_address: String,
}

/// An `LpEntry` with its texts as character sequences.
pub struct LpEntryView {
    pub asset_info: AssetInfoView,
    pub lp_address: Seq<char>,
}

impl View for LpEntry {
    type V = LpEntryView;

    open spec fn view(&self) -> LpEntryView {
        LpEntryView { asset_info: self.asset_info@, lp_address: self.lp_address@ }
    }
}

impl Clone for LpEntry {
    fn clone(&self) -> (r: Self)
        ensures
            r@ == self@,
    {
        LpEntry { asset_info: self.asset_info.clone(), lp_address: self.lp_address.clone() }
    }
}

/// No asset and no share token occurs in two entries.
pub open spec fn distinct_entries(entries: Seq<LpEntryView>) -> bool {
    forall|i: int, j: int|
        0 <= i < j < entries.len() ==> (#[trigger] entries[i]).asset_info != (
        #[trigger] entries[j]).asset_info && entries[i].lp_address != entries[j].lp_address
}

/// Some entry is for `asset`.
pub open spec fn has_asset(entries: Seq<LpEntryView>, asset: AssetInfoView) -> bool {
    exists|i: int| 0 <= i < entries.len() && (#[trigger] entries[i]).asset_info == asset
}

/// Some entry is for the share token `lp`.
pub open spec fn has_lp(entries: Seq<LpEntryView>, lp: Seq<char>) -> bool {
    exists|i: int| 0 <= i < entries.len() && (#[trigger] entries[i]).lp_address == lp
}

/// The forward mapping that a list of entries stands for.
pub open spec fn lp_by_asset(entries: Seq<LpEntryView>) -> Map<AssetInfoView, Seq<char>> {
    Map::new(
        |asset: AssetInfoView| has_asset(entries, asset),
        |asset: AssetInfoView|
            entries[choose|i: int|
                0 <= i < entries.len() && (#[trigger] entries[i]).asset_info == asset].lp_address,
    )
}

/// The reverse mapping that a list of entries stands for.
pub open spec fn asset_by_lp(entries: Seq<LpEntryView>) -> Map<Seq<char>, AssetInfoView> {
    Map::new(
        |lp: Seq<char>| has_lp(entries, lp),
        |lp: Seq<char>|
            entries[choose|i: int|
                0 <= i < entries.len() && (#[trigger] entries[i]).lp_address == lp].asset_info,
    )
}

/// What the durable state holds, as mathematical values.
pub struct StorageView {
    /// The configuration, once the pool has been initialised.
    pub state: Option<StateView>,
    /// Base asset to share token.
    pub lps_asset_info: Map<AssetInfoView, Seq<char>>,
    /// Share token to base asset.
    pub lps_lp_addr: Map<Seq<char>, AssetInfoView>,
    /// The asset of the pool whose creation awaits confirmation.
    pub tmp_new_token_pool: Option<AssetInfoView>,
}

impl StorageView {
    /// The two mappings are each other's inverse: every asset has at most one
    /// share token, every share token at most one asset, and both directions
    /// agree.
    pub open spec fn wf(self) -> bool {
        &&& forall|asset: AssetInfoView| #[trigger]
            self.lps_asset_info.contains_key(asset) ==> self.lps_lp_addr.contains_key(
                self.lps_asset_info[asset],
            ) && self.lps_lp_addr[self.lps_asset_info[asset]] == asset
        &&& forall|lp: Seq<char>| #[trigger]
            self.lps_lp_addr.contains_key(lp) ==> self.lps_asset_info.contains_key(
                self.lps_lp_addr[lp],
            ) && self.lps_asset_info[self.lps_lp_addr[lp]] == lp
    }

    /// The state with the pair (`asset`, `lp`) added to both mappings.
    pub open spec fn bind(self, asset: AssetInfoView, lp: Seq<char>) -> StorageView {
        StorageView {
            lps_asset_info: self.lps_asset_info.insert(asset, lp),
            lps_lp_addr: self.lps_lp_addr.insert(lp, asset),
            ..self
        }
    }
}

/// In a list without repeats, an entry is found under its own asset and its
/// own share token.
pub proof fn lemma_entry_lookup(entries: Seq<LpEntryView>, i: int)
    requires
        distinct_entries(entries),
        0 <= i < entries.len(),
    ensures
        lp_by_asset(entries).contains_key(entries[i].asset_info),
        lp_by_asset(entries)[entries[i].asset_info] == entries[i].lp_address,
        asset_by_lp(entries).contains_key(entries[i].lp_address),
        asset_by_lp(entries)[entries[i].lp_address] == entries[i].asset_info,
{
    let asset = entries[i].asset_info;
    let lp = entries[i].lp_address;
    assert(has_asset(entries, asset));
    assert(has_lp(entries, lp));
    let a = choose|k: int| 0 <= k < entries.len() && (#[trigger] entries[k]).asset_info == asset;
    assert(a == i);
    let l = choose|k: int| 0 <= k < entries.len() && (#[trigger] entries[k]).lp_address == lp;
    assert(l == i);
}

/// The mappings of a list without repeats are each other's inverse.
pub proof fn lemma_entries_wf(entries: Seq<LpEntryView>)
    requires
        distinct_entries(entries),
    ensures
        forall|asset: AssetInfoView| #[trigger]
            lp_by_asset(entries).contains_key(asset) ==> asset_by_lp(entries).contains_key(
                lp_by_asset(entries)[asset],
            ) && asset_by_lp(entries)[lp_by_asset(entries)[asset]] == asset,
        forall|lp: Seq<char>| #[trigger]
            asset_by_lp(entries).contains_key(lp) ==> lp_by_asset(entries).contains_key(
                asset_by_lp(entries)[lp],
            ) && lp_by_asset(entries)[asset_by_lp(entries)[lp]] == lp,
{
    assert forall|asset: AssetInfoView| #[trigger]
        lp_by_asset(entries).contains_key(asset) implies asset_by_lp(entries).contains_key(
        lp_by_asset(entries)[asset],
    ) && asset_by_lp(entries)[lp_by_asset(entries)[asset]] == asset by {
        let i = choose|k: int|
            0 <= k < entries.len() && (#[trigger] entries[k]).asset_info == asset;
        lemma_entry_lookup(entries, i);
    }
    assert forall|lp: Seq<char>| #[trigger]
        asset_by_lp(entries).contains_key(lp) implies lp_by_asset(entries).contains_key(
        asset_by_lp(entries)[lp],
    ) && lp_by_asset(entries)[asset_by_lp(entries)[lp]] == lp by {
        let i = choose|k: int| 0 <= k < entries.len() && (#[trigger] entries[k]).lp_address == lp;
        lemma_entry_lookup(entries, i);
    }
}

/// Appending a pair whose asset and share token are both new keeps the list
/// free of repeats and adds exactly that pair to both mappings.
pub proof fn lemma_push_entry(entries: Seq<LpEntryView>, entry: LpEntryView)
    requires
        distinct_entries(entries),
        !has_asset(entries, entry.asset_info),
        !has_lp(entries, entry.lp_address),
    ensures
        distinct_entries(entries.push(entry)),
        lp_by_asset(entries.push(entry)) == lp_by_asset(entries).insert(
            entry.asset_info,
            entry.lp_address,
        ),
        asset_by_lp(entries.push(entry)) == asset_by_lp(entries).insert(
            entry.lp_address,
            entry.asset_info,
        ),
{
    let longer = entries.push(entry);
    assert forall|i: int, j: int| 0 <= i < j < longer.len() implies (#[trigger] longer[i]).asset_info
        != (#[trigger] longer[j]).asset_info && longer[i].lp_address != longer[j].lp_address by {
        if j == entries.len() {
            assert(longer[i] == entries[i]);
        } else {
            assert(longer[i] == entries[i]);
            assert(longer[j] == entries[j]);
        }
    }
    assert forall|asset: AssetInfoView|
        has_asset(longer, asset) <==> (has_asset(entries, asset) || asset
            == entry.asset_info) by {
        if has_asset(longer, asset) {
            let i = choose|k: int|
                0 <= k < longer.len() && (#[trigger] longer[k]).asset_info == asset;
            if i < entries.len() {
                assert(entries[i].asset_info == asset);
            }
        }
        if has_asset(entries, asset) {
            let i = choose|k: int|
                0 <= k < entries.len() && (#[trigger] entries[k]).asset_info == asset;
            assert(longer[i].asset_info == asset);
        }
        if asset == entry.asset_info {
            assert(longer[entries.len() as int].asset_info == asset);
        }
    }
    assert forall|lp: Seq<char>|
        has_lp(longer, lp) <==> (has_lp(entries, lp) || lp == entry.lp_address) by {
        if has_lp(longer, lp) {
            let i = choose|k: int| 0 <= k < longer.len() && (#[trigger] longer[k]).lp_address == lp;
            if i < entries.len() {
                assert(entries[i].lp_address == lp);
            }
        }
        if has_lp(entries, lp) {
            let i = choose|k: int|
                0 <= k < entries.len() && (#[trigger] entries[k]).lp_address == lp;
            assert(longer[i].lp_address == lp);
        }
        if lp == entry.lp_address {
            assert(longer[entries.len() as int].lp_address == lp);
        }
    }
    assert forall|asset: AssetInfoView| #[trigger]
        lp_by_asset(longer).contains_key(asset) implies lp_by_asset(longer)[asset]
        == lp_by_asset(entries).insert(entry.asset_info, entry.lp_address)[asset] by {
        let i = choose|k: int| 0 <= k < longer.len() && (#[trigger] longer[k]).asset_info == asset;
        lemma_entry_lookup(longer, i);
        if i < entries.len() {
            assert(longer[i] == entries[i]);
            lemma_entry_lookup(entries, i);
        }
    }
    assert forall|lp: Seq<char>| #[trigger]
        asset_by_lp(longer).contains_key(lp) implies asset_by_lp(longer)[lp] == asset_by_lp(
        entries,
    ).insert(entry.lp_address, entry.asset_info)[lp] by {
        let i = choose|k: int| 0 <= k < longer.len() && (#[trigger] longer[k]).lp_address == lp;
        lemma_entry_lookup(longer, i);
        if i < entries.len() {
            assert(longer[i] == entries[i]);
            lemma_entry_lookup(entries, i);
        }
    }
    assert(lp_by_asset(longer) =~= lp_by_asset(entries).insert(
        entry.asset_info,
        entry.lp_address,
    ));
    assert(asset_by_lp(longer) =~= asset_by_lp(entries).insert(
        entry.lp_address,
        entry.asset_info,
    ));
}

/// The pool's durable state: the configuration, the registry of pools, and
/// the marker of a pool whose creation has been requested and not yet
/// confirmed.
#[derive(Debug, PartialEq, Eq)]
pub struct PoolStorage {
    state: Option<State>,
    lps: Vec<LpEntry>,
    tmp_new_token_pool: Option<AssetInfo>,
}

impl View for PoolStorage {
    type V = StorageView;

    closed spec fn view(&self) -> StorageView {
        StorageView {
            state: match self.state {
                Some(state) => Some(state@),
                None => None,
            },
            lps_asset_info: lp_by_asset(views(self.lps@)),
            lps_lp_addr: asset_by_lp(views(self.lps@)),
            tmp_new_token_pool: match self.tmp_new_token_pool {
                Some(asset) => Some(asset@),
                None => None,
            },
        }
    }
}

impl Clone for PoolStorage {
    fn clone(&self) -> (r: Self)
        ensures
            r@ == self@,
    {
        proof {
            use_type_invariant(self);
        }
        let mut lps: Vec<LpEntry> = Vec::new();
        let mut i: usize = 0;
        while i < self.lps.len()
            invariant
                i <= self.lps@.len(),
                lps@.len() == i,
                views(lps@) == views(self.lps@).subrange(0, i as int),
            decreases self.lps@.len() - i,
        {
            let entry = self.lps[i].clone();
            let ghost before = lps@;
            lps.push(entry);
            assert forall|k: int| 0 <= k <= i implies #[trigger] views(lps@)[k] == views(
                self.lps@,
            )[k] by {
                if k < i {
                    assert(views(before)[k] == views(self.lps@).subrange(0, i as int)[k]);
                }
            }
            i += 1;
            assert(views(lps@) =~= views(self.lps@).subrange(0, i as int));
        }
        assert(views(lps@) =~= views(self.lps@));
        PoolStorage {
            state: match &self.state {
                Some(state) => Some(state.clone()),
                None => None,
            },
            lps,
            tmp_new_token_pool: match &self.tmp_new_token_pool {
                Some(asset_info) => Some(asset_info.clone()),
                None => None,
            },
        }
    }
}

impl PoolStorage {
    #[verifier::type_invariant]
    closed spec fn registry_has_no_repeats(self) -> bool {
        distinct_entries(views(self.lps@))
    }

    /// A state that has not been initialised and holds no pool.
    pub fn new() -> (r: PoolStorage)
        ensures
            r@.state is None,
            r@.lps_asset_info == Map::<AssetInfoView, Seq<char>>::empty(),
            r@.lps_lp_addr == Map::<Seq<char>, AssetInfoView>::empty(),
            r@.tmp_new_token_pool is None,
            r@.wf(),
    {
        let r = PoolStorage { state: None, lps: Vec::new(), tmp_new_token_pool: None };
        assert(r@.lps_asset_info =~= Map::<AssetInfoView, Seq<char>>::empty());
        assert(r@.lps_lp_addr =~= Map::<Seq<char>, AssetInfoView>::empty());
        r
    }

    /// Does nothing when run. To the verifier it hands out what every value of
    /// this type satisfies: the registry is a bijection.
    pub fn check_invariant(&self)
        ensures
            self@.wf(),
    {
        proof {
            use_type_invariant(self);
            lemma_entries_wf(views(self.lps@));
        }
    }

    /// The pools of the registry, each of them once.
    pub fn lps(&self) -> (r: &Vec<LpEntry>)
        ensures
            distinct_entries(views(r@)),
            self@.lps_asset_info == lp_by_asset(views(r@)),
            self@.lps_lp_addr == asset_by_lp(views(r@)),
    {
        proof {
            use_type_invariant(self);
        }
        &self.lps
    }

    /// The configuration, if the pool has been initialised.
    pub fn state(&self) -> (r: Option<&State>)
        ensures
            self@.wf(),
            match r {
                Some(state) => self@.state == Some(state@),
                None => self@.state is None,
            },
    {
        proof {
            use_type_invariant(self);
            lemma_entries_wf(views(self.lps@));
        }
        self.state.as_ref()
    }

    /// The asset of the pool whose creation awaits confirmation, if any.
    pub fn tmp_new_token_pool(&self) -> (r: Option<&AssetInfo>)
        ensures
            self@.wf(),
            match r {
                Some(asset_info) => self@.tmp_new_token_pool == Some(asset_info@),
                None => self@.tmp_new_token_pool is None,
            },
    {
        proof {
            use_type_invariant(self);
            lemma_entries_wf(views(self.lps@));
        }
        self.tmp_new_token_pool.as_ref()
    }

    /// Replaces the configuration.
    pub fn set_state(&mut self, state: State)
        ensures
            final(self)@.wf(),
            final(self)@ == (StorageView { state: Some(state@), ..old(self)@ }),
    {
        proof {
            use_type_invariant(&*self);
            lemma_entries_wf(views(self.lps@));
        }
        self.state = Some(state);
    }

    /// Marks `asset_info` as the pool whose creation awaits confirmation, in
    /// place of any earlier marker.
    pub fn set_tmp_new_token_pool(&mut self, asset_info: AssetInfo)
        ensures
            final(self)@.wf(),
            final(self)@ == (StorageView { tmp_new_token_pool: Some(asset_info@), ..old(self)@ }),
    {
        proof {
            use_type_invariant(&*self);
            lemma_entries_wf(views(self.lps@));
        }
        self.tmp_new_token_pool = Some(asset_info);
    }

    /// Clears the marker of the pool whose creation awaits confirmation.
    pub fn clear_tmp_new_token_pool(&mut self)
        ensures
            final(self)@.wf(),
            final(self)@ == (StorageView { tmp_new_token_pool: None, ..old(self)@ }),
    {
        proof {
            use_type_invariant(&*self);
            lemma_entries_wf(views(self.lps@));
        }
        self.tmp_new_token_pool = None;
    }

    /// Appends an entry whose asset and share token are both new.
    fn push_entry(&mut self, entry: LpEntry)
        requires
            !has_asset(views(old(self).lps@), entry.asset_info@),
            !has_lp(views(old(self).lps@), entry.lp_address@),
        ensures
            final(self).lps@ == old(self).lps@.push(entry),
            final(self).state == old(self).state,
            final(self).tmp_new_token_pool == old(self).tmp_new_token_pool,
    {
        proof {
            use_type_invariant(&*self);
            lemma_push_entry(views(self.lps@), entry@);
            assert(views(self.lps@.push(entry)) =~= views(self.lps@).push(entry@));
        }
        let mut taken = PoolStorage { state: None, lps: Vec::new(), tmp_new_token_pool: None };
        core::mem::swap(self, &mut taken);
        let PoolStorage { state, lps, tmp_new_token_pool } = taken;
        let mut lps = lps;
        lps.push(entry);
        *self = PoolStorage { state, lps, tmp_new_token_pool };
    }

    /// The position of the entry for `asset_info`, if there is one.
    fn find_asset(&self, asset_info: &AssetInfo) -> (r: Option<usize>)
        ensures
            match r {
                Some(i) => i < self.lps@.len() && views(self.lps@)[i as int].asset_info
                    == asset_info@,
                None => !has_asset(views(self.lps@), asset_info@),
            },
    {
        let mut i: usize = 0;
        while i < self.lps.len()
            invariant
                i <= self.lps@.len(),
                forall|k: int| 0 <= k < i ==> (#[trigger] views(self.lps@)[k]).asset_info != asset_info@,
            decreases self.lps@.len() - i,
        {
            if self.lps[i].asset_info.equal(asset_info) {
                return Some(i);
            }
            assert(views(self.lps@)[i as int] == self.lps@[i as int]@);
            i += 1;
        }
        None
    }

    /// The position of the entry for the share token `lp_address`, if there is
    /// one.
    fn find_lp(&self, lp_address: &String) -> (r: Option<usize>)
        ensures
            match r {
                Some(i) => i < self.lps@.len() && views(self.lps@)[i as int].lp_address
                    == lp_address@,
                None => !has_lp(views(self.lps@), lp_address@),
            },
    {
        let mut i: usize = 0;
        while i < self.lps.len()
            invariant
                i <= self.lps@.len(),
                forall|k: int| 0 <= k < i ==> (#[trigger] views(self.lps@)[k]).lp_address != lp_address@,
            decreases self.lps@.len() - i,
        {
            if self.lps[i].lp_address == *lp_address {
                return Some(i);
            }
            assert(views(self.lps@)[i as int] == self.lps@[i as int]@);
            i += 1;
        }
        None
    }
}

/// Binds the share token `lp_address` to `asset_info`, in both directions at
/// once. Refused, with the state untouched, where the share token or the
/// asset is already bound.
pub fn store_lp(store: &mut PoolStorage, asset_info: AssetInfo, lp_address: String) -> (r: Result<
    (),
    ContractError,
>)
    ensures
        final(store)@.wf(),
        old(store)@.lps_lp_addr.contains_key(lp_address@) ==> *final(store) == *old(store) && (
        r matches Err(e) && e@ == ErrorView::AlreadyExsit("lp_token"@)),
        !old(store)@.lps_lp_addr.contains_key(lp_address@) && old(
            store,
        )@.lps_asset_info.contains_key(asset_info@) ==> *final(store) == *old(store) && (
        r matches Err(e) && e@ == ErrorView::AlreadyExsit("asset_info"@)),
        !old(store)@.lps_lp_addr.contains_key(lp_address@) && !old(
            store,
        )@.lps_asset_info.contains_key(asset_info@) ==> r is Ok && final(store)@ == old(
            store,
        )@.bind(asset_info@, lp_address@),
{
    proof {
        use_type_invariant(&*store);
        lemma_entries_wf(views(store.lps@));
    }
    if store.find_lp(&lp_address).is_some() {
        return Err(ContractError::AlreadyExsit("lp_token".to_owned()));
    }
    if store.find_asset(&asset_info).is_some() {
        return Err(ContractError::AlreadyExsit("asset_info".to_owned()));
    }
    let entry = LpEntry { asset_info, lp_address };
    proof {
        lemma_push_entry(views(store.lps@), entry@);
        assert(views(store.lps@.push(entry)) =~= views(store.lps@).push(entry@));
        lemma_entries_wf(views(store.lps@).push(entry@));
    }
    store.push_entry(entry);
    Ok(())
}

/// The share token registered for `asset_info`.
pub fn load_lp_addr(store: &PoolStorage, asset_info: AssetInfo) -> (r: Result<String, ContractError>)
    ensures
        store@.wf(),
        match r {
            Ok(lp_address) => store@.lps_asset_info.contains_key(asset_info@) && lp_address@
                == store@.lps_asset_info[asset_info@],
            Err(e) => !store@.lps_asset_info.contains_key(asset_info@) && e@ == ErrorView::NotFound,
        },
{
    proof {
        use_type_invariant(store);
        lemma_entries_wf(views(store.lps@));
    }
    match store.find_asset(&asset_info) {
        Some(i) => {
            proof {
                lemma_entry_lookup(views(store.lps@), i as int);
            }
            Ok(store.lps[i].lp_address.clone())
        },
        None => Err(ContractError::NotFound),
    }
}

/// The base asset that the share token `lp_address` is registered for.
pub fn load_asset_info(store: &PoolStorage, lp_address: String) -> (r: Result<
    AssetInfo,
    ContractError,
>)
    ensures
        store@.wf(),
        match r {
            Ok(asset_info) => store@.lps_lp_addr.contains_key(lp_address@) && asset_info@
                == store@.lps_lp_addr[lp_address@],
            Err(e) => !store@.lps_lp_addr.contains_key(lp_address@) && e@ == ErrorView::NotFound,
        },
{
    proof {
        use_type_invariant(store);
        lemma_entries_wf(views(store.lps@));
    }
    match store.find_lp(&lp_address) {
        Some(i) => {
            proof {
                lemma_entry_lookup(views(store.lps@), i as int);
            }
            Ok(store.lps[i].asset_info.clone())
        },
        None => Err(ContractError::NotFound),
    }
}

} // verus!
