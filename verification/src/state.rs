//! The sequencer state as a plain value, its mathematical view, and the
//! verified primitive operations (lookup, upsert, removal) every action
//! handler is built from.

use vstd::prelude::*;
use crate::bytes_util::{bytes_eq, copy_bytes};
use crate::tables::{has_key, idx_of, lemma_idx_of, lemma_remove_key, lemma_upsert, remove_key,
    upsert, wf_keys};
use crate::types::{BalView, BalanceEntry, BridgeEntry, BridgeView, FeeSchedule, IbcParams,
    NonceEntry, NonceView, ValidatorEntry, ValidatorView};

verus! {

// ---------------------------------------------------------------------------
// The state and its view
// ---------------------------------------------------------------------------

/// The full sequencer state: ledger, governance configuration and protocol
/// parameters.  A value of this type is the committed state of one height,
/// or a working overlay derived from it.
pub struct State {
    pub balances: Vec<BalanceEntry>,
    pub nonces: Vec<NonceEntry>,
    pub fee_assets: Vec<Vec<u8>>,
    pub relayers: Vec<Vec<u8>>,
    pub bridges: Vec<BridgeEntry>,
    pub validators: Vec<ValidatorEntry>,
    pub sudo_address: Vec<u8>,
    pub ibc_sudo_address: Vec<u8>,
    pub native_asset: Vec<u8>,
    pub address_prefix: Vec<u8>,
    pub fees: FeeSchedule,
    pub ibc_params: IbcParams,
}

/// Mathematical view of a [`State`]: the same components over sequences.
#[verifier::ext_equal]
pub struct StateView {
    pub balances: Seq<BalView>,
    pub nonces: Seq<NonceView>,
    pub fee_assets: Seq<Seq<u8>>,
    pub relayers: Seq<Seq<u8>>,
    pub bridges: Seq<BridgeView>,
    pub validators: Seq<ValidatorView>,
    pub sudo_address: Seq<u8>,
    pub ibc_sudo_address: Seq<u8>,
    pub native_asset: Seq<u8>,
    pub address_prefix: Seq<u8>,
    pub fees: FeeSchedule,
    pub ibc_params: IbcParams,
}

/// View of a balance table.
pub open spec fn bals_view(v: Seq<BalanceEntry>) -> Seq<BalView> {
    v.map_values(|e: BalanceEntry| e@)
}

/// View of a nonce table.
pub open spec fn nonces_view(v: Seq<NonceEntry>) -> Seq<NonceView> {
    v.map_values(|e: NonceEntry| e@)
}

/// View of a membership column.
pub open spec fn elems_view(v: Seq<Vec<u8>>) -> Seq<Seq<u8>> {
    v.map_values(|b: Vec<u8>| b@)
}

/// View of a bridge table.
pub open spec fn bridges_view(v: Seq<BridgeEntry>) -> Seq<BridgeView> {
    v.map_values(|e: BridgeEntry| e@)
}

/// View of a validator table.
pub open spec fn validators_view(v: Seq<ValidatorEntry>) -> Seq<ValidatorView> {
    v.map_values(|e: ValidatorEntry| e@)
}

impl View for State {
    type V = StateView;

    open spec fn view(&self) -> StateView {
        StateView {
            balances: bals_view(self.balances@),
            nonces: nonces_view(self.nonces@),
            fee_assets: elems_view(self.fee_assets@),
            relayers: elems_view(self.relayers@),
            bridges: bridges_view(self.bridges@),
            validators: validators_view(self.validators@),
            sudo_address: self.sudo_address@,
            ibc_sudo_address: self.ibc_sudo_address@,
            native_asset: self.native_asset@,
            address_prefix: self.address_prefix@,
            fees: self.fees,
            ibc_params: self.ibc_params,
        }
    }
}

// ---------------------------------------------------------------------------
// Key functions and component lookups
// ---------------------------------------------------------------------------

/// Key of a balance cell: the owning address and the asset.
pub open spec fn bal_key() -> spec_fn(BalView) -> (Seq<u8>, Seq<u8>) {
    |e: BalView| (e.address, e.asset)
}

/// Key of a nonce entry: the address.
pub open spec fn nonce_key() -> spec_fn(NonceView) -> Seq<u8> {
    |e: NonceView| e.address
}

/// Key of a bridge account: its address.
pub open spec fn bridge_key() -> spec_fn(BridgeView) -> Seq<u8> {
    |e: BridgeView| e.address
}

/// Key of a validator entry: its public key.
pub open spec fn validator_key() -> spec_fn(ValidatorView) -> Seq<u8> {
    |e: ValidatorView| e.pub_key
}

/// Key of a membership-set element: the element itself.
pub open spec fn elem_key() -> spec_fn(Seq<u8>) -> Seq<u8> {
    |x: Seq<u8>| x
}

/// The balance of `asset` held by `addr`; zero when no cell exists.
pub open spec fn balance_of(s: StateView, addr: Seq<u8>, asset: Seq<u8>) -> u128 {
    if has_key(s.balances, bal_key(), (addr, asset)) {
        s.balances[idx_of(s.balances, bal_key(), (addr, asset))].amount
    } else {
        0
    }
}

/// The stored nonce of `addr`; zero when the address never transacted.
pub open spec fn nonce_of(s: StateView, addr: Seq<u8>) -> u32 {
    if has_key(s.nonces, nonce_key(), addr) {
        s.nonces[idx_of(s.nonces, nonce_key(), addr)].nonce
    } else {
        0
    }
}

/// Whether `asset` is in the fee-asset allow-list.
pub open spec fn is_fee_asset(s: StateView, asset: Seq<u8>) -> bool {
    has_key(s.fee_assets, elem_key(), asset)
}

/// Whether `addr` is an allowed relayer address.
pub open spec fn is_relayer(s: StateView, addr: Seq<u8>) -> bool {
    has_key(s.relayers, elem_key(), addr)
}

/// Whether a bridge account is registered at `addr`.
pub open spec fn has_bridge(s: StateView, addr: Seq<u8>) -> bool {
    has_key(s.bridges, bridge_key(), addr)
}

/// The bridge account registered at `addr`; meaningful only under
/// [`has_bridge`].
pub open spec fn bridge_of(s: StateView, addr: Seq<u8>) -> BridgeView {
    s.bridges[idx_of(s.bridges, bridge_key(), addr)]
}

/// Well-formedness of a state view: every table's keys are pairwise
/// distinct, so each address, asset or public key owns at most one entry.
pub open spec fn wf_state(s: StateView) -> bool {
    &&& wf_keys(s.balances, bal_key())
    &&& wf_keys(s.nonces, nonce_key())
    &&& wf_keys(s.fee_assets, elem_key())
    &&& wf_keys(s.relayers, elem_key())
    &&& wf_keys(s.bridges, bridge_key())
    &&& wf_keys(s.validators, validator_key())
}

// ---------------------------------------------------------------------------
// Spec-level transitions of the primitive operations
// ---------------------------------------------------------------------------

/// State after setting the balance cell `(addr, asset)` to `amount`.
pub open spec fn spec_put_balance(s: StateView, addr: Seq<u8>, asset: Seq<u8>, amount: u128)
    -> StateView {
    StateView {
        balances: upsert(
            s.balances,
            bal_key(),
            BalView { address: addr, asset: asset, amount: amount },
        ),
        ..s
    }
}

/// State after setting the nonce of `addr` to `nonce`.
pub open spec fn spec_put_nonce(s: StateView, addr: Seq<u8>, nonce: u32) -> StateView {
    StateView {
        nonces: upsert(s.nonces, nonce_key(), NonceView { address: addr, nonce: nonce }),
        ..s
    }
}

/// State after adding `asset` to the fee-asset allow-list (a no-op when it
/// is already listed).
pub open spec fn spec_add_fee_asset(s: StateView, asset: Seq<u8>) -> StateView {
    StateView { fee_assets: upsert(s.fee_assets, elem_key(), asset), ..s }
}

/// State after removing `asset` from the fee-asset allow-list.
pub open spec fn spec_remove_fee_asset(s: StateView, asset: Seq<u8>) -> StateView {
    StateView { fee_assets: remove_key(s.fee_assets, elem_key(), asset), ..s }
}

/// State after adding `addr` to the relayer set (a no-op when present).
pub open spec fn spec_add_relayer(s: StateView, addr: Seq<u8>) -> StateView {
    StateView { relayers: upsert(s.relayers, elem_key(), addr), ..s }
}

/// State after removing `addr` from the relayer set.
pub open spec fn spec_remove_relayer(s: StateView, addr: Seq<u8>) -> StateView {
    StateView { relayers: remove_key(s.relayers, elem_key(), addr), ..s }
}

/// State after registering or replacing the bridge account at the entry's
/// address.
pub open spec fn spec_put_bridge(s: StateView, b: BridgeView) -> StateView {
    StateView { bridges: upsert(s.bridges, bridge_key(), b), ..s }
}

/// State after recording a validator's voting power.
pub open spec fn spec_put_validator(s: StateView, v: ValidatorView) -> StateView {
    StateView { validators: upsert(s.validators, validator_key(), v), ..s }
}

// ---------------------------------------------------------------------------
// Effect lemmas
// ---------------------------------------------------------------------------

/// Setting one balance cell changes that cell alone and preserves
/// well-formedness.
pub proof fn lemma_put_balance(s: StateView, addr: Seq<u8>, asset: Seq<u8>, amount: u128)
    requires
        wf_state(s),
    ensures
        wf_state(spec_put_balance(s, addr, asset, amount)),
        forall|a2: Seq<u8>, t2: Seq<u8>|
            #[trigger] balance_of(spec_put_balance(s, addr, asset, amount), a2, t2) == (
            if a2 == addr && t2 == asset {
                amount
            } else {
                balance_of(s, a2, t2)
            }),
{
    let e = BalView { address: addr, asset: asset, amount: amount };
    lemma_upsert(s.balances, bal_key(), e);
    let r = spec_put_balance(s, addr, asset, amount);
    assert forall|a2: Seq<u8>, t2: Seq<u8>|
        #[trigger] balance_of(r, a2, t2) == (
        if a2 == addr && t2 == asset {
            amount
        } else {
            balance_of(s, a2, t2)
        }) by {
        if a2 == addr && t2 == asset {
            assert(r.balances[idx_of(r.balances, bal_key(), (a2, t2))] == e);
        } else {
            assert((a2, t2) != (addr, asset));
        }
    }
}

/// Setting one nonce changes that address's nonce alone and preserves
/// well-formedness.
pub proof fn lemma_put_nonce(s: StateView, addr: Seq<u8>, nonce: u32)
    requires
        wf_state(s),
    ensures
        wf_state(spec_put_nonce(s, addr, nonce)),
        forall|a2: Seq<u8>|
            #[trigger] nonce_of(spec_put_nonce(s, addr, nonce), a2) == (
            if a2 == addr {
                nonce
            } else {
                nonce_of(s, a2)
            }),
{
    let e = NonceView { address: addr, nonce: nonce };
    lemma_upsert(s.nonces, nonce_key(), e);
    let r = spec_put_nonce(s, addr, nonce);
    assert forall|a2: Seq<u8>|
        #[trigger] nonce_of(r, a2) == (
        if a2 == addr {
            nonce
        } else {
            nonce_of(s, a2)
        }) by {
        if a2 == addr {
            assert(r.nonces[idx_of(r.nonces, nonce_key(), a2)] == e);
        }
    }
}

/// Adding a fee asset makes exactly it allowed and preserves
/// well-formedness.
pub proof fn lemma_add_fee_asset(s: StateView, asset: Seq<u8>)
    requires
        wf_state(s),
    ensures
        wf_state(spec_add_fee_asset(s, asset)),
        forall|t2: Seq<u8>|
            #[trigger] is_fee_asset(spec_add_fee_asset(s, asset), t2) == (t2 == asset
                || is_fee_asset(s, t2)),
{
    lemma_upsert(s.fee_assets, elem_key(), asset);
}

/// Removing a fee asset disallows exactly it and preserves
/// well-formedness.
pub proof fn lemma_remove_fee_asset(s: StateView, asset: Seq<u8>)
    requires
        wf_state(s),
    ensures
        wf_state(spec_remove_fee_asset(s, asset)),
        forall|t2: Seq<u8>|
            #[trigger] is_fee_asset(spec_remove_fee_asset(s, asset), t2) == (t2 != asset
                && is_fee_asset(s, t2)),
{
    lemma_remove_key(s.fee_assets, elem_key(), asset);
}

/// Adding a relayer address admits exactly it and preserves
/// well-formedness.
pub proof fn lemma_add_relayer(s: StateView, addr: Seq<u8>)
    requires
        wf_state(s),
    ensures
        wf_state(spec_add_relayer(s, addr)),
        forall|a2: Seq<u8>|
            #[trigger] is_relayer(spec_add_relayer(s, addr), a2) == (a2 == addr || is_relayer(
                s,
                a2,
            )),
{
    lemma_upsert(s.relayers, elem_key(), addr);
}

/// Removing a relayer address excludes exactly it and preserves
/// well-formedness.
pub proof fn lemma_remove_relayer(s: StateView, addr: Seq<u8>)
    requires
        wf_state(s),
    ensures
        wf_state(spec_remove_relayer(s, addr)),
        forall|a2: Seq<u8>|
            #[trigger] is_relayer(spec_remove_relayer(s, addr), a2) == (a2 != addr && is_relayer(
                s,
                a2,
            )),
{
    lemma_remove_key(s.relayers, elem_key(), addr);
}

/// Registering or replacing a bridge account changes that address's bridge
/// entry alone and preserves well-formedness.
pub proof fn lemma_put_bridge(s: StateView, b: BridgeView)
    requires
        wf_state(s),
    ensures
        wf_state(spec_put_bridge(s, b)),
        has_bridge(spec_put_bridge(s, b), b.address),
        bridge_of(spec_put_bridge(s, b), b.address) == b,
        forall|a2: Seq<u8>|
            a2 != b.address ==> #[trigger] has_bridge(spec_put_bridge(s, b), a2) == has_bridge(
                s,
                a2,
            ),
        forall|a2: Seq<u8>|
            a2 != b.address && has_bridge(s, a2) ==> #[trigger] bridge_of(
                spec_put_bridge(s, b),
                a2,
            ) == bridge_of(s, a2),
{
    lemma_upsert(s.bridges, bridge_key(), b);
}

/// Recording a validator's power changes that public key's entry alone and
/// preserves well-formedness.
pub proof fn lemma_put_validator(s: StateView, v: ValidatorView)
    requires
        wf_state(s),
    ensures
        wf_state(spec_put_validator(s, v)),
{
    lemma_upsert(s.validators, validator_key(), v);
}

// ---------------------------------------------------------------------------
// Executable operations
// ---------------------------------------------------------------------------

impl State {
    /// Index of the balance cell for `(addr, asset)`, if one exists.
    fn find_balance(&self, addr: &Vec<u8>, asset: &Vec<u8>) -> (r: Option<usize>)
        ensures
            match r {
                Some(i) => i < self.balances.len() && self@.balances[i as int].address == addr@
                    && self@.balances[i as int].asset == asset@,
                None => !has_key(self@.balances, bal_key(), (addr@, asset@)),
            },
    {
        let mut i: usize = 0;
        while i < self.balances.len()
            invariant
                i <= self.balances.len(),
                forall|j: int|
                    0 <= j < i ==> !(#[trigger] self@.balances[j].address == addr@
                        && self@.balances[j].asset == asset@),
            decreases self.balances.len() - i,
        {
            if bytes_eq(&self.balances[i].address, addr) && bytes_eq(&self.balances[i].asset, asset)
            {
                return Some(i);
            }
            i += 1;
        }
        proof {
            assert forall|j: int| 0 <= j < self@.balances.len() implies bal_key()(
                #[trigger] self@.balances[j],
            ) != (addr@, asset@) by {
                assert(!(self@.balances[j].address == addr@ && self@.balances[j].asset == asset@));
            }
        }
        None
    }

    /// The balance of `asset` held by `addr`.
    pub fn get_balance(&self, addr: &Vec<u8>, asset: &Vec<u8>) -> (r: u128)
        requires
            wf_state(self@),
        ensures
            r == balance_of(self@, addr@, asset@),
    {
        match self.find_balance(addr, asset) {
            Some(i) => {
                proof {
                    assert(bal_key()(self@.balances[i as int]) == (addr@, asset@));
                    lemma_idx_of(self@.balances, bal_key(), (addr@, asset@));
                }
                self.balances[i].amount
            },
            None => 0,
        }
    }

    /// Sets the balance cell `(addr, asset)` to `amount`.
    pub fn put_balance(&mut self, addr: &Vec<u8>, asset: &Vec<u8>, amount: u128)
        requires
            wf_state(old(self)@),
        ensures
            final(self)@ == spec_put_balance(old(self)@, addr@, asset@, amount),
    {
        let e = BalanceEntry { address: copy_bytes(addr), asset: copy_bytes(asset), amount };
        let ghost ev = BalView { address: addr@, asset: asset@, amount };
        match self.find_balance(addr, asset) {
            Some(i) => {
                proof {
                    assert(bal_key()(self@.balances[i as int]) == (addr@, asset@));
                    lemma_idx_of(self@.balances, bal_key(), (addr@, asset@));
                }
                self.balances[i] = e;
                proof {
                    assert(self@.balances =~= old(self)@.balances.update(i as int, ev));
                    assert(self@ =~= spec_put_balance(old(self)@, addr@, asset@, amount));
                }
            },
            None => {
                self.balances.push(e);
                proof {
                    assert(self@.balances =~= old(self)@.balances.push(ev));
                    assert(self@ =~= spec_put_balance(old(self)@, addr@, asset@, amount));
                }
            },
        }
    }

    /// Index of the nonce entry for `addr`, if one exists.
    fn find_nonce(&self, addr: &Vec<u8>) -> (r: Option<usize>)
        ensures
            match r {
                Some(i) => i < self.nonces.len() && self@.nonces[i as int].address == addr@,
                None => !has_key(self@.nonces, nonce_key(), addr@),
            },
    {
        let mut i: usize = 0;
        while i < self.nonces.len()
            invariant
                i <= self.nonces.len(),
                forall|j: int| 0 <= j < i ==> !(#[trigger] self@.nonces[j].address == addr@),
            decreases self.nonces.len() - i,
        {
            if bytes_eq(&self.nonces[i].address, addr) {
                return Some(i);
            }
            i += 1;
        }
        proof {
            assert forall|j: int| 0 <= j < self@.nonces.len() implies nonce_key()(
                #[trigger] self@.nonces[j],
            ) != addr@ by {
                assert(!(self@.nonces[j].address == addr@));
            }
        }
        None
    }

    /// The stored nonce of `addr`.
    pub fn get_nonce(&self, addr: &Vec<u8>) -> (r: u32)
        requires
            wf_state(self@),
        ensures
            r == nonce_of(self@, addr@),
    {
        match self.find_nonce(addr) {
            Some(i) => {
                proof {
                    assert(nonce_key()(self@.nonces[i as int]) == addr@);
                    lemma_idx_of(self@.nonces, nonce_key(), addr@);
                }
                self.nonces[i].nonce
            },
            None => 0,
        }
    }

    /// Sets the stored nonce of `addr` to `nonce`.
    pub fn put_nonce(&mut self, addr: &Vec<u8>, nonce: u32)
        requires
            wf_state(old(self)@),
        ensures
            final(self)@ == spec_put_nonce(old(self)@, addr@, nonce),
    {
        let e = NonceEntry { address: copy_bytes(addr), nonce };
        let ghost ev = NonceView { address: addr@, nonce };
        match self.find_nonce(addr) {
            Some(i) => {
                proof {
                    assert(nonce_key()(self@.nonces[i as int]) == addr@);
                    lemma_idx_of(self@.nonces, nonce_key(), addr@);
                }
                self.nonces[i] = e;
                proof {
                    assert(self@.nonces =~= old(self)@.nonces.update(i as int, ev));
                    assert(self@ =~= spec_put_nonce(old(self)@, addr@, nonce));
                }
            },
            None => {
                self.nonces.push(e);
                proof {
                    assert(self@.nonces =~= old(self)@.nonces.push(ev));
                    assert(self@ =~= spec_put_nonce(old(self)@, addr@, nonce));
                }
            },
        }
    }

    /// Index of `x` in a membership column, if present.
    fn find_elem(column: &Vec<Vec<u8>>, x: &Vec<u8>) -> (r: Option<usize>)
        ensures
            match r {
                Some(i) => i < column.len() && column@[i as int]@ == x@,
                None => !has_key(elems_view(column@), elem_key(), x@),
            },
    {
        let mut i: usize = 0;
        while i < column.len()
            invariant
                i <= column.len(),
                forall|j: int| 0 <= j < i ==> !(#[trigger] column@[j]@ == x@),
            decreases column.len() - i,
        {
            if bytes_eq(&column[i], x) {
                return Some(i);
            }
            i += 1;
        }
        proof {
            let m = elems_view(column@);
            assert forall|j: int| 0 <= j < m.len() implies elem_key()(#[trigger] m[j]) != x@ by {
                assert(m[j] == column@[j]@);
            }
        }
        None
    }

    /// Whether `asset` is in the fee-asset allow-list.
    pub fn has_fee_asset(&self, asset: &Vec<u8>) -> (r: bool)
        ensures
            r == is_fee_asset(self@, asset@),
    {
        match Self::find_elem(&self.fee_assets, asset) {
            Some(i) => {
                proof {
                    assert(elem_key()(self@.fee_assets[i as int]) == asset@);
                }
                true
            },
            None => false,
        }
    }

    /// Adds `asset` to the fee-asset allow-list.
    pub fn add_fee_asset(&mut self, asset: &Vec<u8>)
        requires
            wf_state(old(self)@),
        ensures
            final(self)@ == spec_add_fee_asset(old(self)@, asset@),
    {
        match Self::find_elem(&self.fee_assets, asset) {
            Some(i) => {
                proof {
                    assert(elem_key()(self@.fee_assets[i as int]) == asset@);
                    lemma_idx_of(self@.fee_assets, elem_key(), asset@);
                    assert(upsert(self@.fee_assets, elem_key(), asset@) =~= self@.fee_assets);
                    assert(self@ =~= spec_add_fee_asset(old(self)@, asset@));
                }
            },
            None => {
                self.fee_assets.push(copy_bytes(asset));
                proof {
                    assert(self@.fee_assets =~= old(self)@.fee_assets.push(asset@));
                    assert(self@ =~= spec_add_fee_asset(old(self)@, asset@));
                }
            },
        }
    }

    /// Removes `asset` from the fee-asset allow-list.
    pub fn remove_fee_asset(&mut self, asset: &Vec<u8>)
        requires
            wf_state(old(self)@),
        ensures
            final(self)@ == spec_remove_fee_asset(old(self)@, asset@),
    {
        match Self::find_elem(&self.fee_assets, asset) {
            Some(i) => {
                proof {
                    assert(elem_key()(self@.fee_assets[i as int]) == asset@);
                    lemma_idx_of(self@.fee_assets, elem_key(), asset@);
                }
                self.fee_assets.remove(i);
                proof {
                    assert(self@.fee_assets =~= old(self)@.fee_assets.remove(i as int));
                    assert(self@ =~= spec_remove_fee_asset(old(self)@, asset@));
                }
            },
            None => {
                proof {
                    assert(self@ =~= spec_remove_fee_asset(old(self)@, asset@));
                }
            },
        }
    }

    /// Whether `addr` is an allowed relayer address.
    pub fn has_relayer(&self, addr: &Vec<u8>) -> (r: bool)
        ensures
            r == is_relayer(self@, addr@),
    {
        match Self::find_elem(&self.relayers, addr) {
            Some(i) => {
                proof {
                    assert(elem_key()(self@.relayers[i as int]) == addr@);
                }
                true
            },
            None => false,
        }
    }

    /// Adds `addr` to the relayer set.
    pub fn add_relayer(&mut self, addr: &Vec<u8>)
        requires
            wf_state(old(self)@),
        ensures
            final(self)@ == spec_add_relayer(old(self)@, addr@),
    {
        match Self::find_elem(&self.relayers, addr) {
            Some(i) => {
                proof {
                    assert(elem_key()(self@.relayers[i as int]) == addr@);
                    lemma_idx_of(self@.relayers, elem_key(), addr@);
                    assert(upsert(self@.relayers, elem_key(), addr@) =~= self@.relayers);
                    assert(self@ =~= spec_add_relayer(old(self)@, addr@));
                }
            },
            None => {
                self.relayers.push(copy_bytes(addr));
                proof {
                    assert(self@.relayers =~= old(self)@.relayers.push(addr@));
                    assert(self@ =~= spec_add_relayer(old(self)@, addr@));
                }
            },
        }
    }

    /// Removes `addr` from the relayer set.
    pub fn remove_relayer(&mut self, addr: &Vec<u8>)
        requires
            wf_state(old(self)@),
        ensures
            final(self)@ == spec_remove_relayer(old(self)@, addr@),
    {
        match Self::find_elem(&self.relayers, addr) {
            Some(i) => {
                proof {
                    assert(elem_key()(self@.relayers[i as int]) == addr@);
                    lemma_idx_of(self@.relayers, elem_key(), addr@);
                }
                self.relayers.remove(i);
                proof {
                    assert(self@.relayers =~= old(self)@.relayers.remove(i as int));
                    assert(self@ =~= spec_remove_relayer(old(self)@, addr@));
                }
            },
            None => {
                proof {
                    assert(self@ =~= spec_remove_relayer(old(self)@, addr@));
                }
            },
        }
    }

    /// Index of the bridge account at `addr`, if one is registered.
    fn find_bridge(&self, addr: &Vec<u8>) -> (r: Option<usize>)
        ensures
            match r {
                Some(i) => i < self.bridges.len() && self@.bridges[i as int].address == addr@,
                None => !has_key(self@.bridges, bridge_key(), addr@),
            },
    {
        let mut i: usize = 0;
        while i < self.bridges.len()
            invariant
                i <= self.bridges.len(),
                forall|j: int| 0 <= j < i ==> !(#[trigger] self@.bridges[j].address == addr@),
            decreases self.bridges.len() - i,
        {
            if bytes_eq(&self.bridges[i].address, addr) {
                return Some(i);
            }
            i += 1;
        }
        proof {
            assert forall|j: int| 0 <= j < self@.bridges.len() implies bridge_key()(
                #[trigger] self@.bridges[j],
            ) != addr@ by {
                assert(!(self@.bridges[j].address == addr@));
            }
        }
        None
    }

    /// A copy of the bridge account registered at `addr`, if any.
    pub fn get_bridge(&self, addr: &Vec<u8>) -> (r: Option<BridgeEntry>)
        requires
            wf_state(self@),
        ensures
            match r {
                Some(b) => has_bridge(self@, addr@) && b@ == bridge_of(self@, addr@),
                None => !has_bridge(self@, addr@),
            },
    {
        match self.find_bridge(addr) {
            Some(i) => {
                proof {
                    assert(bridge_key()(self@.bridges[i as int]) == addr@);
                    lemma_idx_of(self@.bridges, bridge_key(), addr@);
                }
                let b = &self.bridges[i];
                Some(
                    BridgeEntry {
                        address: copy_bytes(&b.address),
                        rollup_id: copy_bytes(&b.rollup_id),
                        asset: copy_bytes(&b.asset),
                        sudo_address: copy_bytes(&b.sudo_address),
                        withdrawer_address: copy_bytes(&b.withdrawer_address),
                    },
                )
            },
            None => None,
        }
    }

    /// Registers or replaces the bridge account at the entry's address.
    pub fn put_bridge(&mut self, b: BridgeEntry)
        requires
            wf_state(old(self)@),
        ensures
            final(self)@ == spec_put_bridge(old(self)@, b@),
    {
        let ghost bv = b@;
        match self.find_bridge(&b.address) {
            Some(i) => {
                proof {
                    assert(bridge_key()(self@.bridges[i as int]) == bv.address);
                    lemma_idx_of(self@.bridges, bridge_key(), bv.address);
                }
                self.bridges[i] = b;
                proof {
                    assert(self@.bridges =~= old(self)@.bridges.update(i as int, bv));
                    assert(self@ =~= spec_put_bridge(old(self)@, bv));
                }
            },
            None => {
                self.bridges.push(b);
                proof {
                    assert(self@.bridges =~= old(self)@.bridges.push(bv));
                    assert(self@ =~= spec_put_bridge(old(self)@, bv));
                }
            },
        }
    }

    /// Records a validator's voting power, keyed by public key.
    pub fn put_validator(&mut self, v: ValidatorEntry)
        requires
            wf_state(old(self)@),
        ensures
            final(self)@ == spec_put_validator(old(self)@, v@),
    {
        let ghost vv = v@;
        let mut i: usize = 0;
        while i < self.validators.len()
            invariant
                i <= self.validators.len(),
                forall|j: int| 0 <= j < i ==> !(#[trigger] self@.validators[j].pub_key == v@.pub_key),
                v@ == vv,
                self@ == old(self)@,
                wf_state(old(self)@),
            decreases self.validators.len() - i,
        {
            if bytes_eq(&self.validators[i].pub_key, &v.pub_key) {
                proof {
                    assert(validator_key()(self@.validators[i as int]) == vv.pub_key);
                    lemma_idx_of(self@.validators, validator_key(), vv.pub_key);
                }
                self.validators[i] = v;
                proof {
                    assert(self@.validators =~= old(self)@.validators.update(i as int, vv));
                    assert(self@ =~= spec_put_validator(old(self)@, vv));
                }
                return;
            }
            i += 1;
        }
        proof {
            assert forall|j: int| 0 <= j < self@.validators.len() implies validator_key()(
                #[trigger] self@.validators[j],
            ) != vv.pub_key by {
                assert(!(self@.validators[j].pub_key == vv.pub_key));
            }
        }
        self.validators.push(v);
        proof {
            assert(self@.validators =~= old(self)@.validators.push(vv));
            assert(self@ =~= spec_put_validator(old(self)@, vv));
        }
    }

    /// A copy-on-write snapshot: a fresh state value with the same view.
    /// Transaction atomicity rests on this: a transaction executes against a
    /// snapshot that is adopted on success and dropped on failure.
    pub fn snapshot(&self) -> (r: State)
        ensures
            r@ == self@,
    {
        let r = State {
            balances: copy_balance_vec(&self.balances),
            nonces: copy_nonce_vec(&self.nonces),
            fee_assets: copy_bytes_vec(&self.fee_assets),
            relayers: copy_bytes_vec(&self.relayers),
            bridges: copy_bridge_vec(&self.bridges),
            validators: copy_validator_vec(&self.validators),
            sudo_address: copy_bytes(&self.sudo_address),
            ibc_sudo_address: copy_bytes(&self.ibc_sudo_address),
            native_asset: copy_bytes(&self.native_asset),
            address_prefix: copy_bytes(&self.address_prefix),
            fees: self.fees,
            ibc_params: self.ibc_params,
        };
        proof {
            assert(r@ =~= self@);
        }
        r
    }

    /// Replaces the authority sudo address.
    pub fn set_sudo_address(&mut self, addr: &Vec<u8>)
        ensures
            final(self)@ == (StateView { sudo_address: addr@, ..old(self)@ }),
    {
        self.sudo_address = copy_bytes(addr);
        proof {
            assert(self@ =~= (StateView { sudo_address: addr@, ..old(self)@ }));
        }
    }
}

/// Copies a balance table, entry by entry.
fn copy_balance_vec(v: &Vec<BalanceEntry>) -> (r: Vec<BalanceEntry>)
    ensures
        bals_view(r@) == bals_view(v@),
{
    let mut r: Vec<BalanceEntry> = Vec::new();
    let mut i: usize = 0;
    while i < v.len()
        invariant
            i <= v.len(),
            r@.len() == i as int,
            bals_view(r@) == bals_view(v@).take(i as int),
        decreases v.len() - i,
    {
        let e = &v[i];
        r.push(
            BalanceEntry {
                address: copy_bytes(&e.address),
                asset: copy_bytes(&e.asset),
                amount: e.amount,
            },
        );
        proof {
            assert(bals_view(r@) =~= bals_view(v@).take((i + 1) as int));
        }
        i += 1;
    }
    proof {
        assert(bals_view(v@).take(v@.len() as int) =~= bals_view(v@));
    }
    r
}

/// Copies a nonce table, entry by entry.
fn copy_nonce_vec(v: &Vec<NonceEntry>) -> (r: Vec<NonceEntry>)
    ensures
        nonces_view(r@) == nonces_view(v@),
{
    let mut r: Vec<NonceEntry> = Vec::new();
    let mut i: usize = 0;
    while i < v.len()
        invariant
            i <= v.len(),
            r@.len() == i as int,
            nonces_view(r@) == nonces_view(v@).take(i as int),
        decreases v.len() - i,
    {
        let e = &v[i];
        r.push(NonceEntry { address: copy_bytes(&e.address), nonce: e.nonce });
        proof {
            assert(nonces_view(r@) =~= nonces_view(v@).take((i + 1) as int));
        }
        i += 1;
    }
    proof {
        assert(nonces_view(v@).take(v@.len() as int) =~= nonces_view(v@));
    }
    r
}

/// Copies a membership column, element by element.
fn copy_bytes_vec(v: &Vec<Vec<u8>>) -> (r: Vec<Vec<u8>>)
    ensures
        elems_view(r@) == elems_view(v@),
{
    let mut r: Vec<Vec<u8>> = Vec::new();
    let mut i: usize = 0;
    while i < v.len()
        invariant
            i <= v.len(),
            r@.len() == i as int,
            elems_view(r@) == elems_view(v@).take(i as int),
        decreases v.len() - i,
    {
        r.push(copy_bytes(&v[i]));
        proof {
            assert(elems_view(r@) =~= elems_view(v@).take((i + 1) as int));
        }
        i += 1;
    }
    proof {
        assert(elems_view(v@).take(v@.len() as int) =~= elems_view(v@));
    }
    r
}

/// Copies a bridge table, entry by entry.
fn copy_bridge_vec(v: &Vec<BridgeEntry>) -> (r: Vec<BridgeEntry>)
    ensures
        bridges_view(r@) == bridges_view(v@),
{
    let mut r: Vec<BridgeEntry> = Vec::new();
    let mut i: usize = 0;
    while i < v.len()
        invariant
            i <= v.len(),
            r@.len() == i as int,
            bridges_view(r@) == bridges_view(v@).take(i as int),
        decreases v.len() - i,
    {
        let e = &v[i];
        r.push(
            BridgeEntry {
                address: copy_bytes(&e.address),
                rollup_id: copy_bytes(&e.rollup_id),
                asset: copy_bytes(&e.asset),
                sudo_address: copy_bytes(&e.sudo_address),
                withdrawer_address: copy_bytes(&e.withdrawer_address),
            },
        );
        proof {
            assert(bridges_view(r@) =~= bridges_view(v@).take((i + 1) as int));
        }
        i += 1;
    }
    proof {
        assert(bridges_view(v@).take(v@.len() as int) =~= bridges_view(v@));
    }
    r
}

/// Copies a validator table, entry by entry.
fn copy_validator_vec(v: &Vec<ValidatorEntry>) -> (r: Vec<ValidatorEntry>)
    ensures
        validators_view(r@) == validators_view(v@),
{
    let mut r: Vec<ValidatorEntry> = Vec::new();
    let mut i: usize = 0;
    while i < v.len()
        invariant
            i <= v.len(),
            r@.len() == i as int,
            validators_view(r@) == validators_view(v@).take(i as int),
        decreases v.len() - i,
    {
        let e = &v[i];
        r.push(ValidatorEntry { pub_key: copy_bytes(&e.pub_key), power: e.power });
        proof {
            assert(validators_view(r@) =~= validators_view(v@).take((i + 1) as int));
        }
        i += 1;
    }
    proof {
        assert(validators_view(v@).take(v@.len() as int) =~= validators_view(v@));
    }
    r
}

} // verus!
