//! The application controller: genesis, interactive transaction execution,
//! block finalization, and the two-phase commit that makes a block's state
//! durable and recomputes the application hash.
//!
//! Every transition is specified as a pure function of the genesis document
//! and the transaction sequence, so independent instances agree bit for bit
//! on state and application hash.

use vstd::prelude::*;
use crate::actions::deps_view;
use crate::bytes_util::copy_bytes;
use crate::commitment::{deposits_root, deposits_root_of, rollup_data_root, rollup_data_root_of};
use crate::encode::{app_hash_of, compute_app_hash};
use crate::state::{lemma_add_fee_asset, lemma_add_relayer, lemma_put_balance, spec_add_fee_asset,
    spec_add_relayer, spec_put_balance, wf_state, State, StateView};
use crate::transaction::{apply_transaction, spec_apply_tx};
use crate::types::{AppError, Deposit, DepositView, FatalError, GenesisAccount, GenesisState,
    Transaction, TxError};

verus! {

/// The controller's phase: no state yet, a committed state ready for the
/// next block, a block overlay open for transactions, or a flushed overlay
/// awaiting the commit that makes it canonical.
#[derive(Clone, Copy, PartialEq, Eq, Structural, Debug)]
pub enum Phase {
    Uninitialized,
    Ready,
    BlockInProgress,
    Prepared,
}

/// The two commitment roots of a finalized block and its transaction
/// count, destined for the reserved leading block-data slots.
pub struct BlockSummary {
    pub rollup_data_root: Vec<u8>,
    pub deposit_root: Vec<u8>,
    pub tx_count: usize,
}

/// The application controller.  `committed` is the canonical state of the
/// last committed height; `working` is the single open overlay; the
/// deposits of the current block accumulate beside it.
pub struct App {
    pub phase: Phase,
    pub committed: State,
    pub working: State,
    pub block_deposits: Vec<Deposit>,
    pub app_hash: Vec<u8>,
    pub next_hash: Vec<u8>,
}

/// The controller's invariant: once initialized, both states are well
/// formed, the stored application hash is the hash of the committed state,
/// and a prepared overlay's flushed hash is the hash of the working state.
pub open spec fn app_inv(a: App) -> bool {
    a.phase != Phase::Uninitialized ==> {
        &&& wf_state(a.committed@)
        &&& wf_state(a.working@)
        &&& a.app_hash@ == app_hash_of(a.committed@)
        &&& (a.phase == Phase::Prepared ==> a.next_hash@ == app_hash_of(a.working@))
    }
}

// ---------------------------------------------------------------------------
// Genesis
// ---------------------------------------------------------------------------

/// The state a genesis document describes before any table is seeded:
/// empty ledger, the document's governance addresses, denomination, prefix,
/// fee schedule and protocol parameters.
pub open spec fn genesis_base(g: GenesisState) -> StateView {
    StateView {
        balances: Seq::empty(),
        nonces: Seq::empty(),
        fee_assets: Seq::empty(),
        relayers: Seq::empty(),
        bridges: Seq::empty(),
        validators: Seq::empty(),
        sudo_address: g.authority_sudo_address@,
        ibc_sudo_address: g.ibc_sudo_address@,
        native_asset: g.native_asset@,
        address_prefix: g.address_prefix@,
        fees: g.fees,
        ibc_params: g.ibc_params,
    }
}

/// Seeds the genesis accounts with their native-asset balances, in
/// document order.
pub open spec fn seed_accounts(s: StateView, accounts: Seq<GenesisAccount>, native: Seq<u8>)
    -> StateView
    decreases accounts.len(),
{
    if accounts.len() == 0 {
        s
    } else {
        spec_put_balance(
            seed_accounts(s, accounts.drop_last(), native),
            accounts.last().address@,
            native,
            accounts.last().balance,
        )
    }
}

/// Seeds the fee-asset allow-list, in document order.
pub open spec fn seed_fee_assets(s: StateView, assets: Seq<Vec<u8>>) -> StateView
    decreases assets.len(),
{
    if assets.len() == 0 {
        s
    } else {
        spec_add_fee_asset(seed_fee_assets(s, assets.drop_last()), assets.last()@)
    }
}

/// Seeds the allowed relayer addresses, in document order.
pub open spec fn seed_relayers(s: StateView, addrs: Seq<Vec<u8>>) -> StateView
    decreases addrs.len(),
{
    if addrs.len() == 0 {
        s
    } else {
        spec_add_relayer(seed_relayers(s, addrs.drop_last()), addrs.last()@)
    }
}

/// The initial committed state a genesis document seeds, at height zero.
pub open spec fn spec_genesis(g: GenesisState) -> StateView {
    seed_relayers(
        seed_fee_assets(
            seed_accounts(genesis_base(g), g.accounts@, g.native_asset@),
            g.allowed_fee_assets@,
        ),
        g.ibc_relayer_addresses@,
    )
}

/// Builds the genesis state value.
fn build_genesis(g: &GenesisState) -> (r: State)
    ensures
        r@ == spec_genesis(*g),
        wf_state(r@),
{
    let mut st = State {
        balances: Vec::new(),
        nonces: Vec::new(),
        fee_assets: Vec::new(),
        relayers: Vec::new(),
        bridges: Vec::new(),
        validators: Vec::new(),
        sudo_address: copy_bytes(&g.authority_sudo_address),
        ibc_sudo_address: copy_bytes(&g.ibc_sudo_address),
        native_asset: copy_bytes(&g.native_asset),
        address_prefix: copy_bytes(&g.address_prefix),
        fees: g.fees,
        ibc_params: g.ibc_params,
    };
    proof {
        assert(st@ =~= genesis_base(*g));
        assert(wf_state(st@));
    }
    let native = copy_bytes(&g.native_asset);
    let mut i: usize = 0;
    proof {
        assert(g.accounts@.take(0) =~= Seq::empty());
    }
    while i < g.accounts.len()
        invariant
            i <= g.accounts.len(),
            native@ == g.native_asset@,
            wf_state(st@),
            st@ == seed_accounts(genesis_base(*g), g.accounts@.take(i as int), g.native_asset@),
        decreases g.accounts.len() - i,
    {
        let a = &g.accounts[i];
        proof {
            lemma_put_balance(st@, a.address@, native@, a.balance);
        }
        st.put_balance(&a.address, &native, a.balance);
        proof {
            assert(g.accounts@.take((i + 1) as int).drop_last() =~= g.accounts@.take(i as int));
            assert(g.accounts@.take((i + 1) as int).last() == g.accounts@[i as int]);
        }
        i += 1;
    }
    proof {
        assert(g.accounts@.take(g.accounts@.len() as int) =~= g.accounts@);
    }
    let ghost seeded = st@;

    let mut i: usize = 0;
    proof {
        assert(g.allowed_fee_assets@.take(0) =~= Seq::empty());
    }
    while i < g.allowed_fee_assets.len()
        invariant
            i <= g.allowed_fee_assets.len(),
            wf_state(st@),
            st@ == seed_fee_assets(seeded, g.allowed_fee_assets@.take(i as int)),
        decreases g.allowed_fee_assets.len() - i,
    {
        proof {
            lemma_add_fee_asset(st@, g.allowed_fee_assets@[i as int]@);
        }
        st.add_fee_asset(&g.allowed_fee_assets[i]);
        proof {
            assert(g.allowed_fee_assets@.take((i + 1) as int).drop_last() =~= g.allowed_fee_assets@
                .take(i as int));
            assert(g.allowed_fee_assets@.take((i + 1) as int).last() == g.allowed_fee_assets@[
                i as int
            ]);
        }
        i += 1;
    }
    proof {
        assert(g.allowed_fee_assets@.take(g.allowed_fee_assets@.len() as int)
            =~= g.allowed_fee_assets@);
    }
    let ghost seeded = st@;

    let mut i: usize = 0;
    proof {
        assert(g.ibc_relayer_addresses@.take(0) =~= Seq::empty());
    }
    while i < g.ibc_relayer_addresses.len()
        invariant
            i <= g.ibc_relayer_addresses.len(),
            wf_state(st@),
            st@ == seed_relayers(seeded, g.ibc_relayer_addresses@.take(i as int)),
        decreases g.ibc_relayer_addresses.len() - i,
    {
        proof {
            lemma_add_relayer(st@, g.ibc_relayer_addresses@[i as int]@);
        }
        st.add_relayer(&g.ibc_relayer_addresses[i]);
        proof {
            assert(g.ibc_relayer_addresses@.take((i + 1) as int).drop_last()
                =~= g.ibc_relayer_addresses@.take(i as int));
            assert(g.ibc_relayer_addresses@.take((i + 1) as int).last()
                == g.ibc_relayer_addresses@[i as int]);
        }
        i += 1;
    }
    proof {
        assert(g.ibc_relayer_addresses@.take(g.ibc_relayer_addresses@.len() as int)
            =~= g.ibc_relayer_addresses@);
    }
    st
}

// ---------------------------------------------------------------------------
// Block execution
// ---------------------------------------------------------------------------

/// Executes a whole block's transaction list from a state: every
/// transaction must succeed, in order, or the block fails at the offending
/// index.
pub open spec fn spec_exec_block(s: StateView, txs: Seq<Transaction>) -> Result<
    (StateView, Seq<DepositView>),
    (int, TxError),
>
    decreases txs.len(),
{
    if txs.len() == 0 {
        Ok((s, Seq::<DepositView>::empty()))
    } else {
        match spec_apply_tx(s, txs[0]) {
            Err(e) => Err((0, e)),
            Ok(r1) => match spec_exec_block(r1.0, txs.skip(1)) {
                Err(p) => Err((p.0 + 1, p.1)),
                Ok(r2) => Ok((r2.0, r1.1 + r2.1)),
            },
        }
    }
}

impl App {
    /// A controller with no state: only genesis can move it forward.
    pub fn new() -> (a: App)
        ensures
            a.phase == Phase::Uninitialized,
            app_inv(a),
    {
        App {
            phase: Phase::Uninitialized,
            committed: State {
                balances: Vec::new(),
                nonces: Vec::new(),
                fee_assets: Vec::new(),
                relayers: Vec::new(),
                bridges: Vec::new(),
                validators: Vec::new(),
                sudo_address: Vec::new(),
                ibc_sudo_address: Vec::new(),
                native_asset: Vec::new(),
                address_prefix: Vec::new(),
                fees: crate::types::FeeSchedule {
                    transfer_base_fee: 0,
                    sequence_base_fee: 0,
                    sequence_byte_cost_multiplier: 0,
                    init_bridge_account_base_fee: 0,
                    bridge_lock_byte_cost_multiplier: 0,
                    bridge_sudo_change_fee: 0,
                },
                ibc_params: crate::types::IbcParams {
                    ibc_enabled: false,
                    inbound_ics20_transfers_enabled: false,
                    outbound_ics20_transfers_enabled: false,
                },
            },
            working: State {
                balances: Vec::new(),
                nonces: Vec::new(),
                fee_assets: Vec::new(),
                relayers: Vec::new(),
                bridges: Vec::new(),
                validators: Vec::new(),
                sudo_address: Vec::new(),
                ibc_sudo_address: Vec::new(),
                native_asset: Vec::new(),
                address_prefix: Vec::new(),
                fees: crate::types::FeeSchedule {
                    transfer_base_fee: 0,
                    sequence_base_fee: 0,
                    sequence_byte_cost_multiplier: 0,
                    init_bridge_account_base_fee: 0,
                    bridge_lock_byte_cost_multiplier: 0,
                    bridge_sudo_change_fee: 0,
                },
                ibc_params: crate::types::IbcParams {
                    ibc_enabled: false,
                    inbound_ics20_transfers_enabled: false,
                    outbound_ics20_transfers_enabled: false,
                },
            },
            block_deposits: Vec::new(),
            app_hash: Vec::new(),
            next_hash: Vec::new(),
        }
    }

    /// Consumes the genesis document: seeds the ledger, commits it as
    /// height zero, and derives the first application hash.  Fatal when
    /// called twice.
    pub fn init_chain(&mut self, g: &GenesisState) -> (r: Result<(), FatalError>)
        requires
            app_inv(*old(self)),
        ensures
            app_inv(*final(self)),
            old(self).phase != Phase::Uninitialized ==> (r matches Err(e) && e
                == FatalError::AlreadyInitialized && final(self).phase == old(self).phase
                && final(self).committed@ == old(self).committed@ && final(self).app_hash@ == old(self).app_hash@),
            old(self).phase == Phase::Uninitialized ==> r is Ok && final(self).phase == Phase::Ready
                && final(self).committed@ == spec_genesis(*g) && final(self).working@
                == spec_genesis(*g) && final(self).app_hash@ == app_hash_of(spec_genesis(*g)),
    {
        match self.phase {
            Phase::Uninitialized => {},
            _ => {
                return Err(FatalError::AlreadyInitialized);
            },
        }
        let st = build_genesis(g);
        self.working = st.snapshot();
        self.committed = st;
        self.app_hash = compute_app_hash(&self.committed);
        self.next_hash = Vec::new();
        self.block_deposits = Vec::new();
        self.phase = Phase::Ready;
        Ok(())
    }

    /// Executes one transaction against the open block overlay,
    /// atomically: a rejected transaction leaves the controller exactly as
    /// it was, fee and nonce included.  The first transaction after a
    /// commit opens a new block and clears the previous block's deposits.
    #[verifier::rlimit(100)]
    pub fn execute_transaction(&mut self, tx: &Transaction) -> (r: Result<(), AppError>)
        requires
            app_inv(*old(self)),
        ensures
            app_inv(*final(self)),
            (old(self).phase == Phase::Uninitialized || old(self).phase == Phase::Prepared) ==> (r
                matches Err(e) && e == AppError::Fatal(FatalError::InvalidPhase) && final(self).phase == old(self).phase && final(self).working@ == old(self).working@ && final(self).committed@ == old(self).committed@),
            (old(self).phase == Phase::Ready || old(self).phase == Phase::BlockInProgress)
                ==> match spec_apply_tx(old(self).working@, *tx) {
                Ok(res) => {
                    &&& r is Ok
                    &&& final(self).phase == Phase::BlockInProgress
                    &&& final(self).working@ == res.0
                    &&& final(self).committed@ == old(self).committed@
                    &&& final(self).app_hash@ == old(self).app_hash@
                    &&& deps_view(final(self).block_deposits@) == (if old(self).phase
                        == Phase::Ready {
                        res.1
                    } else {
                        deps_view(old(self).block_deposits@) + res.1
                    })
                },
                Err(e) => {
                    &&& (r matches Err(e2) && e2 == AppError::Rejected(e))
                    &&& final(self).phase == old(self).phase
                    &&& final(self).working@ == old(self).working@
                    &&& final(self).committed@ == old(self).committed@
                    &&& final(self).app_hash@ == old(self).app_hash@
                    &&& deps_view(final(self).block_deposits@) == deps_view(
                        old(self).block_deposits@,
                    )
                },
            },
    {
        match self.phase {
            Phase::Ready | Phase::BlockInProgress => {},
            _ => {
                return Err(AppError::Fatal(FatalError::InvalidPhase));
            },
        }
        match apply_transaction(&self.working, tx) {
            Err(e) => Err(AppError::Rejected(e)),
            Ok((s2, d2)) => {
                let mut d2 = d2;
                match self.phase {
                    Phase::Ready => {
                        self.block_deposits = d2;
                    },
                    _ => {
                        let ghost pre = self.block_deposits@;
                        let ghost d2v = d2@;
                        self.block_deposits.append(&mut d2);
                        proof {
                            assert(deps_view(self.block_deposits@) =~= deps_view(pre) + deps_view(
                                d2v,
                            ));
                        }
                    },
                }
                self.working = s2;
                self.phase = Phase::BlockInProgress;
                Ok(())
            },
        }
    }

    /// Consumes a finalized block's ordered transaction list: executes it
    /// from the committed state, collects the deposits, computes the two
    /// commitment roots, and flushes the resulting overlay with its hash,
    /// awaiting `commit`.  A failing transaction in a finalized block is a
    /// protocol violation: the controller is left untouched and the error
    /// names the offending index.
    #[verifier::rlimit(100)]
    pub fn finalize_block(&mut self, txs: &Vec<Transaction>) -> (r: Result<
        BlockSummary,
        FatalError,
    >)
        requires
            app_inv(*old(self)),
        ensures
            app_inv(*final(self)),
            old(self).phase == Phase::Uninitialized ==> (r matches Err(e) && e
                == FatalError::NotInitialized && final(self).phase == old(self).phase),
            old(self).phase == Phase::Prepared ==> (r matches Err(e) && e == FatalError::InvalidPhase
                && final(self).phase == old(self).phase && final(self).working@ == old(self).working@ && final(self).committed@ == old(self).committed@),
            (old(self).phase == Phase::Ready || old(self).phase == Phase::BlockInProgress)
                ==> match spec_exec_block(old(self).committed@, txs@) {
                Err(p) => {
                    &&& (r matches Err(e2) && e2 == (FatalError::ProtocolViolation {
                        index: p.0 as usize,
                        error: p.1,
                    }))
                    &&& final(self).phase == old(self).phase
                    &&& final(self).working@ == old(self).working@
                    &&& final(self).committed@ == old(self).committed@
                    &&& final(self).app_hash@ == old(self).app_hash@
                },
                Ok(res) => {
                    &&& (r matches Ok(b) && b.rollup_data_root@ == rollup_data_root_of(txs@)
                        && b.deposit_root@ == deposits_root_of(res.1) && b.tx_count == txs@.len())
                    &&& final(self).phase == Phase::Prepared
                    &&& final(self).working@ == res.0
                    &&& deps_view(final(self).block_deposits@) == res.1
                    &&& final(self).committed@ == old(self).committed@
                    &&& final(self).app_hash@ == old(self).app_hash@
                    &&& final(self).next_hash@ == app_hash_of(res.0)
                },
            },
    {
        match self.phase {
            Phase::Uninitialized => {
                return Err(FatalError::NotInitialized);
            },
            Phase::Prepared => {
                return Err(FatalError::InvalidPhase);
            },
            _ => {},
        }
        let mut work = self.committed.snapshot();
        let mut deps: Vec<Deposit> = Vec::new();
        proof {
            assert(txs@.skip(0) =~= txs@);
            assert(deps_view(deps@) =~= Seq::<DepositView>::empty());
        }
        let mut i: usize = 0;
        while i < txs.len()
            invariant
                i <= txs.len(),
                wf_state(work@),
                *self == *old(self),
                app_inv(*old(self)),
                old(self).phase == Phase::Ready || old(self).phase == Phase::BlockInProgress,
                spec_exec_block(old(self).committed@, txs@) == (match spec_exec_block(
                    work@,
                    txs@.skip(i as int),
                ) {
                    Ok(res) => Ok::<(StateView, Seq<DepositView>), (int, TxError)>(
                        (res.0, deps_view(deps@) + res.1),
                    ),
                    Err(p) => Err::<(StateView, Seq<DepositView>), (int, TxError)>(
                        ((i + p.0) as int, p.1),
                    ),
                }),
            decreases txs.len() - i,
        {
            let ghost pre = work@;
            let ghost pre_deps = deps@;
            proof {
                assert(txs@.skip(i as int)[0] == txs@[i as int]);
                assert(txs@.skip(i as int).skip(1) =~= txs@.skip(i as int + 1));
            }
            match apply_transaction(&work, &txs[i]) {
                Err(e) => {
                    proof {
                        assert(spec_exec_block(pre, txs@.skip(i as int)) == Err::<
                            (StateView, Seq<DepositView>),
                            (int, TxError),
                        >((0, e)));
                    }
                    return Err(FatalError::ProtocolViolation { index: i, error: e });
                },
                Ok((s2, d2)) => {
                    let mut d2 = d2;
                    let ghost d2v = d2@;
                    work = s2;
                    deps.append(&mut d2);
                    proof {
                        assert(deps_view(deps@) =~= deps_view(pre_deps) + deps_view(d2v));
                        match spec_exec_block(work@, txs@.skip(i as int + 1)) {
                            Ok(r2) => {
                                let r1 = spec_apply_tx(pre, txs@[i as int]).unwrap();
                                assert(deps_view(deps@) + r2.1 =~= deps_view(pre_deps) + (r1.1
                                    + r2.1));
                            },
                            Err(p2) => {
                                assert((i + (1 + p2.0)) as int == ((i + 1) + p2.0) as int);
                            },
                        }
                    }
                },
            }
            i += 1;
        }
        proof {
            assert(txs@.skip(txs@.len() as int) =~= Seq::<Transaction>::empty());
            assert(deps_view(deps@) + Seq::<DepositView>::empty() =~= deps_view(deps@));
        }
        let rroot = rollup_data_root(txs);
        let droot = deposits_root(&deps);
        self.next_hash = compute_app_hash(&work);
        self.working = work;
        self.block_deposits = deps;
        self.phase = Phase::Prepared;
        Ok(BlockSummary { rollup_data_root: rroot, deposit_root: droot, tx_count: txs.len() })
    }

    /// Flushes the open overlay: computes the hash the next commit will
    /// adopt, without yet making the overlay canonical.
    pub fn prepare_commit(&mut self) -> (r: Result<(), FatalError>)
        requires
            app_inv(*old(self)),
        ensures
            app_inv(*final(self)),
            old(self).phase == Phase::Uninitialized ==> (r matches Err(e) && e
                == FatalError::NotInitialized && final(self).phase == old(self).phase),
            old(self).phase != Phase::Uninitialized ==> r is Ok && final(self).phase
                == Phase::Prepared && final(self).working@ == old(self).working@ && final(self).committed@ == old(self).committed@ && final(self).app_hash@ == old(self).app_hash@
                && final(self).next_hash@ == app_hash_of(old(self).working@) && deps_view(
                final(self).block_deposits@,
            ) == deps_view(old(self).block_deposits@),
    {
        match self.phase {
            Phase::Uninitialized => {
                return Err(FatalError::NotInitialized);
            },
            _ => {},
        }
        self.next_hash = compute_app_hash(&self.working);
        self.phase = Phase::Prepared;
        Ok(())
    }

    /// Makes the flushed overlay canonical: the working state becomes the
    /// committed state, the flushed hash becomes the application hash, and
    /// the controller is ready for the next block.  Returns the new
    /// application hash.
    pub fn commit(&mut self) -> (r: Result<Vec<u8>, FatalError>)
        requires
            app_inv(*old(self)),
        ensures
            app_inv(*final(self)),
            old(self).phase != Phase::Prepared ==> (r matches Err(e) && e == FatalError::InvalidPhase
                && final(self).phase == old(self).phase && final(self).working@ == old(self).working@ && final(self).committed@ == old(self).committed@ && final(self).app_hash@
                == old(self).app_hash@),
            old(self).phase == Phase::Prepared ==> {
                &&& (r matches Ok(h) && h@ == app_hash_of(old(self).working@))
                &&& final(self).phase == Phase::Ready
                &&& final(self).committed@ == old(self).working@
                &&& final(self).working@ == old(self).working@
                &&& final(self).app_hash@ == app_hash_of(old(self).working@)
                &&& deps_view(final(self).block_deposits@) == deps_view(old(self).block_deposits@)
            },
    {
        match self.phase {
            Phase::Prepared => {},
            _ => {
                return Err(FatalError::InvalidPhase);
            },
        }
        self.committed = self.working.snapshot();
        self.app_hash = copy_bytes(&self.next_hash);
        self.phase = Phase::Ready;
        Ok(copy_bytes(&self.app_hash))
    }

    /// A copy of the current application hash.
    pub fn current_app_hash(&self) -> (r: Vec<u8>)
        ensures
            r@ == self.app_hash@,
    {
        copy_bytes(&self.app_hash)
    }
}

} // verus!
