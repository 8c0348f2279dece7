//! The laws of the state machine, proved once over the specification-level
//! transitions that every executable function's contract is stated against:
//! determinism of block execution, nonce accounting, conservation of asset
//! supply, and bridge authorization.

use vstd::prelude::*;
use crate::actions::{lemma_apply_action, spec_apply_action};
use crate::controller::{genesis_base, seed_accounts, seed_fee_assets, seed_relayers,
    spec_exec_block, spec_genesis};
use crate::encode::app_hash_of;
use crate::state::{bridge_of, has_bridge, lemma_put_nonce, nonce_of, spec_put_nonce, wf_state,
    StateView};
use crate::supply::supply_of;
use crate::transaction::{spec_apply_actions, spec_apply_tx};
use crate::types::{Action, ActionError, DepositView, GenesisState, Transaction};

verus! {

// ---------------------------------------------------------------------------
// Determinism
// ---------------------------------------------------------------------------

/// Determinism: block execution, the commitment roots and the application
/// hash are pure functions of the prior state and the ordered transaction
/// list, so two independent instances fed equal genesis states and equal
/// block sequences compute equal successor states and equal application
/// hashes.  Every executable function's contract equates its result with
/// one of these functions, which carries the law to running code.
pub proof fn lemma_execution_deterministic(s1: StateView, s2: StateView, txs: Seq<Transaction>)
    requires
        s1 == s2,
    ensures
        spec_exec_block(s1, txs) == spec_exec_block(s2, txs),
        spec_exec_block(s1, txs) matches Ok(r1) ==> (spec_exec_block(s2, txs) matches Ok(r2)
            && app_hash_of(r1.0) == app_hash_of(r2.0)),
{
}

// ---------------------------------------------------------------------------
// Action sequences preserve nonces and supply
// ---------------------------------------------------------------------------

/// A successful action list keeps the state well formed, never touches the
/// nonce table, and preserves the total supply of every asset.
pub proof fn lemma_apply_actions_preserves(
    s: StateView,
    signer: Seq<u8>,
    acts: Seq<Action>,
    t: Seq<u8>,
)
    requires
        wf_state(s),
    ensures
        spec_apply_actions(s, signer, acts) matches Ok(r) ==> {
            &&& wf_state(r.0)
            &&& r.0.nonces == s.nonces
            &&& supply_of(r.0, t) == supply_of(s, t)
        },
    decreases acts.len(),
{
    if acts.len() > 0 {
        lemma_apply_action(s, signer, acts[0], t);
        match spec_apply_action(s, signer, acts[0]) {
            Ok(r1) => {
                lemma_apply_actions_preserves(r1.0, signer, acts.skip(1), t);
            },
            Err(_) => {},
        }
    }
}

/// A successful transaction keeps the state well formed, increments the
/// signer's nonce by exactly one, leaves every other nonce unchanged, and
/// preserves the total supply of every asset.  A transaction is accepted
/// only when its nonce equals the signer's stored nonce.
pub proof fn lemma_apply_tx_preserves(s: StateView, tx: Transaction, t: Seq<u8>)
    requires
        wf_state(s),
    ensures
        spec_apply_tx(s, tx) matches Ok(r) ==> {
            &&& wf_state(r.0)
            &&& tx.nonce == nonce_of(s, tx.signer@)
            &&& nonce_of(s, tx.signer@) < u32::MAX
            &&& forall|a: Seq<u8>|
                #[trigger] nonce_of(r.0, a) == (if a == tx.signer@ {
                    (nonce_of(s, tx.signer@) + 1) as u32
                } else {
                    nonce_of(s, a)
                })
            &&& supply_of(r.0, t) == supply_of(s, t)
        },
{
    let n = nonce_of(s, tx.signer@);
    if tx.nonce == n && n != u32::MAX {
        let s1 = spec_put_nonce(s, tx.signer@, (n + 1) as u32);
        lemma_put_nonce(s, tx.signer@, (n + 1) as u32);
        lemma_apply_actions_preserves(s1, tx.signer@, tx.actions@, t);
        match spec_apply_actions(s1, tx.signer@, tx.actions@) {
            Ok(r) => {
                assert forall|a: Seq<u8>|
                    #[trigger] nonce_of(r.0, a) == (if a == tx.signer@ {
                        (n + 1) as u32
                    } else {
                        nonce_of(s, a)
                    }) by {
                    assert(nonce_of(r.0, a) == nonce_of(s1, a));
                }
                assert(supply_of(s1, t) == supply_of(s, t));
            },
            Err(_) => {},
        }
    }
}

// ---------------------------------------------------------------------------
// Nonce monotonicity
// ---------------------------------------------------------------------------

/// Folds a transaction sequence over a state, skipping rejected
/// transactions: the history an interactive controller produces.
pub open spec fn spec_exec_seq(s: StateView, txs: Seq<Transaction>) -> StateView
    decreases txs.len(),
{
    if txs.len() == 0 {
        s
    } else {
        let s1 = match spec_apply_tx(s, txs[0]) {
            Ok(r) => r.0,
            Err(_) => s,
        };
        spec_exec_seq(s1, txs.skip(1))
    }
}

/// How many transactions of the sequence are accepted with signer `a`.
pub open spec fn count_accepted(s: StateView, txs: Seq<Transaction>, a: Seq<u8>) -> int
    decreases txs.len(),
{
    if txs.len() == 0 {
        0
    } else {
        let hit: int = if spec_apply_tx(s, txs[0]) is Ok && txs[0].signer@ == a {
            1
        } else {
            0
        };
        let s1 = match spec_apply_tx(s, txs[0]) {
            Ok(r) => r.0,
            Err(_) => s,
        };
        hit + count_accepted(s1, txs.skip(1), a)
    }
}

/// Nonce monotonicity: after any transaction sequence, an address's stored
/// nonce equals its starting nonce plus the number of transactions accepted
/// from it.  From a genesis state, where every nonce starts at zero, the
/// stored nonce is exactly the count of accepted transactions.
pub proof fn lemma_nonce_monotonicity(s: StateView, txs: Seq<Transaction>, a: Seq<u8>)
    requires
        wf_state(s),
    ensures
        wf_state(spec_exec_seq(s, txs)),
        nonce_of(spec_exec_seq(s, txs), a) as int == nonce_of(s, a) as int + count_accepted(
            s,
            txs,
            a,
        ),
    decreases txs.len(),
{
    if txs.len() > 0 {
        lemma_apply_tx_preserves(s, txs[0], a);
        match spec_apply_tx(s, txs[0]) {
            Ok(r) => {
                lemma_nonce_monotonicity(r.0, txs.skip(1), a);
            },
            Err(_) => {
                lemma_nonce_monotonicity(s, txs.skip(1), a);
            },
        }
    }
}

/// At genesis every address's nonce is zero: the seeding touches balances
/// and membership sets only, never the nonce table.
pub proof fn lemma_genesis_nonce_zero(g: GenesisState, a: Seq<u8>)
    ensures
        nonce_of(spec_genesis(g), a) == 0,
{
    lemma_seed_accounts_nonces(genesis_base(g), g.accounts@, g.native_asset@);
    lemma_seed_fee_assets_nonces(
        seed_accounts(genesis_base(g), g.accounts@, g.native_asset@),
        g.allowed_fee_assets@,
    );
    lemma_seed_relayers_nonces(
        seed_fee_assets(
            seed_accounts(genesis_base(g), g.accounts@, g.native_asset@),
            g.allowed_fee_assets@,
        ),
        g.ibc_relayer_addresses@,
    );
    assert(spec_genesis(g).nonces.len() == 0);
}

/// Seeding balances never touches the nonce table.
proof fn lemma_seed_accounts_nonces(
    s: StateView,
    accounts: Seq<crate::types::GenesisAccount>,
    native: Seq<u8>,
)
    ensures
        seed_accounts(s, accounts, native).nonces == s.nonces,
    decreases accounts.len(),
{
    if accounts.len() > 0 {
        lemma_seed_accounts_nonces(s, accounts.drop_last(), native);
    }
}

/// Seeding the fee-asset allow-list never touches the nonce table.
proof fn lemma_seed_fee_assets_nonces(s: StateView, assets: Seq<Vec<u8>>)
    ensures
        seed_fee_assets(s, assets).nonces == s.nonces,
    decreases assets.len(),
{
    if assets.len() > 0 {
        lemma_seed_fee_assets_nonces(s, assets.drop_last());
    }
}

/// Seeding the relayer set never touches the nonce table.
proof fn lemma_seed_relayers_nonces(s: StateView, addrs: Seq<Vec<u8>>)
    ensures
        seed_relayers(s, addrs).nonces == s.nonces,
    decreases addrs.len(),
{
    if addrs.len() > 0 {
        lemma_seed_relayers_nonces(s, addrs.drop_last());
    }
}

// ---------------------------------------------------------------------------
// Conservation
// ---------------------------------------------------------------------------

/// Conservation: no accepted transaction changes the total supply of any
/// asset across all accounts, bridge accounts included.  Transfers, locks,
/// unlocks and fees move value between accounts; only genesis seeding mints.
pub proof fn lemma_conservation(s: StateView, tx: Transaction, t: Seq<u8>)
    requires
        wf_state(s),
    ensures
        spec_apply_tx(s, tx) matches Ok(r) ==> supply_of(r.0, t) == supply_of(s, t),
{
    lemma_apply_tx_preserves(s, tx, t);
}

/// Conservation over a whole finalized block: a successful block leaves the
/// total supply of every asset unchanged.
pub proof fn lemma_block_conservation(s: StateView, txs: Seq<Transaction>, t: Seq<u8>)
    requires
        wf_state(s),
    ensures
        spec_exec_block(s, txs) matches Ok(r) ==> {
            &&& wf_state(r.0)
            &&& supply_of(r.0, t) == supply_of(s, t)
        },
    decreases txs.len(),
{
    if txs.len() > 0 {
        lemma_apply_tx_preserves(s, txs[0], t);
        match spec_apply_tx(s, txs[0]) {
            Ok(r1) => {
                lemma_block_conservation(r1.0, txs.skip(1), t);
            },
            Err(_) => {},
        }
    }
}

// ---------------------------------------------------------------------------
// Bridge authorization
// ---------------------------------------------------------------------------

/// Bridge authorization: an unlock on a registered bridge signed by anyone
/// but its withdrawer, and a sudo change signed by anyone but its sudo, are
/// rejected as unauthorized.  A rejected action has no successor state, and
/// the transaction carrying it is dropped whole, so no state change ever
/// results.
pub proof fn lemma_bridge_authorization(s: StateView, signer: Seq<u8>, a: Action)
    requires
        wf_state(s),
    ensures
        (a matches Action::BridgeUnlock { bridge_address, .. } ==> {
            let baddr = match bridge_address {
                Some(v) => v@,
                None => signer,
            };
            (has_bridge(s, baddr) && signer != bridge_of(s, baddr).withdrawer_address)
                ==> spec_apply_action(s, signer, a) == Err::<
                (StateView, Seq<DepositView>),
                ActionError,
            >(ActionError::Unauthorized)
        }),
        (a matches Action::BridgeSudoChange { bridge_address, .. } ==> ((has_bridge(
            s,
            bridge_address@,
        ) && signer != bridge_of(s, bridge_address@).sudo_address) ==> spec_apply_action(
            s,
            signer,
            a,
        ) == Err::<(StateView, Seq<DepositView>), ActionError>(ActionError::Unauthorized))),
{
}

} // verus!
