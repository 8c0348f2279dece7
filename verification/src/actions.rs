//! Action semantics: the specification-level transition of each action kind
//! and the verified executable dispatcher.
//!
//! Every action is validated against the state it executes in, so an action
//! sees the effects of all earlier actions of the same transaction and of
//! all earlier transactions of the same block.  Fees are debited from the
//! signer and credited to the current authority sudo address, so fee
//! movement never changes the total supply of any asset.

use vstd::prelude::*;
use crate::bytes_util::copy_bytes;
use crate::types::{Action, ActionError, BalView, BridgeEntry, BridgeView, Deposit, DepositView,
    FeeSchedule, ValidatorEntry, ValidatorView};
use crate::state::{balance_of, bridge_of, has_bridge, is_fee_asset, lemma_add_fee_asset,
    lemma_add_relayer, lemma_put_balance, lemma_put_bridge, lemma_put_validator,
    lemma_remove_fee_asset, lemma_remove_relayer, spec_add_fee_asset, spec_add_relayer,
    spec_put_balance, spec_put_bridge, spec_put_validator, spec_remove_fee_asset,
    spec_remove_relayer, wf_state, State, StateView};
use crate::supply::{lemma_supply_put_balance, supply_of};

verus! {

/// View of a deposit list.
pub open spec fn deps_view(s: Seq<Deposit>) -> Seq<DepositView> {
    s.map_values(|d: Deposit| d@)
}

/// The fee an action owes under a fee schedule, as unbounded arithmetic.
/// Governance and validator actions are free; data-carrying actions pay a
/// base fee plus a per-byte cost.
pub open spec fn spec_fee(fees: FeeSchedule, a: Action) -> int {
    match a {
        Action::Transfer { .. } => fees.transfer_base_fee as int,
        Action::Sequence { data, .. } => fees.sequence_base_fee
            + fees.sequence_byte_cost_multiplier * data@.len(),
        Action::InitBridgeAccount { .. } => fees.init_bridge_account_base_fee as int,
        Action::BridgeLock { destination_chain_address, .. } => fees.transfer_base_fee
            + fees.bridge_lock_byte_cost_multiplier * destination_chain_address@.len(),
        Action::BridgeUnlock { .. } => fees.transfer_base_fee as int,
        Action::BridgeSudoChange { .. } => fees.bridge_sudo_change_fee as int,
        _ => 0,
    }
}

/// Deducts `fee` of `fee_asset` from the signer and credits it to the
/// current authority sudo address.  Fails when the asset is not an allowed
/// fee asset, the fee does not fit the amount type, or the signer's balance
/// is short.
pub open spec fn spec_charge_fee(s: StateView, signer: Seq<u8>, fee_asset: Seq<u8>, fee: int)
    -> Result<StateView, ActionError> {
    if !is_fee_asset(s, fee_asset) {
        Err(ActionError::UnauthorizedFeeAsset)
    } else if fee > u128::MAX {
        Err(ActionError::FeeOverflow)
    } else if (balance_of(s, signer, fee_asset) as int) < fee {
        Err(ActionError::InsufficientFunds)
    } else {
        let s1 = spec_put_balance(
            s,
            signer,
            fee_asset,
            (balance_of(s, signer, fee_asset) - fee) as u128,
        );
        let c = balance_of(s1, s.sudo_address, fee_asset);
        if c + fee > u128::MAX {
            Err(ActionError::BalanceOverflow)
        } else {
            Ok(spec_put_balance(s1, s.sudo_address, fee_asset, (c + fee) as u128))
        }
    }
}

/// Moves `amount` of `asset` from one account to another.  Fails when the
/// source balance is short or the destination balance would overflow.
pub open spec fn spec_move(s: StateView, from: Seq<u8>, to: Seq<u8>, asset: Seq<u8>, amount: u128)
    -> Result<StateView, ActionError> {
    let bf = balance_of(s, from, asset);
    if bf < amount {
        Err(ActionError::InsufficientFunds)
    } else {
        let s1 = spec_put_balance(s, from, asset, (bf - amount) as u128);
        let bt = balance_of(s1, to, asset);
        if bt + amount > u128::MAX {
            Err(ActionError::BalanceOverflow)
        } else {
            Ok(spec_put_balance(s1, to, asset, (bt + amount) as u128))
        }
    }
}

/// The transition of one action: either the successor state together with
/// the deposits the action emitted, or the error that rejects it.
pub open spec fn spec_apply_action(s: StateView, signer: Seq<u8>, a: Action) -> Result<
    (StateView, Seq<DepositView>),
    ActionError,
> {
    match a {
        Action::Transfer { to, amount, asset, fee_asset } => match spec_charge_fee(
            s,
            signer,
            fee_asset@,
            spec_fee(s.fees, a),
        ) {
            Err(e) => Err(e),
            Ok(s1) => match spec_move(s1, signer, to@, asset@, amount) {
                Err(e) => Err(e),
                Ok(s2) => Ok((s2, Seq::<DepositView>::empty())),
            },
        },
        Action::Sequence { fee_asset, .. } => match spec_charge_fee(
            s,
            signer,
            fee_asset@,
            spec_fee(s.fees, a),
        ) {
            Err(e) => Err(e),
            Ok(s1) => Ok((s1, Seq::<DepositView>::empty())),
        },
        Action::ValidatorUpdate { pub_key, power } => Ok(
            (
                spec_put_validator(s, (ValidatorView { pub_key: pub_key@, power })),
                Seq::<DepositView>::empty(),
            ),
        ),
        Action::SudoAddressChange { new_address } => if signer != s.sudo_address {
            Err(ActionError::Unauthorized)
        } else {
            Ok(((StateView { sudo_address: new_address@, ..s }), Seq::<DepositView>::empty()))
        },
        Action::IbcRelayerChangeAddition { address } => if signer != s.ibc_sudo_address {
            Err(ActionError::Unauthorized)
        } else {
            Ok((spec_add_relayer(s, address@), Seq::<DepositView>::empty()))
        },
        Action::IbcRelayerChangeRemoval { address } => if signer != s.ibc_sudo_address {
            Err(ActionError::Unauthorized)
        } else {
            Ok((spec_remove_relayer(s, address@), Seq::<DepositView>::empty()))
        },
        Action::FeeAssetChangeAddition { asset } => if signer != s.sudo_address {
            Err(ActionError::Unauthorized)
        } else {
            Ok((spec_add_fee_asset(s, asset@), Seq::<DepositView>::empty()))
        },
        Action::FeeAssetChangeRemoval { asset } => if signer != s.sudo_address {
            Err(ActionError::Unauthorized)
        } else {
            Ok((spec_remove_fee_asset(s, asset@), Seq::<DepositView>::empty()))
        },
        Action::InitBridgeAccount { rollup_id, asset, fee_asset, sudo_address, withdrawer_address } => if has_bridge(
            s,
            signer,
        ) {
            Err(ActionError::BridgeAccountExists)
        } else {
            match spec_charge_fee(s, signer, fee_asset@, spec_fee(s.fees, a)) {
                Err(e) => Err(e),
                Ok(s1) => {
                    let sv = match sudo_address {
                        Some(v) => v@,
                        None => signer,
                    };
                    let wv = match withdrawer_address {
                        Some(v) => v@,
                        None => signer,
                    };
                    Ok(
                        (
                            spec_put_bridge(
                                s1,
                                (BridgeView {
                                    address: signer,
                                    rollup_id: rollup_id@,
                                    asset: asset@,
                                    sudo_address: sv,
                                    withdrawer_address: wv,
                                }),
                            ),
                            Seq::<DepositView>::empty(),
                        ),
                    )
                },
            }
        },
        Action::BridgeLock { to, amount, asset, fee_asset, destination_chain_address } => if !has_bridge(
            s,
            to@,
        ) {
            Err(ActionError::BridgeNotInitialized)
        } else if bridge_of(s, to@).asset != asset@ {
            Err(ActionError::AssetMismatch)
        } else {
            match spec_charge_fee(s, signer, fee_asset@, spec_fee(s.fees, a)) {
                Err(e) => Err(e),
                Ok(s1) => match spec_move(s1, signer, to@, asset@, amount) {
                    Err(e) => Err(e),
                    Ok(s2) => Ok(
                        (
                            s2,
                            seq![
                                DepositView {
                                    bridge_address: to@,
                                    rollup_id: bridge_of(s, to@).rollup_id,
                                    amount,
                                    asset: asset@,
                                    destination_chain_address: destination_chain_address@,
                                }
                            ],
                        ),
                    ),
                },
            }
        },
        Action::BridgeUnlock { to, amount, fee_asset, bridge_address, .. } => {
            let baddr = match bridge_address {
                Some(v) => v@,
                None => signer,
            };
            if !has_bridge(s, baddr) {
                Err(ActionError::BridgeNotInitialized)
            } else if signer != bridge_of(s, baddr).withdrawer_address {
                Err(ActionError::Unauthorized)
            } else {
                match spec_charge_fee(s, signer, fee_asset@, spec_fee(s.fees, a)) {
                    Err(e) => Err(e),
                    Ok(s1) => match spec_move(s1, baddr, to@, bridge_of(s, baddr).asset, amount) {
                        Err(e) => Err(e),
                        Ok(s2) => Ok((s2, Seq::<DepositView>::empty())),
                    },
                }
            }
        },
        Action::BridgeSudoChange { bridge_address, new_sudo_address, new_withdrawer_address, fee_asset } => if !has_bridge(
            s,
            bridge_address@,
        ) {
            Err(ActionError::BridgeNotInitialized)
        } else if signer != bridge_of(s, bridge_address@).sudo_address {
            Err(ActionError::Unauthorized)
        } else {
            match spec_charge_fee(s, signer, fee_asset@, spec_fee(s.fees, a)) {
                Err(e) => Err(e),
                Ok(s1) => {
                    let b = bridge_of(s, bridge_address@);
                    let ns = match new_sudo_address {
                        Some(v) => v@,
                        None => b.sudo_address,
                    };
                    let nw = match new_withdrawer_address {
                        Some(v) => v@,
                        None => b.withdrawer_address,
                    };
                    Ok(
                        (
                            spec_put_bridge(
                                s1,
                                (BridgeView {
                                    sudo_address: ns,
                                    withdrawer_address: nw,
                                    ..b
                                }),
                            ),
                            Seq::<DepositView>::empty(),
                        ),
                    )
                },
            }
        },
        Action::Ics20Withdrawal { .. } => Err(ActionError::UnsupportedAction),
        Action::IbcRelay { .. } => Err(ActionError::UnsupportedAction),
    }
}

// ---------------------------------------------------------------------------
// Preservation lemmas
// ---------------------------------------------------------------------------

/// No action owes a negative fee.
pub proof fn lemma_fee_nonneg(fees: FeeSchedule, a: Action)
    ensures
        spec_fee(fees, a) >= 0,
{
    match a {
        Action::Sequence { data, .. } => {
            vstd::arithmetic::mul::lemma_mul_nonnegative(
                fees.sequence_byte_cost_multiplier as int,
                data@.len() as int,
            );
        },
        Action::BridgeLock { destination_chain_address, .. } => {
            vstd::arithmetic::mul::lemma_mul_nonnegative(
                fees.bridge_lock_byte_cost_multiplier as int,
                destination_chain_address@.len() as int,
            );
        },
        _ => {},
    }
}

/// A successful fee charge keeps the state well formed, moves value between
/// the signer and the sudo address only, and touches no other component.
pub proof fn lemma_charge_fee(
    s: StateView,
    signer: Seq<u8>,
    fee_asset: Seq<u8>,
    fee: int,
    t: Seq<u8>,
)
    requires
        wf_state(s),
        0 <= fee,
    ensures
        spec_charge_fee(s, signer, fee_asset, fee) matches Ok(s1) ==> {
            &&& wf_state(s1)
            &&& supply_of(s1, t) == supply_of(s, t)
            &&& s1 == (StateView { balances: s1.balances, ..s })
        },
{
    match spec_charge_fee(s, signer, fee_asset, fee) {
        Ok(s1) => {
        let b = balance_of(s, signer, fee_asset);
        let w1 = spec_put_balance(s, signer, fee_asset, (b - fee) as u128);
        lemma_put_balance(s, signer, fee_asset, (b - fee) as u128);
        let c = balance_of(w1, s.sudo_address, fee_asset);
        lemma_put_balance(w1, s.sudo_address, fee_asset, (c + fee) as u128);
        assert(s1 == spec_put_balance(w1, s.sudo_address, fee_asset, (c + fee) as u128));
        lemma_supply_put_balance(s, signer, fee_asset, (b - fee) as u128, t);
        lemma_supply_put_balance(w1, s.sudo_address, fee_asset, (c + fee) as u128, t);
        assert((b - fee) as u128 == b - fee);
        assert((c + fee) as u128 == c + fee);
        assert(supply_of(s1, t) == supply_of(s, t));
        },
        Err(_) => {},
    }
}

/// A successful transfer of funds keeps the state well formed, preserves
/// the total supply of every asset, and touches no other component.
pub proof fn lemma_move(
    s: StateView,
    from: Seq<u8>,
    to: Seq<u8>,
    asset: Seq<u8>,
    amount: u128,
    t: Seq<u8>,
)
    requires
        wf_state(s),
    ensures
        spec_move(s, from, to, asset, amount) matches Ok(s1) ==> {
            &&& wf_state(s1)
            &&& supply_of(s1, t) == supply_of(s, t)
            &&& s1 == (StateView { balances: s1.balances, ..s })
        },
{
    match spec_move(s, from, to, asset, amount) {
        Ok(s1) => {
        let bf = balance_of(s, from, asset);
        let w1 = spec_put_balance(s, from, asset, (bf - amount) as u128);
        lemma_put_balance(s, from, asset, (bf - amount) as u128);
        let bt = balance_of(w1, to, asset);
        lemma_put_balance(w1, to, asset, (bt + amount) as u128);
        assert(s1 == spec_put_balance(w1, to, asset, (bt + amount) as u128));
        lemma_supply_put_balance(s, from, asset, (bf - amount) as u128, t);
        lemma_supply_put_balance(w1, to, asset, (bt + amount) as u128, t);
        assert((bf - amount) as u128 == bf - amount);
        assert((bt + amount) as u128 == bt + amount);
        assert(supply_of(s1, t) == supply_of(s, t));
        },
        Err(_) => {},
    }
}

/// A successful action keeps the state well formed, never touches nonces,
/// the fee schedule, the native denomination, the address prefix or the
/// protocol parameters, and preserves the total supply of every asset.
pub proof fn lemma_apply_action(s: StateView, signer: Seq<u8>, a: Action, t: Seq<u8>)
    requires
        wf_state(s),
    ensures
        spec_apply_action(s, signer, a) matches Ok(r) ==> {
            &&& wf_state(r.0)
            &&& r.0.nonces == s.nonces
            &&& r.0.fees == s.fees
            &&& r.0.native_asset == s.native_asset
            &&& r.0.address_prefix == s.address_prefix
            &&& r.0.ibc_params == s.ibc_params
            &&& supply_of(r.0, t) == supply_of(s, t)
        },
{
    match a {
        Action::Transfer { to, amount, asset, fee_asset } => {
            lemma_fee_nonneg(s.fees, a);
            lemma_charge_fee(s, signer, fee_asset@, spec_fee(s.fees, a), t);
            match spec_charge_fee(s, signer, fee_asset@, spec_fee(s.fees, a)) {
                Ok(s1) => {
                lemma_move(s1, signer, to@, asset@, amount, t);
                },
                Err(_) => {},
            }
        },
        Action::Sequence { fee_asset, .. } => {
            lemma_fee_nonneg(s.fees, a);
            lemma_charge_fee(s, signer, fee_asset@, spec_fee(s.fees, a), t);
        },
        Action::ValidatorUpdate { pub_key, power } => {
            lemma_put_validator(s, (ValidatorView { pub_key: pub_key@, power }));
        },
        Action::SudoAddressChange { .. } => {
        },
        Action::IbcRelayerChangeAddition { address } => {
            if signer == s.ibc_sudo_address {
                lemma_add_relayer(s, address@);
            }
        },
        Action::IbcRelayerChangeRemoval { address } => {
            if signer == s.ibc_sudo_address {
                lemma_remove_relayer(s, address@);
            }
        },
        Action::FeeAssetChangeAddition { asset } => {
            if signer == s.sudo_address {
                lemma_add_fee_asset(s, asset@);
            }
        },
        Action::FeeAssetChangeRemoval { asset } => {
            if signer == s.sudo_address {
                lemma_remove_fee_asset(s, asset@);
            }
        },
        Action::InitBridgeAccount { rollup_id, asset, fee_asset, sudo_address, withdrawer_address } => {
            lemma_fee_nonneg(s.fees, a);
            lemma_charge_fee(s, signer, fee_asset@, spec_fee(s.fees, a), t);
            match spec_charge_fee(s, signer, fee_asset@, spec_fee(s.fees, a)) {
                Ok(s1) => {
                let sv = match sudo_address {
                    Some(v) => v@,
                    None => signer,
                };
                let wv = match withdrawer_address {
                    Some(v) => v@,
                    None => signer,
                };
                lemma_put_bridge(
                    s1,
                    (BridgeView {
                        address: signer,
                        rollup_id: rollup_id@,
                        asset: asset@,
                        sudo_address: sv,
                        withdrawer_address: wv,
                    }),
                );
                },
                Err(_) => {},
            }
        },
        Action::BridgeLock { to, amount, asset, fee_asset, .. } => {
            lemma_fee_nonneg(s.fees, a);
            lemma_charge_fee(s, signer, fee_asset@, spec_fee(s.fees, a), t);
            match spec_charge_fee(s, signer, fee_asset@, spec_fee(s.fees, a)) {
                Ok(s1) => {
                lemma_move(s1, signer, to@, asset@, amount, t);
                },
                Err(_) => {},
            }
        },
        Action::BridgeUnlock { to, amount, fee_asset, bridge_address, .. } => {
            let baddr = match bridge_address {
                Some(v) => v@,
                None => signer,
            };
            lemma_fee_nonneg(s.fees, a);
            lemma_charge_fee(s, signer, fee_asset@, spec_fee(s.fees, a), t);
            match spec_charge_fee(s, signer, fee_asset@, spec_fee(s.fees, a)) {
                Ok(s1) => {
                if has_bridge(s, baddr) {
                    lemma_move(s1, baddr, to@, bridge_of(s, baddr).asset, amount, t);
                }
                },
                Err(_) => {},
            }
        },
        Action::BridgeSudoChange { bridge_address, new_sudo_address, new_withdrawer_address, fee_asset } => {
            lemma_fee_nonneg(s.fees, a);
            lemma_charge_fee(s, signer, fee_asset@, spec_fee(s.fees, a), t);
            match spec_charge_fee(s, signer, fee_asset@, spec_fee(s.fees, a)) {
                Ok(s1) => {
                if has_bridge(s, bridge_address@) {
                    let b = bridge_of(s, bridge_address@);
                    let ns = match new_sudo_address {
                        Some(v) => v@,
                        None => b.sudo_address,
                    };
                    let nw = match new_withdrawer_address {
                        Some(v) => v@,
                        None => b.withdrawer_address,
                    };
                    lemma_put_bridge(
                        s1,
                        (BridgeView { sudo_address: ns, withdrawer_address: nw, ..b }),
                    );
                }
                },
                Err(_) => {},
            }
        },
        Action::Ics20Withdrawal { .. } => {
        },
        Action::IbcRelay { .. } => {
        },
    }
}

// ---------------------------------------------------------------------------
// Executable dispatcher
// ---------------------------------------------------------------------------

/// Computes the fee an action owes, or `None` when it does not fit the
/// amount type.
pub fn compute_fee(fees: &FeeSchedule, a: &Action) -> (r: Option<u128>)
    ensures
        match r {
            Some(f) => f as int == spec_fee(*fees, *a),
            None => spec_fee(*fees, *a) > u128::MAX,
        },
{
    match a {
        Action::Transfer { .. } => Some(fees.transfer_base_fee),
        Action::Sequence { data, .. } => {
            match fees.sequence_byte_cost_multiplier.checked_mul(data.len() as u128) {
                None => None,
                Some(c) => fees.sequence_base_fee.checked_add(c),
            }
        },
        Action::InitBridgeAccount { .. } => Some(fees.init_bridge_account_base_fee),
        Action::BridgeLock { destination_chain_address, .. } => {
            match fees.bridge_lock_byte_cost_multiplier.checked_mul(
                destination_chain_address.len() as u128,
            ) {
                None => None,
                Some(c) => fees.transfer_base_fee.checked_add(c),
            }
        },
        Action::BridgeUnlock { .. } => Some(fees.transfer_base_fee),
        Action::BridgeSudoChange { .. } => Some(fees.bridge_sudo_change_fee),
        _ => Some(0),
    }
}

/// Deducts the fee from the signer and credits the authority sudo address.
pub fn charge_fee(
    st: &mut State,
    signer: &Vec<u8>,
    fee_asset: &Vec<u8>,
    fee_opt: Option<u128>,
    Ghost(fee): Ghost<int>,
) -> (r: Result<(), ActionError>)
    requires
        wf_state(old(st)@),
        fee_opt matches Some(f) ==> f as int == fee,
        fee_opt is None ==> fee > u128::MAX,
    ensures
        match spec_charge_fee(old(st)@, signer@, fee_asset@, fee) {
            Ok(s1) => r is Ok && final(st)@ == s1 && wf_state(s1),
            Err(e) => r matches Err(e2) && e2 == e,
        },
{
    if !st.has_fee_asset(fee_asset) {
        return Err(ActionError::UnauthorizedFeeAsset);
    }
    let f = match fee_opt {
        Some(f) => f,
        None => {
            return Err(ActionError::FeeOverflow);
        },
    };
    let b = st.get_balance(signer, fee_asset);
    if b < f {
        return Err(ActionError::InsufficientFunds);
    }
    let sudo = copy_bytes(&st.sudo_address);
    st.put_balance(signer, fee_asset, b - f);
    proof {
        lemma_put_balance(old(st)@, signer@, fee_asset@, (b - f) as u128);
    }
    let c = st.get_balance(&sudo, fee_asset);
    match c.checked_add(f) {
        None => Err(ActionError::BalanceOverflow),
        Some(nc) => {
            proof {
                lemma_put_balance(st@, sudo@, fee_asset@, nc);
            }
            st.put_balance(&sudo, fee_asset, nc);
            Ok(())
        },
    }
}

/// Moves `amount` of `asset` between two accounts.
pub fn move_funds(
    st: &mut State,
    from: &Vec<u8>,
    to: &Vec<u8>,
    asset: &Vec<u8>,
    amount: u128,
) -> (r: Result<(), ActionError>)
    requires
        wf_state(old(st)@),
    ensures
        match spec_move(old(st)@, from@, to@, asset@, amount) {
            Ok(s1) => r is Ok && final(st)@ == s1 && wf_state(s1),
            Err(e) => r matches Err(e2) && e2 == e,
        },
{
    let bf = st.get_balance(from, asset);
    if bf < amount {
        return Err(ActionError::InsufficientFunds);
    }
    st.put_balance(from, asset, bf - amount);
    proof {
        lemma_put_balance(old(st)@, from@, asset@, (bf - amount) as u128);
    }
    let bt = st.get_balance(to, asset);
    match bt.checked_add(amount) {
        None => Err(ActionError::BalanceOverflow),
        Some(nb) => {
            proof {
                lemma_put_balance(st@, to@, asset@, nb);
            }
            st.put_balance(to, asset, nb);
            Ok(())
        },
    }
}

/// Executes one action against the working state, appending any emitted
/// deposit.  On rejection the caller discards the working state, so no
/// clause constrains it then; the returned error is exactly the one the
/// specification-level transition names.
#[verifier::rlimit(60)]
pub fn apply_action(
    st: &mut State,
    signer: &Vec<u8>,
    a: &Action,
    deps: &mut Vec<Deposit>,
) -> (r: Result<(), ActionError>)
    requires
        wf_state(old(st)@),
    ensures
        match spec_apply_action(old(st)@, signer@, *a) {
            Ok(res) => r is Ok && final(st)@ == res.0 && wf_state(res.0) && deps_view(
                final(deps)@,
            ) == deps_view(old(deps)@) + res.1,
            Err(e) => r matches Err(e2) && e2 == e,
        },
{
    proof {
        lemma_apply_action(old(st)@, signer@, *a, signer@);
    }
    match a {
        Action::Transfer { to, amount, asset, fee_asset } => {
            let fee_opt = compute_fee(&st.fees, a);
            let ghost fee = spec_fee(old(st)@.fees, *a);
            charge_fee(st, signer, fee_asset, fee_opt, Ghost(fee))?;
            move_funds(st, signer, to, asset, *amount)?;
            proof {
                assert(deps_view(deps@) =~= deps_view(deps@) + Seq::<DepositView>::empty());
            }
            Ok(())
        },
        Action::Sequence { fee_asset, .. } => {
            let fee_opt = compute_fee(&st.fees, a);
            let ghost fee = spec_fee(old(st)@.fees, *a);
            charge_fee(st, signer, fee_asset, fee_opt, Ghost(fee))?;
            proof {
                assert(deps_view(deps@) =~= deps_view(deps@) + Seq::<DepositView>::empty());
            }
            Ok(())
        },
        Action::ValidatorUpdate { pub_key, power } => {
            st.put_validator(ValidatorEntry { pub_key: copy_bytes(pub_key), power: *power });
            proof {
                assert(deps_view(deps@) =~= deps_view(deps@) + Seq::<DepositView>::empty());
            }
            Ok(())
        },
        Action::SudoAddressChange { new_address } => {
            if !crate::bytes_util::bytes_eq(signer, &st.sudo_address) {
                return Err(ActionError::Unauthorized);
            }
            st.set_sudo_address(new_address);
            proof {
                assert(deps_view(deps@) =~= deps_view(deps@) + Seq::<DepositView>::empty());
            }
            Ok(())
        },
        Action::IbcRelayerChangeAddition { address } => {
            if !crate::bytes_util::bytes_eq(signer, &st.ibc_sudo_address) {
                return Err(ActionError::Unauthorized);
            }
            st.add_relayer(address);
            proof {
                assert(deps_view(deps@) =~= deps_view(deps@) + Seq::<DepositView>::empty());
            }
            Ok(())
        },
        Action::IbcRelayerChangeRemoval { address } => {
            if !crate::bytes_util::bytes_eq(signer, &st.ibc_sudo_address) {
                return Err(ActionError::Unauthorized);
            }
            st.remove_relayer(address);
            proof {
                assert(deps_view(deps@) =~= deps_view(deps@) + Seq::<DepositView>::empty());
            }
            Ok(())
        },
        Action::FeeAssetChangeAddition { asset } => {
            if !crate::bytes_util::bytes_eq(signer, &st.sudo_address) {
                return Err(ActionError::Unauthorized);
            }
            st.add_fee_asset(asset);
            proof {
                assert(deps_view(deps@) =~= deps_view(deps@) + Seq::<DepositView>::empty());
            }
            Ok(())
        },
        Action::FeeAssetChangeRemoval { asset } => {
            if !crate::bytes_util::bytes_eq(signer, &st.sudo_address) {
                return Err(ActionError::Unauthorized);
            }
            st.remove_fee_asset(asset);
            proof {
                assert(deps_view(deps@) =~= deps_view(deps@) + Seq::<DepositView>::empty());
            }
            Ok(())
        },
        Action::InitBridgeAccount { rollup_id, asset, fee_asset, sudo_address, withdrawer_address } => {
            match st.get_bridge(signer) {
                Some(_) => {
                    return Err(ActionError::BridgeAccountExists);
                },
                None => {},
            }
            let fee_opt = compute_fee(&st.fees, a);
            let ghost fee = spec_fee(old(st)@.fees, *a);
            charge_fee(st, signer, fee_asset, fee_opt, Ghost(fee))?;
            let sv = match sudo_address {
                Some(v) => copy_bytes(v),
                None => copy_bytes(signer),
            };
            let wv = match withdrawer_address {
                Some(v) => copy_bytes(v),
                None => copy_bytes(signer),
            };
            st.put_bridge(
                BridgeEntry {
                    address: copy_bytes(signer),
                    rollup_id: copy_bytes(rollup_id),
                    asset: copy_bytes(asset),
                    sudo_address: sv,
                    withdrawer_address: wv,
                },
            );
            proof {
                assert(deps_view(deps@) =~= deps_view(deps@) + Seq::<DepositView>::empty());
            }
            Ok(())
        },
        Action::BridgeLock { to, amount, asset, fee_asset, destination_chain_address } => {
            let b = match st.get_bridge(to) {
                Some(b) => b,
                None => {
                    return Err(ActionError::BridgeNotInitialized);
                },
            };
            if !crate::bytes_util::bytes_eq(&b.asset, asset) {
                return Err(ActionError::AssetMismatch);
            }
            let fee_opt = compute_fee(&st.fees, a);
            let ghost fee = spec_fee(old(st)@.fees, *a);
            charge_fee(st, signer, fee_asset, fee_opt, Ghost(fee))?;
            move_funds(st, signer, to, asset, *amount)?;
            let ghost bv = b@;
            deps.push(
                Deposit {
                    bridge_address: copy_bytes(to),
                    rollup_id: b.rollup_id,
                    amount: *amount,
                    asset: copy_bytes(asset),
                    destination_chain_address: copy_bytes(destination_chain_address),
                },
            );
            proof {
                let dv = DepositView {
                    bridge_address: to@,
                    rollup_id: bv.rollup_id,
                    amount: *amount,
                    asset: asset@,
                    destination_chain_address: destination_chain_address@,
                };
                assert(deps_view(deps@) =~= deps_view(old(deps)@).push(dv));
                assert(deps_view(old(deps)@).push(dv) =~= deps_view(old(deps)@) + seq![dv]);
            }
            Ok(())
        },
        Action::BridgeUnlock { to, amount, fee_asset, bridge_address, .. } => {
            let baddr: &Vec<u8> = match bridge_address {
                Some(v) => v,
                None => signer,
            };
            let b = match st.get_bridge(baddr) {
                Some(b) => b,
                None => {
                    return Err(ActionError::BridgeNotInitialized);
                },
            };
            if !crate::bytes_util::bytes_eq(signer, &b.withdrawer_address) {
                return Err(ActionError::Unauthorized);
            }
            let fee_opt = compute_fee(&st.fees, a);
            let ghost fee = spec_fee(old(st)@.fees, *a);
            charge_fee(st, signer, fee_asset, fee_opt, Ghost(fee))?;
            move_funds(st, baddr, to, &b.asset, *amount)?;
            proof {
                assert(deps_view(deps@) =~= deps_view(deps@) + Seq::<DepositView>::empty());
            }
            Ok(())
        },
        Action::BridgeSudoChange { bridge_address, new_sudo_address, new_withdrawer_address, fee_asset } => {
            let b = match st.get_bridge(bridge_address) {
                Some(b) => b,
                None => {
                    return Err(ActionError::BridgeNotInitialized);
                },
            };
            if !crate::bytes_util::bytes_eq(signer, &b.sudo_address) {
                return Err(ActionError::Unauthorized);
            }
            let fee_opt = compute_fee(&st.fees, a);
            let ghost fee = spec_fee(old(st)@.fees, *a);
            charge_fee(st, signer, fee_asset, fee_opt, Ghost(fee))?;
            let ns = match new_sudo_address {
                Some(v) => copy_bytes(v),
                None => b.sudo_address,
            };
            let nw = match new_withdrawer_address {
                Some(v) => copy_bytes(v),
                None => b.withdrawer_address,
            };
            st.put_bridge(
                BridgeEntry {
                    address: b.address,
                    rollup_id: b.rollup_id,
                    asset: b.asset,
                    sudo_address: ns,
                    withdrawer_address: nw,
                },
            );
            proof {
                assert(deps_view(deps@) =~= deps_view(deps@) + Seq::<DepositView>::empty());
            }
            Ok(())
        },
        Action::Ics20Withdrawal { .. } => Err(ActionError::UnsupportedAction),
        Action::IbcRelay { .. } => Err(ActionError::UnsupportedAction),
    }
}

} // verus!
