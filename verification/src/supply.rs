//! Total supply of an asset across all accounts, and how the primitive
//! balance update changes it.  This is the toolkit behind the conservation
//! law: every action preserves the total supply of every asset.

use vstd::prelude::*;
use crate::tables::{has_key, idx_of, lemma_idx_of};
use crate::types::BalView;
use crate::state::{bal_key, balance_of, spec_put_balance, wf_state, StateView};

verus! {

/// How much `e` adds to the supply of `asset`.
pub open spec fn cell_amount(e: BalView, asset: Seq<u8>) -> int {
    if e.asset == asset {
        e.amount as int
    } else {
        0
    }
}

/// Total amount of `asset` across a balance table.
pub open spec fn supply_in(bals: Seq<BalView>, asset: Seq<u8>) -> int
    decreases bals.len(),
{
    if bals.len() == 0 {
        0
    } else {
        supply_in(bals.drop_last(), asset) + cell_amount(bals.last(), asset)
    }
}

/// Total amount of `asset` across all accounts of the state, bridge
/// accounts included.
pub open spec fn supply_of(s: StateView, asset: Seq<u8>) -> int {
    supply_in(s.balances, asset)
}

/// Appending one cell adds its share.
pub proof fn lemma_supply_push(bals: Seq<BalView>, asset: Seq<u8>, e: BalView)
    ensures
        supply_in(bals.push(e), asset) == supply_in(bals, asset) + cell_amount(e, asset),
{
    assert(bals.push(e).drop_last() =~= bals);
    assert(bals.push(e).last() == e);
}

/// Replacing one cell exchanges its share.
pub proof fn lemma_supply_update(bals: Seq<BalView>, asset: Seq<u8>, i: int, e: BalView)
    requires
        0 <= i < bals.len(),
    ensures
        supply_in(bals.update(i, e), asset) == supply_in(bals, asset) - cell_amount(bals[i], asset)
            + cell_amount(e, asset),
    decreases bals.len(),
{
    let r = bals.update(i, e);
    if i == bals.len() - 1 {
        assert(r.drop_last() =~= bals.drop_last());
        assert(r.last() == e);
        assert(bals.last() == bals[i]);
    } else {
        assert(r.drop_last() =~= bals.drop_last().update(i, e));
        assert(r.last() == bals.last());
        assert(bals.drop_last()[i] == bals[i]);
        lemma_supply_update(bals.drop_last(), asset, i, e);
    }
}

/// Setting the cell `(addr, asset)` to `amount` moves the supply of that
/// asset by the difference with the old balance, and leaves the supply of
/// every other asset unchanged.
pub proof fn lemma_supply_put_balance(
    s: StateView,
    addr: Seq<u8>,
    asset: Seq<u8>,
    amount: u128,
    t2: Seq<u8>,
)
    requires
        wf_state(s),
    ensures
        supply_of(spec_put_balance(s, addr, asset, amount), t2) == supply_of(s, t2) + (
        if t2 == asset {
            amount - balance_of(s, addr, asset)
        } else {
            0
        }),
{
    let e = BalView { address: addr, asset: asset, amount: amount };
    let r = spec_put_balance(s, addr, asset, amount);
    {
        if has_key(s.balances, bal_key(), (addr, asset)) {
            let i = idx_of(s.balances, bal_key(), (addr, asset));
            lemma_idx_of(s.balances, bal_key(), (addr, asset));
            assert(bal_key()(s.balances[i]) == (addr, asset));
            assert(s.balances[i].address == addr && s.balances[i].asset == asset);
            assert(r.balances == s.balances.update(i, e));
            lemma_supply_update(s.balances, t2, i, e);
            assert(balance_of(s, addr, asset) == s.balances[i].amount);
        } else {
            assert(r.balances == s.balances.push(e));
            lemma_supply_push(s.balances, t2, e);
            assert(balance_of(s, addr, asset) == 0);
        }
    }
}

} // verus!
