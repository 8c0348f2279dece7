//! Block commitments: a hash-chain accumulator over the rollup-tagged
//! sequence payloads of a block and over its deposit records, and the
//! leading block-data slots those roots occupy.
//!
//! Both roots are pure functions of the ordered item lists, so any rollup
//! node that holds its items can recompute them independently of the
//! sequencer.

use vstd::prelude::*;
use crate::bytes_util::copy_bytes;
use crate::digest::{sha256, sha256_of};
use crate::encode::{enc_bytes, enc_deposit, push_bytes, push_deposit};
use crate::types::{Action, Deposit, DepositView, Transaction};

verus! {

/// One rollup-tagged payload: the rollup it is destined for and the opaque
/// data a sequence action carried.
pub struct RollupItem {
    pub rollup_id: Vec<u8>,
    pub data: Vec<u8>,
}

impl View for RollupItem {
    type V = (Seq<u8>, Seq<u8>);

    open spec fn view(&self) -> (Seq<u8>, Seq<u8>) {
        (self.rollup_id@, self.data@)
    }
}

/// View of a rollup-item list.
pub open spec fn items_view(v: Seq<RollupItem>) -> Seq<(Seq<u8>, Seq<u8>)> {
    v.map_values(|it: RollupItem| it@)
}

/// The rollup-tagged payloads one action contributes: a sequence action
/// contributes its payload, every other kind none.
pub open spec fn action_items(a: Action) -> Seq<(Seq<u8>, Seq<u8>)> {
    match a {
        Action::Sequence { rollup_id, data, .. } => seq![(rollup_id@, data@)],
        _ => Seq::<(Seq<u8>, Seq<u8>)>::empty(),
    }
}

/// The rollup-tagged payloads of one transaction, in action order.
pub open spec fn tx_rollup_items(acts: Seq<Action>) -> Seq<(Seq<u8>, Seq<u8>)>
    decreases acts.len(),
{
    if acts.len() == 0 {
        Seq::<(Seq<u8>, Seq<u8>)>::empty()
    } else {
        tx_rollup_items(acts.drop_last()) + action_items(acts.last())
    }
}

/// The rollup-tagged payloads of a whole block, in block order.
pub open spec fn block_rollup_items(txs: Seq<Transaction>) -> Seq<(Seq<u8>, Seq<u8>)>
    decreases txs.len(),
{
    if txs.len() == 0 {
        Seq::<(Seq<u8>, Seq<u8>)>::empty()
    } else {
        block_rollup_items(txs.drop_last()) + tx_rollup_items(txs.last().actions@)
    }
}

/// Encoding of one rollup item, the preimage of its leaf digest.
pub open spec fn enc_item(it: (Seq<u8>, Seq<u8>)) -> Seq<u8> {
    enc_bytes(it.0) + enc_bytes(it.1)
}

/// Hash-chain accumulator over the rollup items: the digest of the empty
/// string for no items, then one chaining step per item over its leaf
/// digest.
pub open spec fn items_root_of(items: Seq<(Seq<u8>, Seq<u8>)>) -> Seq<u8>
    decreases items.len(),
{
    if items.len() == 0 {
        sha256_of(Seq::<u8>::empty())
    } else {
        sha256_of(items_root_of(items.drop_last()) + sha256_of(enc_item(items.last())))
    }
}

/// The rollup-data commitment of a block: the accumulator over all its
/// rollup-tagged payloads.
pub open spec fn rollup_data_root_of(txs: Seq<Transaction>) -> Seq<u8> {
    items_root_of(block_rollup_items(txs))
}

/// Hash-chain accumulator over a deposit list.
pub open spec fn deposits_root_of(deps: Seq<DepositView>) -> Seq<u8>
    decreases deps.len(),
{
    if deps.len() == 0 {
        sha256_of(Seq::<u8>::empty())
    } else {
        sha256_of(deposits_root_of(deps.drop_last()) + sha256_of(enc_deposit(deps.last())))
    }
}

/// Appends the raw bytes of `b`.
fn append_raw(out: &mut Vec<u8>, b: &Vec<u8>)
    ensures
        final(out)@ == old(out)@ + b@,
{
    let mut i: usize = 0;
    while i < b.len()
        invariant
            i <= b.len(),
            out@ == old(out)@ + b@.take(i as int),
        decreases b.len() - i,
    {
        out.push(b[i]);
        proof {
            assert(out@ =~= old(out)@ + b@.take((i + 1) as int));
        }
        i += 1;
    }
    proof {
        assert(b@.take(b@.len() as int) =~= b@);
    }
}

/// Collects the rollup-tagged payloads of a block in order.
pub fn collect_rollup_items(txs: &Vec<Transaction>) -> (r: Vec<RollupItem>)
    ensures
        items_view(r@) == block_rollup_items(txs@),
{
    let mut out: Vec<RollupItem> = Vec::new();
    proof {
        assert(items_view(out@) =~= block_rollup_items(txs@.take(0)));
    }
    let mut i: usize = 0;
    while i < txs.len()
        invariant
            i <= txs.len(),
            items_view(out@) == block_rollup_items(txs@.take(i as int)),
        decreases txs.len() - i,
    {
        let tx = &txs[i];
        let ghost done = items_view(out@);
        proof {
            assert(items_view(out@) + tx_rollup_items(tx.actions@.take(0)) =~= items_view(out@));
        }
        let mut j: usize = 0;
        while j < tx.actions.len()
            invariant
                j <= tx.actions.len(),
                items_view(out@) == done + tx_rollup_items(tx.actions@.take(j as int)),
            decreases tx.actions.len() - j,
        {
            let ghost pre = out@;
            match &tx.actions[j] {
                Action::Sequence { rollup_id, data, .. } => {
                    let it = RollupItem {
                        rollup_id: copy_bytes(rollup_id),
                        data: copy_bytes(data),
                    };
                    let ghost itv = it@;
                    out.push(it);
                    proof {
                        assert(items_view(out@) =~= items_view(pre).push(itv));
                        assert(action_items(tx.actions@[j as int]) =~= seq![itv]);
                    }
                },
                _ => {
                    proof {
                        assert(action_items(tx.actions@[j as int]) =~= Seq::<(
                            Seq<u8>,
                            Seq<u8>,
                        )>::empty());
                    }
                },
            }
            proof {
                assert(tx.actions@.take((j + 1) as int).drop_last() =~= tx.actions@.take(j as int));
                assert(tx.actions@.take((j + 1) as int).last() == tx.actions@[j as int]);
                assert(items_view(out@) =~= done + tx_rollup_items(tx.actions@.take((j + 1) as int)));
            }
            j += 1;
        }
        proof {
            assert(tx.actions@.take(tx.actions@.len() as int) =~= tx.actions@);
            assert(txs@.take((i + 1) as int).drop_last() =~= txs@.take(i as int));
            assert(txs@.take((i + 1) as int).last() == txs@[i as int]);
        }
        i += 1;
    }
    proof {
        assert(txs@.take(txs@.len() as int) =~= txs@);
    }
    out
}

/// Computes the accumulator root over a collected item list.
pub fn items_root(items: &Vec<RollupItem>) -> (r: Vec<u8>)
    ensures
        r@ == items_root_of(items_view(items@)),
        r@.len() == 32,
{
    let empty: Vec<u8> = Vec::new();
    let mut acc = sha256(&empty);
    proof {
        assert(items_view(items@).take(0) =~= Seq::empty());
        assert(acc@ == items_root_of(items_view(items@).take(0)));
    }
    let mut i: usize = 0;
    while i < items.len()
        invariant
            i <= items.len(),
            acc@ == items_root_of(items_view(items@).take(i as int)),
            acc@.len() == 32,
        decreases items.len() - i,
    {
        let it = &items[i];
        let mut leaf_bytes: Vec<u8> = Vec::new();
        push_bytes(&mut leaf_bytes, &it.rollup_id);
        push_bytes(&mut leaf_bytes, &it.data);
        proof {
            assert(leaf_bytes@ =~= enc_item(items@[i as int]@));
        }
        let leaf = sha256(&leaf_bytes);
        let mut buf = copy_bytes(&acc);
        append_raw(&mut buf, &leaf);
        acc = sha256(&buf);
        proof {
            assert(items_view(items@).take((i + 1) as int).drop_last() =~= items_view(
                items@,
            ).take(i as int));
            assert(items_view(items@).take((i + 1) as int).last() == items@[i as int]@);
        }
        i += 1;
    }
    proof {
        assert(items_view(items@).take(items@.len() as int) =~= items_view(items@));
    }
    acc
}

/// Computes the rollup-data commitment of a block.
pub fn rollup_data_root(txs: &Vec<Transaction>) -> (r: Vec<u8>)
    ensures
        r@ == rollup_data_root_of(txs@),
        r@.len() == 32,
{
    let items = collect_rollup_items(txs);
    items_root(&items)
}

/// Computes the deposit commitment over a block's deposit list.
pub fn deposits_root(deps: &Vec<Deposit>) -> (r: Vec<u8>)
    ensures
        r@ == deposits_root_of(crate::actions::deps_view(deps@)),
        r@.len() == 32,
{
    let ghost dv = crate::actions::deps_view(deps@);
    let empty: Vec<u8> = Vec::new();
    let mut acc = sha256(&empty);
    proof {
        assert(dv.take(0) =~= Seq::empty());
        assert(acc@ == deposits_root_of(dv.take(0)));
    }
    let mut i: usize = 0;
    while i < deps.len()
        invariant
            i <= deps.len(),
            dv == crate::actions::deps_view(deps@),
            acc@ == deposits_root_of(dv.take(i as int)),
            acc@.len() == 32,
        decreases deps.len() - i,
    {
        let mut leaf_bytes: Vec<u8> = Vec::new();
        push_deposit(&mut leaf_bytes, &deps[i]);
        proof {
            assert(leaf_bytes@ =~= enc_deposit(deps@[i as int]@));
        }
        let leaf = sha256(&leaf_bytes);
        let mut buf = copy_bytes(&acc);
        append_raw(&mut buf, &leaf);
        acc = sha256(&buf);
        proof {
            assert(dv.take((i + 1) as int).drop_last() =~= dv.take(i as int));
            assert(dv.take((i + 1) as int).last() == deps@[i as int]@);
        }
        i += 1;
    }
    proof {
        assert(dv.take(deps@.len() as int) =~= dv);
    }
    acc
}

/// A fresh copy of one deposit record.
pub fn copy_deposit(d: &Deposit) -> (r: Deposit)
    ensures
        r@ == d@,
{
    Deposit {
        bridge_address: copy_bytes(&d.bridge_address),
        rollup_id: copy_bytes(&d.rollup_id),
        amount: d.amount,
        asset: copy_bytes(&d.asset),
        destination_chain_address: copy_bytes(&d.destination_chain_address),
    }
}

/// The deposits of one rollup, in emission order.
pub open spec fn deposits_for(deps: Seq<DepositView>, rollup_id: Seq<u8>) -> Seq<DepositView>
    decreases deps.len(),
{
    if deps.len() == 0 {
        Seq::<DepositView>::empty()
    } else {
        deposits_for(deps.drop_last(), rollup_id) + (if deps.last().rollup_id == rollup_id {
            seq![deps.last()]
        } else {
            Seq::<DepositView>::empty()
        })
    }
}

/// Filters a block's deposit list down to one rollup, keeping emission
/// order.
pub fn deposits_for_rollup(deps: &Vec<Deposit>, rollup_id: &Vec<u8>) -> (r: Vec<Deposit>)
    ensures
        crate::actions::deps_view(r@) == deposits_for(
            crate::actions::deps_view(deps@),
            rollup_id@,
        ),
{
    let ghost dv = crate::actions::deps_view(deps@);
    let mut out: Vec<Deposit> = Vec::new();
    proof {
        assert(crate::actions::deps_view(out@) =~= deposits_for(dv.take(0), rollup_id@));
    }
    let mut i: usize = 0;
    while i < deps.len()
        invariant
            i <= deps.len(),
            dv == crate::actions::deps_view(deps@),
            crate::actions::deps_view(out@) == deposits_for(dv.take(i as int), rollup_id@),
        decreases deps.len() - i,
    {
        if crate::bytes_util::bytes_eq(&deps[i].rollup_id, rollup_id) {
            out.push(copy_deposit(&deps[i]));
        }
        proof {
            assert(dv.take((i + 1) as int).drop_last() =~= dv.take(i as int));
            assert(dv.take((i + 1) as int).last() == deps@[i as int]@);
            assert(crate::actions::deps_view(out@) =~= deposits_for(
                dv.take((i + 1) as int),
                rollup_id@,
            ));
        }
        i += 1;
    }
    proof {
        assert(dv.take(deps@.len() as int) =~= dv);
    }
    out
}

/// Lays the two commitment roots into the reserved leading block-data
/// slots, ahead of the raw transaction payloads.
pub fn assemble_block_data(
    rollup_root: &Vec<u8>,
    deposit_root: &Vec<u8>,
    tx_bytes: Vec<Vec<u8>>,
) -> (r: Vec<Vec<u8>>)
    ensures
        r@.len() == 2 + tx_bytes@.len(),
        r@[0]@ == rollup_root@,
        r@[1]@ == deposit_root@,
        forall|i: int| 0 <= i < tx_bytes@.len() ==> r@[i + 2] == tx_bytes@[i],
{
    let mut out: Vec<Vec<u8>> = Vec::new();
    out.push(copy_bytes(rollup_root));
    out.push(copy_bytes(deposit_root));
    let mut rest = tx_bytes;
    out.append(&mut rest);
    out
}

} // verus!
