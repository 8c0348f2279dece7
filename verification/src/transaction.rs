//! Transaction execution: nonce check and increment, then the action list
//! in order, atomically.
//!
//! A transaction executes against a snapshot of the caller's state.  On any
//! failure the snapshot is dropped whole, so a rejected transaction leaves
//! no trace: not the nonce increment, not a fee, not a deposit.

use vstd::prelude::*;
use crate::actions::{apply_action, deps_view, spec_apply_action};
use crate::state::{lemma_put_nonce, nonce_of, spec_put_nonce, wf_state, State, StateView};
use crate::types::{Action, ActionError, Deposit, DepositView, Transaction, TxError};

verus! {

/// Folds the action list over the state from the front, stopping at the
/// first rejection, whose position is reported.
pub open spec fn spec_apply_actions(s: StateView, signer: Seq<u8>, acts: Seq<Action>) -> Result<
    (StateView, Seq<DepositView>),
    (int, ActionError),
>
    decreases acts.len(),
{
    if acts.len() == 0 {
        Ok((s, Seq::<DepositView>::empty()))
    } else {
        match spec_apply_action(s, signer, acts[0]) {
            Err(e) => Err((0, e)),
            Ok(r1) => match spec_apply_actions(r1.0, signer, acts.skip(1)) {
                Err(p) => Err((p.0 + 1, p.1)),
                Ok(r2) => Ok((r2.0, r1.1 + r2.1)),
            },
        }
    }
}

/// The transition of one whole transaction: nonce check, nonce increment,
/// then every action in order.  Either the successor state with the
/// deposits the transaction emitted, or the error rejecting it — in which
/// case the transaction has no effect at all.
pub open spec fn spec_apply_tx(s: StateView, tx: Transaction) -> Result<
    (StateView, Seq<DepositView>),
    TxError,
> {
    let n = nonce_of(s, tx.signer@);
    if tx.nonce != n {
        Err(TxError::NonceMismatch { expected: n, got: tx.nonce })
    } else if n == u32::MAX {
        Err(TxError::NonceOverflow)
    } else {
        let s1 = spec_put_nonce(s, tx.signer@, (n + 1) as u32);
        match spec_apply_actions(s1, tx.signer@, tx.actions@) {
            Err(p) => Err(TxError::ActionFailed { index: p.0 as usize, error: p.1 }),
            Ok(r) => Ok(r),
        }
    }
}

/// Executes one transaction against a snapshot of `st` and returns the new
/// state and the emitted deposits, or the rejection error.  `st` itself is
/// never touched, which is what makes transactions atomic.
pub fn apply_transaction(st: &State, tx: &Transaction) -> (r: Result<
    (State, Vec<Deposit>),
    TxError,
>)
    requires
        wf_state(st@),
    ensures
        match spec_apply_tx(st@, *tx) {
            Ok(res) => r matches Ok(p) && p.0@ == res.0 && wf_state(p.0@) && deps_view(p.1@)
                == res.1,
            Err(e) => r matches Err(e2) && e2 == e,
        },
{
    let n = st.get_nonce(&tx.signer);
    if tx.nonce != n {
        return Err(TxError::NonceMismatch { expected: n, got: tx.nonce });
    }
    if n == u32::MAX {
        return Err(TxError::NonceOverflow);
    }
    let mut work = st.snapshot();
    work.put_nonce(&tx.signer, n + 1);
    proof {
        lemma_put_nonce(st@, tx.signer@, (n + 1) as u32);
        assert(tx.actions@.skip(0) =~= tx.actions@);
    }
    let mut deps: Vec<Deposit> = Vec::new();
    let mut i: usize = 0;
    proof {
        assert(deps_view(deps@) =~= Seq::<DepositView>::empty());
    }
    while i < tx.actions.len()
        invariant
            i <= tx.actions.len(),
            wf_state(work@),
            spec_apply_tx(st@, *tx) == (match spec_apply_actions(
                work@,
                tx.signer@,
                tx.actions@.skip(i as int),
            ) {
                Ok(res) => Ok::<(StateView, Seq<DepositView>), TxError>(
                    (res.0, deps_view(deps@) + res.1),
                ),
                Err(p) => Err::<(StateView, Seq<DepositView>), TxError>(
                    TxError::ActionFailed { index: (i + p.0) as usize, error: p.1 },
                ),
            }),
        decreases tx.actions.len() - i,
    {
        let ghost pre = work@;
        let ghost pre_deps = deps@;
        proof {
            assert(tx.actions@.skip(i as int)[0] == tx.actions@[i as int]);
            assert(tx.actions@.skip(i as int).skip(1) =~= tx.actions@.skip(i as int + 1));
        }
        match apply_action(&mut work, &tx.signer, &tx.actions[i], &mut deps) {
            Ok(()) => {},
            Err(e) => {
                proof {
                    assert(spec_apply_actions(pre, tx.signer@, tx.actions@.skip(i as int))
                        == Err::<(StateView, Seq<DepositView>), (int, ActionError)>((0, e)));
                }
                return Err(TxError::ActionFailed { index: i, error: e });
            },
        }
        proof {
            match spec_apply_actions(work@, tx.signer@, tx.actions@.skip(i as int + 1)) {
                Ok(r2) => {
                    let r1 = spec_apply_action(pre, tx.signer@, tx.actions@[i as int]).unwrap();
                    assert(deps_view(deps@) + r2.1 =~= deps_view(pre_deps) + (r1.1 + r2.1));
                },
                Err(p2) => {
                    assert(((i + 1) + p2.0) as usize == (i + (1 + p2.0)) as usize);
                },
            }
        }
        i += 1;
    }
    proof {
        assert(tx.actions@.skip(tx.actions@.len() as int) =~= Seq::<Action>::empty());
        assert(deps_view(deps@) + Seq::<DepositView>::empty() =~= deps_view(deps@));
    }
    Ok((work, deps))
}

} // verus!
