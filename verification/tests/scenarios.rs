//! End-to-end scenarios: genesis, block finalization with deposits,
//! an every-action transaction, order sensitivity, and the bridge account
//! lifecycle.

use sequencer_core::commitment::deposits_for_rollup;
use sequencer_core::controller::{App, Phase};
use sequencer_core::types::{
    Action, ActionError, AppError, FeeSchedule, GenesisAccount, GenesisState, IbcParams,
    Transaction, TxError,
};

fn addr(tag: u8) -> Vec<u8> {
    vec![tag; 20]
}

fn nria() -> Vec<u8> {
    b"nria".to_vec()
}

fn default_fees() -> FeeSchedule {
    FeeSchedule {
        transfer_base_fee: 12,
        sequence_base_fee: 32,
        sequence_byte_cost_multiplier: 1,
        init_bridge_account_base_fee: 48,
        bridge_lock_byte_cost_multiplier: 1,
        bridge_sudo_change_fee: 24,
    }
}

fn genesis_with(accounts: Vec<GenesisAccount>) -> GenesisState {
    GenesisState {
        accounts,
        address_prefix: b"seq".to_vec(),
        authority_sudo_address: addr(1),
        ibc_sudo_address: addr(1),
        ibc_relayer_addresses: vec![],
        native_asset: nria(),
        allowed_fee_assets: vec![nria()],
        fees: default_fees(),
        ibc_params: IbcParams {
            ibc_enabled: true,
            inbound_ics20_transfers_enabled: true,
            outbound_ics20_transfers_enabled: true,
        },
    }
}

fn funded_genesis() -> GenesisState {
    genesis_with(vec![
        GenesisAccount { address: addr(1), balance: 1_000_000_000_000 },
        GenesisAccount { address: addr(2), balance: 1_000_000_000_000 },
        GenesisAccount { address: addr(3), balance: 1_000_000_000_000 },
        GenesisAccount { address: addr(99), balance: 1_000_000_000 },
    ])
}

#[test]
fn genesis_app_hash_is_stable() {
    let mut app1 = App::new();
    let mut app2 = App::new();
    app1.init_chain(&genesis_with(vec![])).unwrap();
    app2.init_chain(&genesis_with(vec![])).unwrap();
    let h1 = app1.current_app_hash();
    let h2 = app2.current_app_hash();
    assert_eq!(h1, h2);
    assert_eq!(h1.len(), 32);
}

#[test]
fn second_genesis_is_fatal() {
    let mut app = App::new();
    app.init_chain(&genesis_with(vec![])).unwrap();
    let r = app.init_chain(&genesis_with(vec![]));
    assert!(r.is_err());
}

fn run_bridge_lock_block(app: &mut App) -> Vec<u8> {
    app.init_chain(&funded_genesis()).unwrap();

    // Register the bridge account for rollup "testchainid".
    let init_tx = Transaction {
        signer: addr(99),
        nonce: 0,
        actions: vec![Action::InitBridgeAccount {
            rollup_id: b"testchainid".to_vec(),
            asset: nria(),
            fee_asset: nria(),
            sudo_address: None,
            withdrawer_address: None,
        }],
    };
    app.finalize_block(&vec![init_tx]).unwrap();
    app.commit().unwrap();

    // One bridge lock of 100 plus one sequence action.
    let lock_tx = Transaction {
        signer: addr(1),
        nonce: 0,
        actions: vec![
            Action::BridgeLock {
                to: addr(99),
                amount: 100,
                asset: nria(),
                fee_asset: nria(),
                destination_chain_address: b"nootwashere".to_vec(),
            },
            Action::Sequence {
                rollup_id: b"testchainid".to_vec(),
                data: b"hello world".to_vec(),
                fee_asset: nria(),
            },
        ],
    };
    app.finalize_block(&vec![lock_tx]).unwrap();
    app.commit().unwrap()
}

#[test]
fn bridge_lock_block_emits_one_deposit() {
    let mut app = App::new();
    let genesis_hash = {
        let mut fresh = App::new();
        fresh.init_chain(&funded_genesis()).unwrap();
        fresh.current_app_hash()
    };
    let final_hash = run_bridge_lock_block(&mut app);

    let deps = deposits_for_rollup(&app.block_deposits, &b"testchainid".to_vec());
    assert_eq!(deps.len(), 1);
    assert_eq!(deps[0].amount, 100);
    assert_eq!(deps[0].bridge_address, addr(99));
    assert_eq!(deps[0].destination_chain_address, b"nootwashere".to_vec());

    assert_ne!(final_hash, genesis_hash);

    // Re-running the identical history on an independent instance
    // reproduces the identical hash.
    let mut app2 = App::new();
    let final_hash2 = run_bridge_lock_block(&mut app2);
    assert_eq!(final_hash, final_hash2);
}

fn every_action_tx() -> Transaction {
    Transaction {
        signer: addr(1),
        nonce: 0,
        actions: vec![
            Action::Transfer {
                to: addr(2),
                amount: 333_333,
                asset: nria(),
                fee_asset: nria(),
            },
            Action::Sequence {
                rollup_id: b"testchainid".to_vec(),
                data: b"hello world".to_vec(),
                fee_asset: nria(),
            },
            Action::ValidatorUpdate { pub_key: vec![1u8; 32], power: 100 },
            Action::IbcRelayerChangeAddition { address: addr(2) },
            Action::IbcRelayerChangeAddition { address: addr(3) },
            Action::IbcRelayerChangeRemoval { address: addr(2) },
            Action::FeeAssetChangeAddition { asset: b"test-0".to_vec() },
            Action::FeeAssetChangeAddition { asset: b"test-1".to_vec() },
            Action::FeeAssetChangeRemoval { asset: b"test-0".to_vec() },
            Action::SudoAddressChange { new_address: addr(2) },
        ],
    }
}

#[test]
fn every_action_transaction_executes_and_commits() {
    let run = || {
        let mut app = App::new();
        app.init_chain(&funded_genesis()).unwrap();
        app.execute_transaction(&every_action_tx()).unwrap();
        app.prepare_commit().unwrap();
        app.commit().unwrap()
    };
    let h1 = run();
    let h2 = run();
    assert_eq!(h1, h2);
    assert_eq!(h1.len(), 32);

    // The governance effects are visible in the committed state.
    let mut app = App::new();
    app.init_chain(&funded_genesis()).unwrap();
    app.execute_transaction(&every_action_tx()).unwrap();
    app.prepare_commit().unwrap();
    app.commit().unwrap();
    assert!(app.committed.has_fee_asset(&b"test-1".to_vec()));
    assert!(!app.committed.has_fee_asset(&b"test-0".to_vec()));
    assert!(app.committed.has_relayer(&addr(3)));
    assert!(!app.committed.has_relayer(&addr(2)));
    assert_eq!(app.committed.sudo_address, addr(2));
}

#[test]
fn block_order_changes_app_hash() {
    // T1 moves the fee-collecting sudo address; T2 pays a fee.  Swapping
    // their block order redirects T2's fee and must change the hash, while
    // each order individually is reproducible.
    let t1 = || Transaction {
        signer: addr(1),
        nonce: 0,
        actions: vec![Action::SudoAddressChange { new_address: addr(2) }],
    };
    let t2 = || Transaction {
        signer: addr(3),
        nonce: 0,
        actions: vec![Action::Transfer {
            to: addr(2),
            amount: 5,
            asset: nria(),
            fee_asset: nria(),
        }],
    };
    let run = |txs: Vec<Transaction>| {
        let mut app = App::new();
        app.init_chain(&funded_genesis()).unwrap();
        app.finalize_block(&txs).unwrap();
        app.commit().unwrap()
    };
    let h12 = run(vec![t1(), t2()]);
    let h21 = run(vec![t2(), t1()]);
    let h12_again = run(vec![t1(), t2()]);
    assert_eq!(h12, h12_again);
    assert_ne!(h12, h21);
}

#[test]
fn bridge_lifecycle_and_unlock_authorization() {
    let mut app = App::new();
    app.init_chain(&funded_genesis()).unwrap();

    let init_tx = Transaction {
        signer: addr(99),
        nonce: 0,
        actions: vec![Action::InitBridgeAccount {
            rollup_id: b"testchainid".to_vec(),
            asset: nria(),
            fee_asset: nria(),
            sudo_address: None,
            withdrawer_address: None,
        }],
    };
    app.finalize_block(&vec![init_tx]).unwrap();
    app.commit().unwrap();

    // Lock, unlock and sudo change from the registered withdrawer/sudo.
    let lifecycle_tx = Transaction {
        signer: addr(99),
        nonce: 1,
        actions: vec![
            Action::BridgeLock {
                to: addr(99),
                amount: 100,
                asset: nria(),
                fee_asset: nria(),
                destination_chain_address: b"nootwashere".to_vec(),
            },
            Action::BridgeUnlock {
                to: addr(2),
                amount: 10,
                fee_asset: nria(),
                memo: vec![0u8; 32],
                bridge_address: None,
            },
            Action::BridgeSudoChange {
                bridge_address: addr(99),
                new_sudo_address: Some(addr(2)),
                new_withdrawer_address: Some(addr(2)),
                fee_asset: nria(),
            },
        ],
    };
    app.execute_transaction(&lifecycle_tx).unwrap();
    app.prepare_commit().unwrap();
    app.commit().unwrap();
    assert_eq!(app.phase, Phase::Ready);

    // The same unlock from a non-withdrawer fails as unauthorized, and the
    // working state is untouched.
    let hash_before = app.current_app_hash();
    let rogue_unlock = Transaction {
        signer: addr(3),
        nonce: 0,
        actions: vec![Action::BridgeUnlock {
            to: addr(3),
            amount: 1,
            fee_asset: nria(),
            memo: vec![],
            bridge_address: Some(addr(99)),
        }],
    };
    let r = app.execute_transaction(&rogue_unlock);
    assert_eq!(
        r,
        Err(AppError::Rejected(TxError::ActionFailed {
            index: 0,
            error: ActionError::Unauthorized
        }))
    );
    app.prepare_commit().unwrap();
    app.commit().unwrap();
    assert_eq!(app.current_app_hash(), hash_before);
}
