//! Unit tests: ledger arithmetic, fee formulas, nonce accounting,
//! atomicity, conservation, every error variant, and the digest primitive
//! against a known value.

use sequencer_core::commitment::{deposits_root, items_root, rollup_data_root};
use sequencer_core::controller::App;
use sequencer_core::digest::sha256;
use sequencer_core::types::{
    Action, ActionError, AppError, FeeSchedule, GenesisAccount, GenesisState, IbcParams,
    Transaction, TxError,
};

fn addr(tag: u8) -> Vec<u8> {
    vec![tag; 20]
}

fn nria() -> Vec<u8> {
    b"nria".to_vec()
}

fn genesis() -> GenesisState {
    GenesisState {
        accounts: vec![
            GenesisAccount { address: addr(1), balance: 1_000_000 },
            GenesisAccount { address: addr(2), balance: 1_000_000 },
            GenesisAccount { address: addr(3), balance: 1_000_000 },
        ],
        address_prefix: b"seq".to_vec(),
        authority_sudo_address: addr(1),
        ibc_sudo_address: addr(1),
        ibc_relayer_addresses: vec![addr(2)],
        native_asset: nria(),
        allowed_fee_assets: vec![nria()],
        fees: FeeSchedule {
            transfer_base_fee: 12,
            sequence_base_fee: 32,
            sequence_byte_cost_multiplier: 1,
            init_bridge_account_base_fee: 48,
            bridge_lock_byte_cost_multiplier: 1,
            bridge_sudo_change_fee: 24,
        },
        ibc_params: IbcParams {
            ibc_enabled: false,
            inbound_ics20_transfers_enabled: false,
            outbound_ics20_transfers_enabled: false,
        },
    }
}

fn app() -> App {
    let mut a = App::new();
    a.init_chain(&genesis()).unwrap();
    a
}

fn single(signer: Vec<u8>, nonce: u32, action: Action) -> Transaction {
    Transaction { signer, nonce, actions: vec![action] }
}

#[test]
fn transfer_moves_exact_amounts() {
    let mut a = app();
    let tx = single(addr(2), 0, Action::Transfer {
        to: addr(3),
        amount: 333_333,
        asset: nria(),
        fee_asset: nria(),
    });
    a.execute_transaction(&tx).unwrap();
    // Signer pays the amount and the 12 base fee; the fee goes to the sudo
    // address, so no value is created or destroyed.
    assert_eq!(a.working.get_balance(&addr(2), &nria()), 1_000_000 - 333_333 - 12);
    assert_eq!(a.working.get_balance(&addr(3), &nria()), 1_000_000 + 333_333);
    assert_eq!(a.working.get_balance(&addr(1), &nria()), 1_000_000 + 12);
}

#[test]
fn sequence_fee_is_base_plus_per_byte() {
    let mut a = app();
    let tx = single(addr(2), 0, Action::Sequence {
        rollup_id: b"roll".to_vec(),
        data: b"hello world".to_vec(),
        fee_asset: nria(),
    });
    a.execute_transaction(&tx).unwrap();
    // 32 base + 1 per byte over 11 bytes of payload.
    assert_eq!(a.working.get_balance(&addr(2), &nria()), 1_000_000 - 43);
    assert_eq!(a.working.get_balance(&addr(1), &nria()), 1_000_000 + 43);
}

#[test]
fn native_supply_is_conserved() {
    let mut a = app();
    let tx = Transaction {
        signer: addr(2),
        nonce: 0,
        actions: vec![
            Action::Transfer { to: addr(3), amount: 1000, asset: nria(), fee_asset: nria() },
            Action::Sequence {
                rollup_id: b"roll".to_vec(),
                data: b"abc".to_vec(),
                fee_asset: nria(),
            },
        ],
    };
    a.execute_transaction(&tx).unwrap();
    let total: u128 = a.working.get_balance(&addr(1), &nria())
        + a.working.get_balance(&addr(2), &nria()) + a.working.get_balance(&addr(3), &nria());
    assert_eq!(total, 3_000_000);
}

#[test]
fn nonce_counts_accepted_transactions() {
    let mut a = app();
    let t0 = single(addr(2), 0, Action::Sequence {
        rollup_id: b"r".to_vec(),
        data: vec![],
        fee_asset: nria(),
    });
    let t1 = single(addr(2), 1, Action::Sequence {
        rollup_id: b"r".to_vec(),
        data: vec![],
        fee_asset: nria(),
    });
    a.execute_transaction(&t0).unwrap();
    a.execute_transaction(&t1).unwrap();
    assert_eq!(a.working.get_nonce(&addr(2)), 2);
    // A rejected transaction does not advance the nonce.
    let bad = single(addr(2), 7, Action::Sequence {
        rollup_id: b"r".to_vec(),
        data: vec![],
        fee_asset: nria(),
    });
    let r = a.execute_transaction(&bad);
    assert_eq!(
        r,
        Err(AppError::Rejected(TxError::NonceMismatch { expected: 2, got: 7 }))
    );
    assert_eq!(a.working.get_nonce(&addr(2)), 2);
}

#[test]
fn failed_action_rolls_back_whole_transaction() {
    let mut a = app();
    let before = a.working.get_balance(&addr(3), &nria());
    // The transfer would succeed; the sudo change from a non-sudo signer
    // fails; neither effect survives.
    let tx = Transaction {
        signer: addr(2),
        nonce: 0,
        actions: vec![
            Action::Transfer { to: addr(3), amount: 1000, asset: nria(), fee_asset: nria() },
            Action::SudoAddressChange { new_address: addr(2) },
        ],
    };
    let r = a.execute_transaction(&tx);
    assert_eq!(
        r,
        Err(AppError::Rejected(TxError::ActionFailed {
            index: 1,
            error: ActionError::Unauthorized
        }))
    );
    assert_eq!(a.working.get_balance(&addr(3), &nria()), before);
    assert_eq!(a.working.get_balance(&addr(2), &nria()), 1_000_000);
    assert_eq!(a.working.get_nonce(&addr(2)), 0);
}

#[test]
fn insufficient_funds_is_reported() {
    let mut a = app();
    let tx = single(addr(2), 0, Action::Transfer {
        to: addr(3),
        amount: 10_000_000,
        asset: nria(),
        fee_asset: nria(),
    });
    let r = a.execute_transaction(&tx);
    assert_eq!(
        r,
        Err(AppError::Rejected(TxError::ActionFailed {
            index: 0,
            error: ActionError::InsufficientFunds
        }))
    );
}

#[test]
fn unlisted_fee_asset_is_rejected() {
    let mut a = app();
    let tx = single(addr(2), 0, Action::Transfer {
        to: addr(3),
        amount: 1,
        asset: nria(),
        fee_asset: b"bogus".to_vec(),
    });
    let r = a.execute_transaction(&tx);
    assert_eq!(
        r,
        Err(AppError::Rejected(TxError::ActionFailed {
            index: 0,
            error: ActionError::UnauthorizedFeeAsset
        }))
    );
}

#[test]
fn relayer_change_needs_ibc_sudo() {
    let mut a = app();
    let tx = single(addr(2), 0, Action::IbcRelayerChangeAddition { address: addr(3) });
    let r = a.execute_transaction(&tx);
    assert_eq!(
        r,
        Err(AppError::Rejected(TxError::ActionFailed {
            index: 0,
            error: ActionError::Unauthorized
        }))
    );
    // The genesis relayer is present and removable by the ibc sudo.
    assert!(a.working.has_relayer(&addr(2)));
    let rm = single(addr(1), 0, Action::IbcRelayerChangeRemoval { address: addr(2) });
    a.execute_transaction(&rm).unwrap();
    assert!(!a.working.has_relayer(&addr(2)));
}

#[test]
fn bridge_errors_are_distinguished() {
    let mut a = app();
    // Locking into an unregistered bridge account fails.
    let lock = single(addr(2), 0, Action::BridgeLock {
        to: addr(9),
        amount: 1,
        asset: nria(),
        fee_asset: nria(),
        destination_chain_address: b"d".to_vec(),
    });
    let r = a.execute_transaction(&lock);
    assert_eq!(
        r,
        Err(AppError::Rejected(TxError::ActionFailed {
            index: 0,
            error: ActionError::BridgeNotInitialized
        }))
    );

    // Register a bridge account for the signer.
    let init = single(addr(2), 0, Action::InitBridgeAccount {
        rollup_id: b"roll".to_vec(),
        asset: nria(),
        fee_asset: nria(),
        sudo_address: None,
        withdrawer_address: None,
    });
    a.execute_transaction(&init).unwrap();

    // Registering it a second time fails.
    let again = single(addr(2), 1, Action::InitBridgeAccount {
        rollup_id: b"roll".to_vec(),
        asset: nria(),
        fee_asset: nria(),
        sudo_address: None,
        withdrawer_address: None,
    });
    let r = a.execute_transaction(&again);
    assert_eq!(
        r,
        Err(AppError::Rejected(TxError::ActionFailed {
            index: 0,
            error: ActionError::BridgeAccountExists
        }))
    );

    // Locking an asset other than the bridge's allowed one fails.
    let wrong = single(addr(3), 0, Action::BridgeLock {
        to: addr(2),
        amount: 1,
        asset: b"other".to_vec(),
        fee_asset: nria(),
        destination_chain_address: b"d".to_vec(),
    });
    let r = a.execute_transaction(&wrong);
    assert_eq!(
        r,
        Err(AppError::Rejected(TxError::ActionFailed {
            index: 0,
            error: ActionError::AssetMismatch
        }))
    );
}

#[test]
fn extension_actions_are_rejected() {
    let mut a = app();
    let tx = single(addr(2), 0, Action::Ics20Withdrawal { payload: vec![1, 2, 3] });
    let r = a.execute_transaction(&tx);
    assert_eq!(
        r,
        Err(AppError::Rejected(TxError::ActionFailed {
            index: 0,
            error: ActionError::UnsupportedAction
        }))
    );
    let tx = single(addr(2), 0, Action::IbcRelay { payload: vec![] });
    let r = a.execute_transaction(&tx);
    assert_eq!(
        r,
        Err(AppError::Rejected(TxError::ActionFailed {
            index: 0,
            error: ActionError::UnsupportedAction
        }))
    );
}

#[test]
fn sha256_matches_known_digest() {
    // SHA-256 of the empty string, byte for byte; a wrapper that handed
    // its input back would fail this.
    let d = sha256(&Vec::new());
    let expected: Vec<u8> = vec![
        0xe3, 0xb0, 0xc4, 0x42, 0x98, 0xfc, 0x1c, 0x14, 0x9a, 0xfb, 0xf4, 0xc8, 0x99, 0x6f,
        0xb9, 0x24, 0x27, 0xae, 0x41, 0xe4, 0x64, 0x9b, 0x93, 0x4c, 0xa4, 0x95, 0x99, 0x1b,
        0x78, 0x52, 0xb8, 0x55,
    ];
    assert_eq!(d, expected);
}

#[test]
fn commitment_roots_have_digest_shape() {
    let empty_deps = deposits_root(&vec![]);
    let empty_items = items_root(&vec![]);
    let d = sha256(&Vec::new());
    assert_eq!(empty_deps, d);
    assert_eq!(empty_items, d);

    let txs = vec![single(addr(2), 0, Action::Sequence {
        rollup_id: b"roll".to_vec(),
        data: b"payload".to_vec(),
        fee_asset: nria(),
    })];
    let root = rollup_data_root(&txs);
    assert_eq!(root.len(), 32);
    assert_ne!(root, d);
}

#[test]
fn finalize_block_reports_offending_index() {
    let mut a = app();
    let good = single(addr(2), 0, Action::Sequence {
        rollup_id: b"r".to_vec(),
        data: vec![],
        fee_asset: nria(),
    });
    let bad = single(addr(3), 5, Action::Sequence {
        rollup_id: b"r".to_vec(),
        data: vec![],
        fee_asset: nria(),
    });
    let r = a.finalize_block(&vec![good, bad]);
    match r {
        Err(sequencer_core::types::FatalError::ProtocolViolation { index, error }) => {
            assert_eq!(index, 1);
            assert_eq!(error, TxError::NonceMismatch { expected: 0, got: 5 });
        },
        _ => panic!("expected a protocol violation"),
    }
}
