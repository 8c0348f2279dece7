//! Data model of the sequencer core: ledger entries, bridge accounts,
//! deposits, genesis configuration, actions, transactions and errors,
//! together with the mathematical views the contracts are stated over.

use vstd::prelude::*;

verus! {

// ---------------------------------------------------------------------------
// Ledger entries and their views
// ---------------------------------------------------------------------------

/// One balance cell of the ledger: the amount of one asset held by one
/// address.
pub struct BalanceEntry {
    pub address: Vec<u8>,
    pub asset: Vec<u8>,
    pub amount: u128,
}

/// Mathematical view of a [`BalanceEntry`].
#[verifier::ext_equal]
pub struct BalView {
    pub address: Seq<u8>,
    pub asset: Seq<u8>,
    pub amount: u128,
}

impl View for BalanceEntry {
    type V = BalView;

    open spec fn view(&self) -> BalView {
        BalView { address: self.address@, asset: self.asset@, amount: self.amount }
    }
}

/// The transaction counter of one address.
pub struct NonceEntry {
    pub address: Vec<u8>,
    pub nonce: u32,
}

/// Mathematical view of a [`NonceEntry`].
#[verifier::ext_equal]
pub struct NonceView {
    pub address: Seq<u8>,
    pub nonce: u32,
}

impl View for NonceEntry {
    type V = NonceView;

    open spec fn view(&self) -> NonceView {
        NonceView { address: self.address@, nonce: self.nonce }
    }
}

/// A registered bridge account: its rollup association, the one asset it may
/// hold locked funds in, and its governance addresses.  The sudo and
/// withdrawer addresses are always resolved (they default to the initializing
/// signer), so no optional field remains in state.
pub struct BridgeEntry {
    pub address: Vec<u8>,
    pub rollup_id: Vec<u8>,
    pub asset: Vec<u8>,
    pub sudo_address: Vec<u8>,
    pub withdrawer_address: Vec<u8>,
}

/// Mathematical view of a [`BridgeEntry`].
#[verifier::ext_equal]
pub struct BridgeView {
    pub address: Seq<u8>,
    pub rollup_id: Seq<u8>,
    pub asset: Seq<u8>,
    pub sudo_address: Seq<u8>,
    pub withdrawer_address: Seq<u8>,
}

impl View for BridgeEntry {
    type V = BridgeView;

    open spec fn view(&self) -> BridgeView {
        BridgeView {
            address: self.address@,
            rollup_id: self.rollup_id@,
            asset: self.asset@,
            sudo_address: self.sudo_address@,
            withdrawer_address: self.withdrawer_address@,
        }
    }
}

/// One validator-set entry: a public key and its voting power.
pub struct ValidatorEntry {
    pub pub_key: Vec<u8>,
    pub power: u32,
}

/// Mathematical view of a [`ValidatorEntry`].
#[verifier::ext_equal]
pub struct ValidatorView {
    pub pub_key: Seq<u8>,
    pub power: u32,
}

impl View for ValidatorEntry {
    type V = ValidatorView;

    open spec fn view(&self) -> ValidatorView {
        ValidatorView { pub_key: self.pub_key@, power: self.power }
    }
}

// ---------------------------------------------------------------------------
// Fee schedule and protocol parameters
// ---------------------------------------------------------------------------

/// Fee schedule: the base fee and byte-cost multipliers charged per action
/// kind, denominated in the transaction's declared fee asset.
#[derive(Clone, Copy)]
pub struct FeeSchedule {
    pub transfer_base_fee: u128,
    pub sequence_base_fee: u128,
    pub sequence_byte_cost_multiplier: u128,
    pub init_bridge_account_base_fee: u128,
    pub bridge_lock_byte_cost_multiplier: u128,
    pub bridge_sudo_change_fee: u128,
}

/// Protocol switches for the inter-blockchain-communication subsystem.  The
/// relay and withdrawal actions themselves are extension points outside the
/// reproducible core, but the switches are part of the genesis document and
/// of the committed state.
#[derive(Clone, Copy)]
pub struct IbcParams {
    pub ibc_enabled: bool,
    pub inbound_ics20_transfers_enabled: bool,
    pub outbound_ics20_transfers_enabled: bool,
}

// ---------------------------------------------------------------------------
// Deposits
// ---------------------------------------------------------------------------

/// Immutable record of value locked into a bridge account, destined for a
/// rollup.  Created by a bridge-lock action and never mutated.
pub struct Deposit {
    pub bridge_address: Vec<u8>,
    pub rollup_id: Vec<u8>,
    pub amount: u128,
    pub asset: Vec<u8>,
    pub destination_chain_address: Vec<u8>,
}

/// Mathematical view of a [`Deposit`].
#[verifier::ext_equal]
pub struct DepositView {
    pub bridge_address: Seq<u8>,
    pub rollup_id: Seq<u8>,
    pub amount: u128,
    pub asset: Seq<u8>,
    pub destination_chain_address: Seq<u8>,
}

impl View for Deposit {
    type V = DepositView;

    open spec fn view(&self) -> DepositView {
        DepositView {
            bridge_address: self.bridge_address@,
            rollup_id: self.rollup_id@,
            amount: self.amount,
            asset: self.asset@,
            destination_chain_address: self.destination_chain_address@,
        }
    }
}

// ---------------------------------------------------------------------------
// Genesis
// ---------------------------------------------------------------------------

/// One pre-funded account of the genesis document, holding the native asset.
pub struct GenesisAccount {
    pub address: Vec<u8>,
    pub balance: u128,
}

/// The genesis document: initial accounts, address-prefix configuration,
/// governance addresses, allowed relayer addresses, native denomination,
/// fee-asset allow-list, fee schedule and protocol parameters.  Consumed
/// exactly once at chain start.
pub struct GenesisState {
    pub accounts: Vec<GenesisAccount>,
    pub address_prefix: Vec<u8>,
    pub authority_sudo_address: Vec<u8>,
    pub ibc_sudo_address: Vec<u8>,
    pub ibc_relayer_addresses: Vec<Vec<u8>>,
    pub native_asset: Vec<u8>,
    pub allowed_fee_assets: Vec<Vec<u8>>,
    pub fees: FeeSchedule,
    pub ibc_params: IbcParams,
}

// ---------------------------------------------------------------------------
// Actions and transactions
// ---------------------------------------------------------------------------

/// The closed set of action kinds a transaction may carry.  The relay and
/// withdrawal variants are extension points: the dispatcher rejects them, as
/// their semantics depend on external bridge protocol state outside the
/// reproducible core.
#[allow(inconsistent_fields)]
pub enum Action {
    Transfer { to: Vec<u8>, amount: u128, asset: Vec<u8>, fee_asset: Vec<u8> },
    Sequence { rollup_id: Vec<u8>, data: Vec<u8>, fee_asset: Vec<u8> },
    ValidatorUpdate { pub_key: Vec<u8>, power: u32 },
    SudoAddressChange { new_address: Vec<u8> },
    IbcRelayerChangeAddition { address: Vec<u8> },
    IbcRelayerChangeRemoval { address: Vec<u8> },
    FeeAssetChangeAddition { asset: Vec<u8> },
    FeeAssetChangeRemoval { asset: Vec<u8> },
    InitBridgeAccount {
        rollup_id: Vec<u8>,
        asset: Vec<u8>,
        fee_asset: Vec<u8>,
        sudo_address: Option<Vec<u8>>,
        withdrawer_address: Option<Vec<u8>>,
    },
    BridgeLock {
        to: Vec<u8>,
        amount: u128,
        asset: Vec<u8>,
        fee_asset: Vec<u8>,
        destination_chain_address: Vec<u8>,
    },
    BridgeUnlock {
        to: Vec<u8>,
        amount: u128,
        fee_asset: Vec<u8>,
        memo: Vec<u8>,
        bridge_address: Option<Vec<u8>>,
    },
    BridgeSudoChange {
        bridge_address: Vec<u8>,
        new_sudo_address: Option<Vec<u8>>,
        new_withdrawer_address: Option<Vec<u8>>,
        fee_asset: Vec<u8>,
    },
    Ics20Withdrawal { payload: Vec<u8> },
    IbcRelay { payload: Vec<u8> },
}

/// A transaction: the recovered signer, the expected nonce, and the ordered
/// action list.  Signature recovery and the wire format are outside this
/// core; callers hand the signer in as a plain value.
pub struct Transaction {
    pub signer: Vec<u8>,
    pub nonce: u32,
    pub actions: Vec<Action>,
}

// ---------------------------------------------------------------------------
// Errors
// ---------------------------------------------------------------------------

/// Why a single action was rejected.  Rejection never mutates state.
#[derive(Clone, Copy, PartialEq, Eq, Structural, Debug)]
pub enum ActionError {
    /// Debited account holds less of the asset than the debit amount.
    InsufficientFunds,
    /// The declared fee asset is not in the fee-asset allow-list.
    UnauthorizedFeeAsset,
    /// The signer lacks the required sudo or withdrawer privilege.
    Unauthorized,
    /// A bridge account already exists at the initialized address.
    BridgeAccountExists,
    /// The named bridge account was never initialized.
    BridgeNotInitialized,
    /// The locked asset does not match the bridge account's allowed asset.
    AssetMismatch,
    /// Crediting would push a balance above the largest representable amount.
    BalanceOverflow,
    /// The computed fee does not fit in the amount type.
    FeeOverflow,
    /// The action kind is an extension point outside the reproducible core.
    UnsupportedAction,
}

/// Why a whole transaction was rejected.  A rejected transaction leaves no
/// trace in state.
#[derive(Clone, Copy, PartialEq, Eq, Structural, Debug)]
pub enum TxError {
    /// The transaction's nonce differs from the signer's stored nonce.
    NonceMismatch { expected: u32, got: u32 },
    /// The signer's nonce counter is exhausted; no further transaction from
    /// this address can be accepted.
    NonceOverflow,
    /// The action at `index` failed; no earlier action's effect survives.
    ActionFailed { index: usize, error: ActionError },
}

/// A controller-level result: either a transaction-local rejection, which
/// aborts only that transaction, or a fatal error that stops block
/// processing.
#[derive(Clone, Copy, PartialEq, Eq, Structural, Debug)]
pub enum AppError {
    /// Unrecoverable; block processing must halt.
    Fatal(FatalError),
    /// Transaction-local; the transaction left no trace in state.
    Rejected(TxError),
}

/// Errors that stop block processing.  None of them is recoverable by
/// retrying, since re-applying a partially committed block could double
/// its effects.
#[derive(Clone, Copy, PartialEq, Eq, Structural, Debug)]
pub enum FatalError {
    /// Genesis was consumed already; it must not be re-applied.
    AlreadyInitialized,
    /// The controller has no committed state to work from yet.
    NotInitialized,
    /// The call does not fit the controller's current phase.
    InvalidPhase,
    /// A finalized block carried a transaction that fails execution: a
    /// consensus-breaking discrepancy, fatal for the node.
    ProtocolViolation { index: usize, error: TxError },
}

} // verus!
