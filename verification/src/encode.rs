//! A canonical byte encoding of the state and of deposits.
//!
//! The application hash is the digest of this encoding, so the encoding
//! must be a pure function of the state value: fixed-width big-endian
//! integers, length-prefixed byte strings, and tables written in their
//! stored order.

use vstd::prelude::*;
use crate::state::{bals_view, bridges_view, elems_view, nonces_view, validators_view, State,
    StateView};
use crate::types::{BalView, BalanceEntry, BridgeEntry, BridgeView, Deposit, DepositView,
    FeeSchedule, IbcParams, NonceEntry, NonceView, ValidatorEntry, ValidatorView};
use crate::digest::{sha256, sha256_of};

verus! {

/// Big-endian bytes of a 32-bit integer.
pub open spec fn enc_u32(x: u32) -> Seq<u8> {
    seq![
        (x / 0x1000000 % 256) as u8,
        (x / 0x10000 % 256) as u8,
        (x / 0x100 % 256) as u8,
        (x % 256) as u8,
    ]
}

/// Big-endian bytes of a 64-bit integer.
pub open spec fn enc_u64(x: u64) -> Seq<u8> {
    enc_u32((x / 0x100000000) as u32) + enc_u32((x % 0x100000000) as u32)
}

/// Big-endian bytes of a 128-bit integer.
pub open spec fn enc_u128(x: u128) -> Seq<u8> {
    enc_u64((x / 0x10000000000000000) as u64) + enc_u64((x % 0x10000000000000000) as u64)
}

/// A length-prefixed byte string.
pub open spec fn enc_bytes(b: Seq<u8>) -> Seq<u8> {
    enc_u64(b.len() as u64) + b
}

/// Appends the big-endian bytes of a 32-bit integer.
pub fn push_u32(out: &mut Vec<u8>, x: u32)
    ensures
        final(out)@ == old(out)@ + enc_u32(x),
{
    out.push((x / 0x1000000 % 256) as u8);
    out.push((x / 0x10000 % 256) as u8);
    out.push((x / 0x100 % 256) as u8);
    out.push((x % 256) as u8);
    proof {
        assert(out@ =~= old(out)@ + enc_u32(x));
    }
}

/// Appends the big-endian bytes of a 64-bit integer.
pub fn push_u64(out: &mut Vec<u8>, x: u64)
    ensures
        final(out)@ == old(out)@ + enc_u64(x),
{
    push_u32(out, (x / 0x100000000) as u32);
    push_u32(out, (x % 0x100000000) as u32);
    proof {
        assert(out@ =~= old(out)@ + enc_u64(x));
    }
}

/// Appends the big-endian bytes of a 128-bit integer.
pub fn push_u128(out: &mut Vec<u8>, x: u128)
    ensures
        final(out)@ == old(out)@ + enc_u128(x),
{
    push_u64(out, (x / 0x10000000000000000) as u64);
    push_u64(out, (x % 0x10000000000000000) as u64);
    proof {
        assert(out@ =~= old(out)@ + enc_u128(x));
    }
}

/// Appends a length-prefixed byte string.
pub fn push_bytes(out: &mut Vec<u8>, b: &Vec<u8>)
    ensures
        final(out)@ == old(out)@ + enc_bytes(b@),
{
    push_u64(out, b.len() as u64);
    let mut i: usize = 0;
    while i < b.len()
        invariant
            i <= b.len(),
            out@ == old(out)@ + enc_u64(b@.len() as u64) + b@.take(i as int),
        decreases b.len() - i,
    {
        out.push(b[i]);
        proof {
            assert(out@ =~= old(out)@ + enc_u64(b@.len() as u64) + b@.take((i + 1) as int));
        }
        i += 1;
    }
    proof {
        assert(b@.take(b@.len() as int) =~= b@);
        assert(out@ =~= old(out)@ + enc_bytes(b@));
    }
}

// ---------------------------------------------------------------------------
// Entry encodings
// ---------------------------------------------------------------------------

/// Encoding of one balance cell.
pub open spec fn enc_bal(e: BalView) -> Seq<u8> {
    enc_bytes(e.address) + enc_bytes(e.asset) + enc_u128(e.amount)
}

/// Encoding of one nonce entry.
pub open spec fn enc_nonce(e: NonceView) -> Seq<u8> {
    enc_bytes(e.address) + enc_u32(e.nonce)
}

/// Encoding of one bridge account.
pub open spec fn enc_bridge(e: BridgeView) -> Seq<u8> {
    enc_bytes(e.address) + enc_bytes(e.rollup_id) + enc_bytes(e.asset) + enc_bytes(e.sudo_address)
        + enc_bytes(e.withdrawer_address)
}

/// Encoding of one validator entry.
pub open spec fn enc_validator(e: ValidatorView) -> Seq<u8> {
    enc_bytes(e.pub_key) + enc_u32(e.power)
}

/// Encoding of the fee schedule.
pub open spec fn enc_fees(f: FeeSchedule) -> Seq<u8> {
    enc_u128(f.transfer_base_fee) + enc_u128(f.sequence_base_fee) + enc_u128(
        f.sequence_byte_cost_multiplier,
    ) + enc_u128(f.init_bridge_account_base_fee) + enc_u128(f.bridge_lock_byte_cost_multiplier)
        + enc_u128(f.bridge_sudo_change_fee)
}

/// Encoding of the protocol switches.
pub open spec fn enc_ibc(p: IbcParams) -> Seq<u8> {
    seq![
        (if p.ibc_enabled { 1u8 } else { 0u8 }),
        (if p.inbound_ics20_transfers_enabled { 1u8 } else { 0u8 }),
        (if p.outbound_ics20_transfers_enabled { 1u8 } else { 0u8 }),
    ]
}

/// Encoding of one deposit record.
pub open spec fn enc_deposit(d: DepositView) -> Seq<u8> {
    enc_bytes(d.bridge_address) + enc_bytes(d.rollup_id) + enc_u128(d.amount) + enc_bytes(d.asset)
        + enc_bytes(d.destination_chain_address)
}

/// Appends the encoding of one deposit record.
pub fn push_deposit(out: &mut Vec<u8>, d: &Deposit)
    ensures
        final(out)@ == old(out)@ + enc_deposit(d@),
{
    push_bytes(out, &d.bridge_address);
    push_bytes(out, &d.rollup_id);
    push_u128(out, d.amount);
    push_bytes(out, &d.asset);
    push_bytes(out, &d.destination_chain_address);
    proof {
        assert(out@ =~= old(out)@ + enc_deposit(d@));
    }
}

// ---------------------------------------------------------------------------
// Table encodings
// ---------------------------------------------------------------------------

/// Concatenated encodings of a balance table.
pub open spec fn cat_bals(s: Seq<BalView>) -> Seq<u8>
    decreases s.len(),
{
    if s.len() == 0 {
        Seq::<u8>::empty()
    } else {
        cat_bals(s.drop_last()) + enc_bal(s.last())
    }
}

/// Concatenated encodings of a nonce table.
pub open spec fn cat_nonces(s: Seq<NonceView>) -> Seq<u8>
    decreases s.len(),
{
    if s.len() == 0 {
        Seq::<u8>::empty()
    } else {
        cat_nonces(s.drop_last()) + enc_nonce(s.last())
    }
}

/// Concatenated encodings of a membership column.
pub open spec fn cat_elems(s: Seq<Seq<u8>>) -> Seq<u8>
    decreases s.len(),
{
    if s.len() == 0 {
        Seq::<u8>::empty()
    } else {
        cat_elems(s.drop_last()) + enc_bytes(s.last())
    }
}

/// Concatenated encodings of a bridge table.
pub open spec fn cat_bridges(s: Seq<BridgeView>) -> Seq<u8>
    decreases s.len(),
{
    if s.len() == 0 {
        Seq::<u8>::empty()
    } else {
        cat_bridges(s.drop_last()) + enc_bridge(s.last())
    }
}

/// Concatenated encodings of a validator table.
pub open spec fn cat_validators(s: Seq<ValidatorView>) -> Seq<u8>
    decreases s.len(),
{
    if s.len() == 0 {
        Seq::<u8>::empty()
    } else {
        cat_validators(s.drop_last()) + enc_validator(s.last())
    }
}

/// The canonical encoding of a whole state view.
#[verifier::opaque]
pub open spec fn enc_state(s: StateView) -> Seq<u8> {
    enc_bytes(s.native_asset) + enc_bytes(s.address_prefix) + enc_bytes(s.sudo_address)
        + enc_bytes(s.ibc_sudo_address) + enc_fees(s.fees) + enc_ibc(s.ibc_params) + enc_u64(
        s.balances.len() as u64,
    ) + cat_bals(s.balances) + enc_u64(s.nonces.len() as u64) + cat_nonces(s.nonces) + enc_u64(
        s.fee_assets.len() as u64,
    ) + cat_elems(s.fee_assets) + enc_u64(s.relayers.len() as u64) + cat_elems(s.relayers)
        + enc_u64(s.bridges.len() as u64) + cat_bridges(s.bridges) + enc_u64(
        s.validators.len() as u64,
    ) + cat_validators(s.validators)
}

/// The application hash of a state: the digest of its canonical encoding.
pub open spec fn app_hash_of(s: StateView) -> Seq<u8> {
    sha256_of(enc_state(s))
}

/// Appends the length and entries of a balance table.
fn push_bal_table(out: &mut Vec<u8>, v: &Vec<BalanceEntry>)
    ensures
        final(out)@ == old(out)@ + enc_u64(v@.len() as u64) + cat_bals(bals_view(v@)),
{
    push_u64(out, v.len() as u64);
    proof {
        assert(bals_view(v@).take(0) =~= Seq::empty());
        assert(out@ =~= old(out)@ + enc_u64(v@.len() as u64) + cat_bals(bals_view(v@).take(0)));
    }
    let mut i: usize = 0;
    while i < v.len()
        invariant
            i <= v.len(),
            out@ == old(out)@ + enc_u64(v@.len() as u64) + cat_bals(bals_view(v@).take(i as int)),
        decreases v.len() - i,
    {
        let e = &v[i];
        push_bytes(out, &e.address);
        push_bytes(out, &e.asset);
        push_u128(out, e.amount);
        proof {
            assert(bals_view(v@).take((i + 1) as int).drop_last() =~= bals_view(v@).take(i as int));
            assert(bals_view(v@).take((i + 1) as int).last() == v@[i as int]@);
            assert(out@ =~= old(out)@ + enc_u64(v@.len() as u64) + cat_bals(
                bals_view(v@).take((i + 1) as int),
            ));
        }
        i += 1;
    }
    proof {
        assert(bals_view(v@).take(v@.len() as int) =~= bals_view(v@));
    }
}

/// Appends the length and entries of a nonce table.
fn push_nonce_table(out: &mut Vec<u8>, v: &Vec<NonceEntry>)
    ensures
        final(out)@ == old(out)@ + enc_u64(v@.len() as u64) + cat_nonces(nonces_view(v@)),
{
    push_u64(out, v.len() as u64);
    proof {
        assert(nonces_view(v@).take(0) =~= Seq::empty());
        assert(out@ =~= old(out)@ + enc_u64(v@.len() as u64) + cat_nonces(
            nonces_view(v@).take(0),
        ));
    }
    let mut i: usize = 0;
    while i < v.len()
        invariant
            i <= v.len(),
            out@ == old(out)@ + enc_u64(v@.len() as u64) + cat_nonces(
                nonces_view(v@).take(i as int),
            ),
        decreases v.len() - i,
    {
        let e = &v[i];
        push_bytes(out, &e.address);
        push_u32(out, e.nonce);
        proof {
            assert(nonces_view(v@).take((i + 1) as int).drop_last() =~= nonces_view(v@).take(
                i as int,
            ));
            assert(nonces_view(v@).take((i + 1) as int).last() == v@[i as int]@);
            assert(out@ =~= old(out)@ + enc_u64(v@.len() as u64) + cat_nonces(
                nonces_view(v@).take((i + 1) as int),
            ));
        }
        i += 1;
    }
    proof {
        assert(nonces_view(v@).take(v@.len() as int) =~= nonces_view(v@));
    }
}

/// Appends the length and elements of a membership column.
fn push_elem_table(out: &mut Vec<u8>, v: &Vec<Vec<u8>>)
    ensures
        final(out)@ == old(out)@ + enc_u64(v@.len() as u64) + cat_elems(elems_view(v@)),
{
    push_u64(out, v.len() as u64);
    proof {
        assert(elems_view(v@).take(0) =~= Seq::empty());
        assert(out@ =~= old(out)@ + enc_u64(v@.len() as u64) + cat_elems(elems_view(v@).take(0)));
    }
    let mut i: usize = 0;
    while i < v.len()
        invariant
            i <= v.len(),
            out@ == old(out)@ + enc_u64(v@.len() as u64) + cat_elems(elems_view(v@).take(i as int)),
        decreases v.len() - i,
    {
        push_bytes(out, &v[i]);
        proof {
            assert(elems_view(v@).take((i + 1) as int).drop_last() =~= elems_view(v@).take(
                i as int,
            ));
            assert(elems_view(v@).take((i + 1) as int).last() == v@[i as int]@);
            assert(out@ =~= old(out)@ + enc_u64(v@.len() as u64) + cat_elems(
                elems_view(v@).take((i + 1) as int),
            ));
        }
        i += 1;
    }
    proof {
        assert(elems_view(v@).take(v@.len() as int) =~= elems_view(v@));
    }
}

/// Appends the length and entries of a bridge table.
/// Appends the encoding of one bridge account.
fn push_bridge_entry(out: &mut Vec<u8>, e: &BridgeEntry)
    ensures
        final(out)@ == old(out)@ + enc_bridge(e@),
{
    push_bytes(out, &e.address);
    push_bytes(out, &e.rollup_id);
    push_bytes(out, &e.asset);
    push_bytes(out, &e.sudo_address);
    push_bytes(out, &e.withdrawer_address);
    proof {
        assert(out@ =~= old(out)@ + enc_bridge(e@));
    }
}

fn push_bridge_table(out: &mut Vec<u8>, v: &Vec<BridgeEntry>)
    ensures
        final(out)@ == old(out)@ + enc_u64(v@.len() as u64) + cat_bridges(bridges_view(v@)),
{
    push_u64(out, v.len() as u64);
    proof {
        assert(bridges_view(v@).take(0) =~= Seq::empty());
        assert(out@ =~= old(out)@ + enc_u64(v@.len() as u64) + cat_bridges(
            bridges_view(v@).take(0),
        ));
    }
    let mut i: usize = 0;
    while i < v.len()
        invariant
            i <= v.len(),
            out@ == old(out)@ + enc_u64(v@.len() as u64) + cat_bridges(
                bridges_view(v@).take(i as int),
            ),
        decreases v.len() - i,
    {
        let e = &v[i];
        push_bridge_entry(out, e);
        proof {
            assert(bridges_view(v@).take((i + 1) as int).drop_last() =~= bridges_view(v@).take(
                i as int,
            ));
            assert(bridges_view(v@).take((i + 1) as int).last() == v@[i as int]@);
            assert(out@ =~= old(out)@ + enc_u64(v@.len() as u64) + cat_bridges(
                bridges_view(v@).take((i + 1) as int),
            ));
        }
        i += 1;
    }
    proof {
        assert(bridges_view(v@).take(v@.len() as int) =~= bridges_view(v@));
    }
}

/// Appends the length and entries of a validator table.
fn push_validator_table(out: &mut Vec<u8>, v: &Vec<ValidatorEntry>)
    ensures
        final(out)@ == old(out)@ + enc_u64(v@.len() as u64) + cat_validators(validators_view(v@)),
{
    push_u64(out, v.len() as u64);
    proof {
        assert(validators_view(v@).take(0) =~= Seq::empty());
        assert(out@ =~= old(out)@ + enc_u64(v@.len() as u64) + cat_validators(
            validators_view(v@).take(0),
        ));
    }
    let mut i: usize = 0;
    while i < v.len()
        invariant
            i <= v.len(),
            out@ == old(out)@ + enc_u64(v@.len() as u64) + cat_validators(
                validators_view(v@).take(i as int),
            ),
        decreases v.len() - i,
    {
        let e = &v[i];
        push_bytes(out, &e.pub_key);
        push_u32(out, e.power);
        proof {
            assert(validators_view(v@).take((i + 1) as int).drop_last() =~= validators_view(
                v@,
            ).take(i as int));
            assert(validators_view(v@).take((i + 1) as int).last() == v@[i as int]@);
            assert(out@ =~= old(out)@ + enc_u64(v@.len() as u64) + cat_validators(
                validators_view(v@).take((i + 1) as int),
            ));
        }
        i += 1;
    }
    proof {
        assert(validators_view(v@).take(v@.len() as int) =~= validators_view(v@));
    }
}

/// Appends the encoding of the fee schedule.
fn push_fees(out: &mut Vec<u8>, f: &FeeSchedule)
    ensures
        final(out)@ == old(out)@ + enc_fees(*f),
{
    push_u128(out, f.transfer_base_fee);
    push_u128(out, f.sequence_base_fee);
    push_u128(out, f.sequence_byte_cost_multiplier);
    push_u128(out, f.init_bridge_account_base_fee);
    push_u128(out, f.bridge_lock_byte_cost_multiplier);
    push_u128(out, f.bridge_sudo_change_fee);
    proof {
        assert(out@ =~= old(out)@ + enc_fees(*f));
    }
}

/// Appends the encoding of the protocol switches.
fn push_ibc(out: &mut Vec<u8>, p: &IbcParams)
    ensures
        final(out)@ == old(out)@ + enc_ibc(*p),
{
    out.push(if p.ibc_enabled { 1 } else { 0 });
    out.push(if p.inbound_ics20_transfers_enabled { 1 } else { 0 });
    out.push(if p.outbound_ics20_transfers_enabled { 1 } else { 0 });
    proof {
        assert(out@ =~= old(out)@ + enc_ibc(*p));
    }
}

/// Serializes a state into its canonical encoding.
#[verifier::rlimit(100)]
pub fn encode_state(st: &State) -> (r: Vec<u8>)
    ensures
        r@ == enc_state(st@),
{
    let mut out: Vec<u8> = Vec::new();
    push_bytes(&mut out, &st.native_asset);
    proof {
        assert(out@ =~= enc_bytes(st@.native_asset));
    }
    push_bytes(&mut out, &st.address_prefix);
    push_bytes(&mut out, &st.sudo_address);
    push_bytes(&mut out, &st.ibc_sudo_address);
    push_fees(&mut out, &st.fees);
    push_ibc(&mut out, &st.ibc_params);
    push_bal_table(&mut out, &st.balances);
    push_nonce_table(&mut out, &st.nonces);
    push_elem_table(&mut out, &st.fee_assets);
    push_elem_table(&mut out, &st.relayers);
    push_bridge_table(&mut out, &st.bridges);
    push_validator_table(&mut out, &st.validators);
    proof {
        reveal(enc_state);
        assert(out@ == enc_state(st@));
    }
    out
}

/// Computes the application hash of a state.
pub fn compute_app_hash(st: &State) -> (r: Vec<u8>)
    ensures
        r@ == app_hash_of(st@),
        r@.len() == 32,
{
    let bytes = encode_state(st);
    sha256(&bytes)
}

} // verus!
