//! Gas metering: the one deduction primitive, and the pricing rules layered
//! on it. Every rule is a pure decision over its inputs; all state (the
//! remaining-gas counter, the revision, the host's answers) is threaded
//! through explicitly. The host's account queries themselves are made by
//! the dispatcher, which hands their answers to these functions.

use vstd::prelude::*;

use crate::types::{AccessStatus, Address, FailStatus, Revision, U256};

verus! {

/// Surcharge for transferring a nonzero balance between accounts.
pub const VALUE_TRANSFER_GAS: u64 = 9000;

/// Surcharge for implicitly creating an account by a nonzero-value transfer
/// to an address with no account.
pub const NEW_ACCOUNT_GAS: u64 = 25000;

/// Price of the first access to an address in a transaction, once
/// access-list pricing is in effect.
pub const COLD_ACCOUNT_ACCESS_GAS: u64 = 2600;

/// Price of accessing an address that is already warm, or exempt.
pub const WARM_ACCESS_GAS: u64 = 100;

/// Price per 32-byte word of copied data.
pub const COPY_WORD_GAS: u64 = 3;

/// Deducts `gas` from `gas_left` if the balance suffices, else fails with
/// `OutOfGas` and leaves the counter unchanged. This is the sole mutation
/// primitive of the meter; every other function only computes an amount and
/// calls this one. The counter never increases.
pub fn consume_gas(gas_left: &mut u64, gas: u64) -> (r: Result<(), FailStatus>)
    ensures
        r is Ok <==> *old(gas_left) >= gas,
        r is Ok ==> *final(gas_left) == *old(gas_left) - gas,
        r is Err ==> r == Err::<(), FailStatus>(FailStatus::OutOfGas) && *final(gas_left) == *old(
            gas_left,
        ),
        *final(gas_left) <= *old(gas_left),
{
    if *gas_left < gas {
        return Err(FailStatus::OutOfGas);
    }
    *gas_left = *gas_left - gas;
    Ok(())
}

/// The value-transfer surcharge: 9000 for a nonzero value, 0 for zero.
pub open spec fn spec_positive_value_cost(value: U256) -> u64 {
    if value == U256::spec_zero() {
        0
    } else {
        VALUE_TRANSFER_GAS
    }
}

/// Charges the value-transfer surcharge exactly when `value` is nonzero;
/// a zero-value transfer moves no balance and costs nothing here.
pub fn consume_positive_value_cost(value: &U256, gas_left: &mut u64) -> (r: Result<
    (),
    FailStatus,
>)
    ensures
        r is Ok <==> *old(gas_left) >= spec_positive_value_cost(*value),
        r is Ok ==> *final(gas_left) == *old(gas_left) - spec_positive_value_cost(*value),
        r is Err ==> r == Err::<(), FailStatus>(FailStatus::OutOfGas) && *final(gas_left) == *old(
            gas_left,
        ),
{
    if !value.is_zero() {
        consume_gas(gas_left, VALUE_TRANSFER_GAS)?;
    }
    Ok(())
}

/// The new-account surcharge: 25000 exactly when the transferred value is
/// nonzero and no account exists at the target address; 0 in every other
/// combination.
pub open spec fn spec_value_to_empty_account_cost(value: U256, account_exists: bool) -> u64 {
    if value != U256::spec_zero() && !account_exists {
        NEW_ACCOUNT_GAS
    } else {
        0
    }
}

/// Charges the new-account surcharge exactly when `value` is nonzero and
/// `account_exists` is false. `account_exists` is the host's answer for the
/// target address; the dispatcher needs to query it only when the value is
/// nonzero, since a zero value never incurs the surcharge.
pub fn consume_value_to_empty_account_cost(
    value: &U256,
    account_exists: bool,
    gas_left: &mut u64,
) -> (r: Result<(), FailStatus>)
    ensures
        r is Ok <==> *old(gas_left) >= spec_value_to_empty_account_cost(*value, account_exists),
        r is Ok ==> *final(gas_left) == *old(gas_left) - spec_value_to_empty_account_cost(
            *value,
            account_exists,
        ),
        r is Err ==> r == Err::<(), FailStatus>(FailStatus::OutOfGas) && *final(gas_left) == *old(
            gas_left,
        ),
{
    if !value.is_zero() && !account_exists {
        consume_gas(gas_left, NEW_ACCOUNT_GAS)?;
    }
    Ok(())
}

/// True when access-list pricing is in effect, that is, from the Berlin
/// revision on. The dispatcher must make the host's warm/cold query for an
/// accessed address exactly when this holds: the query's cold-to-warm side
/// effect has to happen even for exempt addresses, and must not happen on
/// earlier revisions, where the pricing (and the charge) does not exist.
pub fn access_list_enabled(revision: Revision) -> (r: bool)
    ensures
        r == (revision.spec_ordinal() >= Revision::Berlin.spec_ordinal()),
{
    revision.at_least(Revision::Berlin)
}

/// The address-access price. Before Berlin it is 0. From Berlin on, an
/// address is priced warm (100) when it is the transaction origin, when —
/// from Shanghai on — it is the block's fee recipient, or when the host
/// reported it already warm; otherwise it is priced cold (2600). The
/// transaction's destination address carries no exemption of its own under
/// these rules.
pub open spec fn spec_address_access_cost(
    revision: Revision,
    addr: Address,
    tx_origin: Address,
    block_coinbase: Address,
    status: AccessStatus,
) -> u64 {
    if revision.spec_ordinal() < Revision::Berlin.spec_ordinal() {
        0
    } else if addr == tx_origin || (revision.spec_ordinal() >= Revision::Shanghai.spec_ordinal()
        && addr == block_coinbase) || status == AccessStatus::Warm {
        WARM_ACCESS_GAS
    } else {
        COLD_ACCOUNT_ACCESS_GAS
    }
}

/// Computes the address-access price from the revision, the accessed
/// address, the transaction context, and the host's warm/cold answer.
/// `status` is meaningful only when `access_list_enabled(revision)` holds
/// and is ignored otherwise (the price is then 0).
pub fn address_access_cost(
    revision: Revision,
    addr: &Address,
    tx_origin: &Address,
    block_coinbase: &Address,
    status: AccessStatus,
) -> (c: u64)
    ensures
        c == spec_address_access_cost(revision, *addr, *tx_origin, *block_coinbase, status),
{
    if !revision.at_least(Revision::Berlin) {
        return 0;
    }
    if addr == tx_origin || (revision.at_least(Revision::Shanghai) && addr == block_coinbase)
        || status == AccessStatus::Warm {
        WARM_ACCESS_GAS
    } else {
        COLD_ACCOUNT_ACCESS_GAS
    }
}

/// Charges the revision-gated warm/cold address-access price and deducts it
/// from `gas_left`, failing with `OutOfGas` (counter unchanged) when the
/// balance does not suffice. When `access_list_enabled(revision)` holds the
/// dispatcher must already have made the host's warm/cold query for `addr`
/// — unconditionally, so the cold-to-warm side effect happens even for
/// exempt addresses — and passes its answer as `status`; before Berlin no
/// query is made, `status` is ignored, and the charge is 0.
pub fn consume_address_access_cost(
    revision: Revision,
    addr: &Address,
    tx_origin: &Address,
    block_coinbase: &Address,
    status: AccessStatus,
    gas_left: &mut u64,
) -> (r: Result<(), FailStatus>)
    ensures
        r is Ok <==> *old(gas_left) >= spec_address_access_cost(
            revision,
            *addr,
            *tx_origin,
            *block_coinbase,
            status,
        ),
        r is Ok ==> *final(gas_left) == *old(gas_left) - spec_address_access_cost(
            revision,
            *addr,
            *tx_origin,
            *block_coinbase,
            status,
        ),
        r is Err ==> r == Err::<(), FailStatus>(FailStatus::OutOfGas) && *final(gas_left) == *old(
            gas_left,
        ),
{
    let cost = address_access_cost(revision, addr, tx_origin, block_coinbase, status);
    consume_gas(gas_left, cost)
}

/// The number of 32-byte words spanned by `byte_len` bytes: the ceiling of
/// `byte_len / 32`.
pub open spec fn spec_word_size(byte_len: int) -> int {
    (byte_len + 31) / 32
}

/// Rounds `byte_len` up to whole 32-byte words. The rounding is computed as
/// `(byte_len + 31) / 32` and fails with `OutOfGas` when the addition would
/// not be representable, that is, when `byte_len > u64::MAX - 31`.
pub fn word_size(byte_len: u64) -> (r: Result<u64, FailStatus>)
    ensures
        byte_len <= u64::MAX - 31 ==> r == Ok::<u64, FailStatus>(
            spec_word_size(byte_len as int) as u64,
        ),
        byte_len > u64::MAX - 31 ==> r == Err::<u64, FailStatus>(FailStatus::OutOfGas),
{
    if byte_len > u64::MAX - 31 {
        return Err(FailStatus::OutOfGas);
    }
    Ok((byte_len + 31) / 32)
}

/// The copy charge for `byte_len` bytes: 3 gas per 32-byte word spanned,
/// rounding up.
pub open spec fn spec_copy_cost(byte_len: int) -> int {
    COPY_WORD_GAS * spec_word_size(byte_len)
}

/// Charges the data-copy cost: `COPY_WORD_GAS` per 32-byte word spanned by
/// `byte_len`, rounding up. Fails with `OutOfGas`, leaving the counter
/// unchanged, when the word count cannot be computed (`byte_len` above
/// `u64::MAX - 31`) or when the charge exceeds `gas_left`; once the word
/// count is representable, the charge itself provably fits in the counter's
/// range.
pub fn consume_copy_cost(gas_left: &mut u64, byte_len: u64) -> (r: Result<(), FailStatus>)
    ensures
        byte_len > u64::MAX - 31 ==> r == Err::<(), FailStatus>(FailStatus::OutOfGas)
            && *final(gas_left) == *old(gas_left),
        byte_len <= u64::MAX - 31 ==> {
            &&& r is Ok <==> *old(gas_left) >= spec_copy_cost(byte_len as int)
            &&& r is Ok ==> *final(gas_left) == *old(gas_left) - spec_copy_cost(byte_len as int)
            &&& r is Err ==> r == Err::<(), FailStatus>(FailStatus::OutOfGas) && *final(gas_left)
                == *old(gas_left)
        },
        *final(gas_left) <= *old(gas_left),
{
    let words = match word_size(byte_len) {
        Ok(words) => words,
        Err(e) => {
            return Err(e);
        },
    };
    proof {
        vstd::arithmetic::div_mod::lemma_div_is_ordered(
            byte_len as int + 31,
            u64::MAX as int,
            32,
        );
    }
    let cost = words * COPY_WORD_GAS;
    consume_gas(gas_left, cost)
}

} // verus!
