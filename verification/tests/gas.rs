use evm_core::gas;
use evm_core::types::{AccessStatus, Address, FailStatus, Revision, U256};

fn addr(lo: u64) -> Address {
    Address { hi: 0, mid: 0, lo }
}

#[test]
fn consume_gas_deducts_exactly_on_success() {
    let mut gas_left = 100u64;
    assert_eq!(gas::consume_gas(&mut gas_left, 30), Ok(()));
    assert_eq!(gas_left, 70);
    assert_eq!(gas::consume_gas(&mut gas_left, 0), Ok(()));
    assert_eq!(gas_left, 70);
    assert_eq!(gas::consume_gas(&mut gas_left, 70), Ok(()));
    assert_eq!(gas_left, 0);
}

#[test]
fn consume_gas_fails_atomically_on_shortfall() {
    let mut gas_left = 50u64;
    assert_eq!(
        gas::consume_gas(&mut gas_left, 51),
        Err(FailStatus::OutOfGas)
    );
    assert_eq!(gas_left, 50);
}

#[test]
fn positive_value_cost_charges_9000_for_nonzero() {
    let mut gas_left = 10_000u64;
    assert_eq!(
        gas::consume_positive_value_cost(&U256::one(), &mut gas_left),
        Ok(())
    );
    assert_eq!(gas_left, 1000);

    let mut gas_left = 10_000u64;
    assert_eq!(
        gas::consume_positive_value_cost(&U256::max(), &mut gas_left),
        Ok(())
    );
    assert_eq!(gas_left, 1000);
}

#[test]
fn positive_value_cost_charges_nothing_for_zero() {
    let mut gas_left = 5u64;
    assert_eq!(
        gas::consume_positive_value_cost(&U256::zero(), &mut gas_left),
        Ok(())
    );
    assert_eq!(gas_left, 5);
}

#[test]
fn positive_value_cost_out_of_gas_below_charge() {
    let mut gas_left = 8999u64;
    assert_eq!(
        gas::consume_positive_value_cost(&U256::one(), &mut gas_left),
        Err(FailStatus::OutOfGas)
    );
    assert_eq!(gas_left, 8999);
}

#[test]
fn empty_account_cost_charged_only_for_nonzero_value_and_absent_account() {
    // Nonzero value to an absent account: 25000.
    let mut gas_left = 30_000u64;
    assert_eq!(
        gas::consume_value_to_empty_account_cost(&U256::one(), false, &mut gas_left),
        Ok(())
    );
    assert_eq!(gas_left, 5000);

    // The three other combinations charge nothing.
    let mut gas_left = 30_000u64;
    assert_eq!(
        gas::consume_value_to_empty_account_cost(&U256::one(), true, &mut gas_left),
        Ok(())
    );
    assert_eq!(gas_left, 30_000);
    assert_eq!(
        gas::consume_value_to_empty_account_cost(&U256::zero(), false, &mut gas_left),
        Ok(())
    );
    assert_eq!(gas_left, 30_000);
    assert_eq!(
        gas::consume_value_to_empty_account_cost(&U256::zero(), true, &mut gas_left),
        Ok(())
    );
    assert_eq!(gas_left, 30_000);
}

#[test]
fn empty_account_cost_out_of_gas_below_charge() {
    let mut gas_left = 24_999u64;
    assert_eq!(
        gas::consume_value_to_empty_account_cost(&U256::one(), false, &mut gas_left),
        Err(FailStatus::OutOfGas)
    );
    assert_eq!(gas_left, 24_999);
}

#[test]
fn copy_cost_rounds_up_to_words() {
    for (len, cost) in [(0u64, 0u64), (1, 3), (32, 3), (33, 6), (64, 6)] {
        let mut gas_left = 1000u64;
        assert_eq!(gas::consume_copy_cost(&mut gas_left, len), Ok(()));
        assert_eq!(gas_left, 1000 - cost);
    }
}

#[test]
fn copy_cost_fails_on_unrepresentable_length() {
    let mut gas_left = u64::MAX;
    assert_eq!(
        gas::consume_copy_cost(&mut gas_left, u64::MAX - 30),
        Err(FailStatus::OutOfGas)
    );
    assert_eq!(gas_left, u64::MAX);
}

#[test]
fn copy_cost_out_of_gas_below_charge() {
    let mut gas_left = 5u64;
    assert_eq!(
        gas::consume_copy_cost(&mut gas_left, 33),
        Err(FailStatus::OutOfGas)
    );
    assert_eq!(gas_left, 5);
}

#[test]
fn word_size_rounds_up() {
    assert_eq!(gas::word_size(0), Ok(0));
    assert_eq!(gas::word_size(1), Ok(1));
    assert_eq!(gas::word_size(32), Ok(1));
    assert_eq!(gas::word_size(33), Ok(2));
    assert_eq!(gas::word_size(u64::MAX - 31), Ok(u64::MAX / 32));
    assert_eq!(gas::word_size(u64::MAX - 30), Err(FailStatus::OutOfGas));
}

#[test]
fn access_list_pricing_starts_at_berlin() {
    assert!(!gas::access_list_enabled(Revision::Frontier));
    assert!(!gas::access_list_enabled(Revision::Istanbul));
    assert!(gas::access_list_enabled(Revision::Berlin));
    assert!(gas::access_list_enabled(Revision::Shanghai));
}

#[test]
fn address_access_free_before_berlin() {
    let a = addr(7);
    let origin = addr(1);
    let coinbase = addr(2);
    for status in [AccessStatus::Cold, AccessStatus::Warm] {
        let mut gas_left = 10u64;
        assert_eq!(
            gas::consume_address_access_cost(
                Revision::Istanbul,
                &a,
                &origin,
                &coinbase,
                status,
                &mut gas_left
            ),
            Ok(())
        );
        assert_eq!(gas_left, 10);
    }
}

#[test]
fn address_access_berlin_cold_then_warm() {
    let a = addr(7);
    let origin = addr(1);
    let coinbase = addr(2);
    let mut gas_left = 10_000u64;
    // First touch of a cold, non-exempt address: 2600; the host's query
    // marks it warm as a side effect.
    assert_eq!(
        gas::consume_address_access_cost(
            Revision::Berlin,
            &a,
            &origin,
            &coinbase,
            AccessStatus::Cold,
            &mut gas_left
        ),
        Ok(())
    );
    assert_eq!(gas_left, 7400);
    // The second touch finds it warm and pays only 100.
    assert_eq!(
        gas::consume_address_access_cost(
            Revision::Berlin,
            &a,
            &origin,
            &coinbase,
            AccessStatus::Warm,
            &mut gas_left
        ),
        Ok(())
    );
    assert_eq!(gas_left, 7300);
}

#[test]
fn address_access_shanghai_coinbase_exempt() {
    let origin = addr(1);
    let coinbase = addr(2);
    // The fee recipient is exempt from Shanghai on, even when still cold.
    let mut gas_left = 10_000u64;
    assert_eq!(
        gas::consume_address_access_cost(
            Revision::Shanghai,
            &coinbase,
            &origin,
            &coinbase,
            AccessStatus::Cold,
            &mut gas_left
        ),
        Ok(())
    );
    assert_eq!(gas_left, 9900);
    // Before Shanghai the fee recipient enjoys no exemption.
    let mut gas_left = 10_000u64;
    assert_eq!(
        gas::consume_address_access_cost(
            Revision::Berlin,
            &coinbase,
            &origin,
            &coinbase,
            AccessStatus::Cold,
            &mut gas_left
        ),
        Ok(())
    );
    assert_eq!(gas_left, 7400);
}

#[test]
fn address_access_origin_exempt_from_berlin() {
    let origin = addr(1);
    let coinbase = addr(2);
    let mut gas_left = 10_000u64;
    assert_eq!(
        gas::consume_address_access_cost(
            Revision::Berlin,
            &origin,
            &origin,
            &coinbase,
            AccessStatus::Cold,
            &mut gas_left
        ),
        Ok(())
    );
    assert_eq!(gas_left, 9900);
}

#[test]
fn address_access_out_of_gas_below_charge() {
    let a = addr(7);
    let origin = addr(1);
    let coinbase = addr(2);
    let mut gas_left = 2599u64;
    assert_eq!(
        gas::consume_address_access_cost(
            Revision::Berlin,
            &a,
            &origin,
            &coinbase,
            AccessStatus::Cold,
            &mut gas_left
        ),
        Err(FailStatus::OutOfGas)
    );
    assert_eq!(gas_left, 2599);
}
