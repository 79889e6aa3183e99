use account_info::deposits::{deposit_due, refund};
use account_info::{Amount, ContractError, Deposits, Identity};

fn id(byte: u8) -> Identity {
    Identity::new([byte; 32])
}

fn units(n: u64) -> Amount {
    Amount::from_u64(n)
}

#[test]
fn nothing_is_deposited_at_first() {
    let deposits = Deposits::new(units(2_000_000_000));
    assert_eq!(deposits.required_deposit_amount(), units(2_000_000_000));
    assert_eq!(deposits.get_deposit(&id(1)), Amount::zero());
}

#[test]
fn exact_deposit_is_charged_in_full() {
    let mut deposits = Deposits::new(units(500));
    assert_eq!(
        deposits.deposit_if_needed(&id(1), Some(units(500))),
        Ok(Some(units(500)))
    );
    assert_eq!(deposits.get_deposit(&id(1)), units(500));
    assert_eq!(deposits.get_deposit(&id(2)), Amount::zero());
}

#[test]
fn missing_purse_is_refused() {
    let mut deposits = Deposits::new(units(500));
    assert_eq!(
        deposits.deposit_if_needed(&id(1), None),
        Err(ContractError::PurseIsNone)
    );
    assert_eq!(deposits.get_deposit(&id(1)), Amount::zero());
}

#[test]
fn inexact_deposit_is_refused() {
    let mut deposits = Deposits::new(units(500));
    for balance in [0u64, 1, 499, 501, 1000, u64::MAX] {
        assert_eq!(
            deposits.deposit_if_needed(&id(1), Some(units(balance))),
            Err(ContractError::IncorrectDepositAmount)
        );
        assert_eq!(deposits.get_deposit(&id(1)), Amount::zero());
    }
    // More than 64 bits that agree with the required amount in the low limb.
    let high = Amount::new([500, 1, 0, 0, 0, 0, 0, 0]);
    assert_eq!(
        deposits.deposit_if_needed(&id(1), Some(high)),
        Err(ContractError::IncorrectDepositAmount)
    );
}

#[test]
fn deposit_is_charged_once() {
    let mut deposits = Deposits::new(units(500));
    deposits.deposit_if_needed(&id(1), Some(units(500))).unwrap();
    assert_eq!(deposits.deposit_if_needed(&id(1), Some(units(500))), Ok(None));
    assert_eq!(deposits.deposit_if_needed(&id(1), Some(units(7))), Ok(None));
    assert_eq!(deposits.deposit_if_needed(&id(1), None), Ok(None));
    assert_eq!(deposits.get_deposit(&id(1)), units(500));
}

#[test]
fn withdraw_pays_back_what_was_recorded() {
    let mut deposits = Deposits::new(units(500));
    deposits.deposit_if_needed(&id(1), Some(units(500))).unwrap();
    assert_eq!(deposits.withdraw(&id(1)), Ok(units(500)));
    assert_eq!(deposits.get_deposit(&id(1)), Amount::zero());
}

#[test]
fn withdraw_without_deposit_is_refused() {
    let mut deposits = Deposits::new(units(500));
    assert_eq!(deposits.withdraw(&id(1)), Err(ContractError::NoDeposit));
    deposits.deposit_if_needed(&id(1), Some(units(500))).unwrap();
    deposits.withdraw(&id(1)).unwrap();
    assert_eq!(deposits.withdraw(&id(1)), Err(ContractError::NoDeposit));
}

#[test]
fn deposit_is_due_again_after_withdrawal() {
    let mut deposits = Deposits::new(units(500));
    deposits.deposit_if_needed(&id(1), Some(units(500))).unwrap();
    deposits.withdraw(&id(1)).unwrap();
    assert_eq!(
        deposits.deposit_if_needed(&id(1), None),
        Err(ContractError::PurseIsNone)
    );
    assert_eq!(
        deposits.deposit_if_needed(&id(1), Some(units(500))),
        Ok(Some(units(500)))
    );
}

#[test]
fn new_required_amount_leaves_old_deposits() {
    let mut deposits = Deposits::new(units(500));
    deposits.deposit_if_needed(&id(1), Some(units(500))).unwrap();
    deposits.set_deposit_amount(units(900));
    assert_eq!(deposits.required_deposit_amount(), units(900));
    assert_eq!(deposits.get_deposit(&id(1)), units(500));
    // A new registration pays the new amount.
    assert_eq!(
        deposits.deposit_if_needed(&id(2), Some(units(500))),
        Err(ContractError::IncorrectDepositAmount)
    );
    assert_eq!(
        deposits.deposit_if_needed(&id(2), Some(units(900))),
        Ok(Some(units(900)))
    );
    // The old deposit is paid back as it was recorded.
    assert_eq!(deposits.withdraw(&id(1)), Ok(units(500)));
    assert_eq!(deposits.withdraw(&id(2)), Ok(units(900)));
}

#[test]
fn required_amount_of_nothing() {
    let mut deposits = Deposits::new(Amount::zero());
    assert_eq!(
        deposits.deposit_if_needed(&id(1), None),
        Err(ContractError::PurseIsNone)
    );
    assert_eq!(
        deposits.deposit_if_needed(&id(1), Some(units(1))),
        Err(ContractError::IncorrectDepositAmount)
    );
    assert_eq!(
        deposits.deposit_if_needed(&id(1), Some(Amount::zero())),
        Ok(Some(Amount::zero()))
    );
    // Nothing is recorded, so that nothing can be withdrawn.
    assert_eq!(deposits.withdraw(&id(1)), Err(ContractError::NoDeposit));
}

#[test]
fn charge_for_plain_values() {
    assert_eq!(deposit_due(&units(3), None, &units(5)), Ok(None));
    assert_eq!(deposit_due(&units(3), Some(units(9)), &units(5)), Ok(None));
    assert_eq!(
        deposit_due(&Amount::zero(), None, &units(5)),
        Err(ContractError::PurseIsNone)
    );
    assert_eq!(
        deposit_due(&Amount::zero(), Some(units(4)), &units(5)),
        Err(ContractError::IncorrectDepositAmount)
    );
    assert_eq!(
        deposit_due(&Amount::zero(), Some(units(5)), &units(5)),
        Ok(Some(units(5)))
    );
}

#[test]
fn refund_for_plain_values() {
    assert_eq!(refund(&Amount::zero()), Err(ContractError::NoDeposit));
    assert_eq!(refund(&units(5)), Ok(units(5)));
    let large = Amount::new([0, 0, 0, 0, 0, 0, 0, 1]);
    assert_eq!(refund(&large), Ok(large));
}
