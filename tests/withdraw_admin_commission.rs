use rent_a_car::{Error, RentACarContract, Transfer};

const ADMIN: u64 = 1;
const TOKEN: u64 = 2;

fn setup() -> RentACarContract {
    let mut contract = RentACarContract::new();
    contract.__constructor(ADMIN, TOKEN).unwrap();
    contract
}

/// One car rented for 4500 with a commission of 500.
fn rented_with_commission() -> RentACarContract {
    let mut contract = setup();
    let owner = 10_u64;
    let renter = 20_u64;
    contract.add_car(ADMIN, owner, 1500).unwrap();
    contract.set_admin_commission(ADMIN, 500).unwrap();
    contract.rental(renter, renter, owner, 3, 4500).unwrap();
    contract
}

#[test]
fn test_withdraw_admin_commission_successfully() {
    let mut contract = rented_with_commission();
    let commission = 500_i128;
    let withdraw_amount = 300_i128;

    assert_eq!(contract.read_admin_available_to_withdraw(), commission);
    let initial_contract_balance = contract.read_contract_balance();

    let payout = contract.withdraw_admin_commission(ADMIN, withdraw_amount).unwrap();
    assert_eq!(payout, Transfer::OutOfCustody { to: ADMIN, amount: withdraw_amount });

    assert_eq!(
        contract.read_admin_available_to_withdraw(),
        commission - withdraw_amount
    );
    assert_eq!(
        contract.read_contract_balance(),
        initial_contract_balance - withdraw_amount
    );
}

#[test]
fn test_withdraw_admin_commission_full_amount() {
    let mut contract = rented_with_commission();
    let commission = 500_i128;

    contract.withdraw_admin_commission(ADMIN, commission).unwrap();

    assert_eq!(contract.read_admin_available_to_withdraw(), 0);
}

#[test]
fn test_withdraw_admin_commission_with_zero_amount_fails() {
    let mut contract = setup();
    let amount = 0_i128;

    assert_eq!(
        contract.withdraw_admin_commission(ADMIN, amount),
        Err(Error::AmountMustBePositive)
    );
}

#[test]
fn test_withdraw_admin_commission_with_negative_amount_fails() {
    let mut contract = setup();
    let amount = -100_i128;

    assert_eq!(
        contract.withdraw_admin_commission(ADMIN, amount),
        Err(Error::AmountMustBePositive)
    );
}

#[test]
fn test_withdraw_admin_commission_insufficient_balance_fails() {
    let mut contract = rented_with_commission();
    let withdraw_amount = 1000_i128;

    assert_eq!(
        contract.withdraw_admin_commission(ADMIN, withdraw_amount),
        Err(Error::InsufficientBalance)
    );
    assert_eq!(contract.read_admin_available_to_withdraw(), 500);
    assert_eq!(contract.read_contract_balance(), 5000);
}

#[test]
fn test_withdraw_admin_commission_multiple_rentals() {
    let mut contract = setup();
    let owner1 = 10_u64;
    let owner2 = 11_u64;
    let renter1 = 20_u64;
    let renter2 = 21_u64;
    let price_per_day = 1500_i128;
    let total_days = 3_u32;
    let amount1 = 4500_i128;
    let amount2 = 3000_i128;
    let commission = 500_i128;

    contract.add_car(ADMIN, owner1, price_per_day).unwrap();
    contract.add_car(ADMIN, owner2, price_per_day).unwrap();
    contract.set_admin_commission(ADMIN, commission).unwrap();

    contract.rental(renter1, renter1, owner1, total_days, amount1).unwrap();
    contract.rental(renter2, renter2, owner2, total_days, amount2).unwrap();

    let total_commissions = commission * 2;
    assert_eq!(contract.read_admin_available_to_withdraw(), total_commissions);

    let withdraw_amount = 750_i128;
    contract.withdraw_admin_commission(ADMIN, withdraw_amount).unwrap();

    assert_eq!(
        contract.read_admin_available_to_withdraw(),
        total_commissions - withdraw_amount
    );
}
