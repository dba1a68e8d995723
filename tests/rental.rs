use rent_a_car::{CarStatus, RentACarContract, Transfer};

const ADMIN: u64 = 1;
const TOKEN: u64 = 2;

fn setup() -> RentACarContract {
    let mut contract = RentACarContract::new();
    contract.__constructor(ADMIN, TOKEN).unwrap();
    contract
}

#[test]
fn test_rental_car_successfully() {
    let mut contract = setup();
    let owner = 10_u64;
    let renter = 20_u64;
    let price_per_day = 1500_i128;
    let total_days = 3_u32;
    let amount = 4500_i128;

    contract.add_car(ADMIN, owner, price_per_day).unwrap();
    assert_eq!(contract.read_contract_balance(), 0);

    let deposit = contract.rental(renter, renter, owner, total_days, amount).unwrap();
    assert_eq!(deposit, Transfer::IntoCustody { from: renter, amount });

    // With no commission set, custody grows by the rental amount alone.
    assert_eq!(contract.read_contract_balance(), amount);

    let car = contract.read_car(owner).unwrap();
    assert_eq!(car.car_status, CarStatus::Rented);
    assert_eq!(car.available_to_withdraw, amount);

    let rental = contract.read_rental(renter, owner).unwrap();
    assert_eq!(rental.total_days_to_rent, total_days);
    assert_eq!(rental.amount, amount);
}

#[test]
fn test_rental_with_admin_commission() {
    let mut contract = setup();
    let owner = 10_u64;
    let renter = 20_u64;
    let price_per_day = 1500_i128;
    let total_days = 3_u32;
    let amount = 4500_i128;
    let commission = 500_i128;
    let expected_total_amount = amount + commission;

    contract.add_car(ADMIN, owner, price_per_day).unwrap();
    contract.set_admin_commission(ADMIN, commission).unwrap();
    assert_eq!(contract.read_contract_balance(), 0);

    let deposit = contract.rental(renter, renter, owner, total_days, amount).unwrap();
    assert_eq!(
        deposit,
        Transfer::IntoCustody { from: renter, amount: expected_total_amount }
    );

    assert_eq!(contract.read_contract_balance(), expected_total_amount);

    let car = contract.read_car(owner).unwrap();
    assert_eq!(car.car_status, CarStatus::Rented);
    // The commission is added on top of the deposit, not taken from the owner.
    assert_eq!(car.available_to_withdraw, amount);

    let rental = contract.read_rental(renter, owner).unwrap();
    assert_eq!(rental.total_days_to_rent, total_days);
    assert_eq!(rental.amount, amount);
}

#[test]
fn test_rental_with_zero_commission() {
    let mut contract = setup();
    let owner = 10_u64;
    let renter = 20_u64;
    let price_per_day = 1500_i128;
    let total_days = 3_u32;
    let amount = 4500_i128;

    contract.add_car(ADMIN, owner, price_per_day).unwrap();
    contract.set_admin_commission(ADMIN, 0_i128).unwrap();

    contract.rental(renter, renter, owner, total_days, amount).unwrap();

    assert_eq!(contract.read_contract_balance(), amount);
    let car = contract.read_car(owner).unwrap();
    assert_eq!(car.available_to_withdraw, amount);
}

#[test]
fn test_rental_with_commission_added_to_deposit() {
    let mut contract = setup();
    let owner = 10_u64;
    let renter = 20_u64;
    let price_per_day = 1500_i128;
    let total_days = 3_u32;
    let amount = 4500_i128;
    // A commission larger than the amount is simply added to the deposit.
    let commission = 5000_i128;

    contract.add_car(ADMIN, owner, price_per_day).unwrap();
    contract.set_admin_commission(ADMIN, commission).unwrap();
    assert_eq!(contract.read_contract_balance(), 0);

    let deposit = contract.rental(renter, renter, owner, total_days, amount).unwrap();
    assert_eq!(deposit, Transfer::IntoCustody { from: renter, amount: amount + commission });

    assert_eq!(contract.read_contract_balance(), amount + commission);
    let car = contract.read_car(owner).unwrap();
    assert_eq!(car.available_to_withdraw, amount);
}
