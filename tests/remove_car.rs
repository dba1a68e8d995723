use rent_a_car::{Error, RentACarContract};

const ADMIN: u64 = 1;
const TOKEN: u64 = 2;

fn setup() -> RentACarContract {
    let mut contract = RentACarContract::new();
    contract.__constructor(ADMIN, TOKEN).unwrap();
    contract
}

#[test]
fn test_remove_car_deletes_from_storage() {
    let mut contract = setup();
    let owner = 10_u64;
    let price_per_day = 1500_i128;

    contract.add_car(ADMIN, owner, price_per_day).unwrap();
    assert!(contract.has_car(owner));

    contract.remove_car(ADMIN, owner).unwrap();

    assert!(!contract.has_car(owner));
}

#[test]
fn test_remove_car_not_found_fails() {
    let mut contract = setup();
    let owner = 10_u64;

    assert_eq!(contract.remove_car(ADMIN, owner), Err(Error::CarNotFound));
}
