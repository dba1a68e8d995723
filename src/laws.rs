//! Properties of the ledger that span operations, proved over its model.
use vstd::prelude::*;

use crate::error::Error;
use crate::model::{lemma_total_owed_insert, lemma_total_owed_remove, total_owed, LedgerModel};
use crate::types::{Car, CarStatus};

verus! {

/// Naming the administrator and the token moves no funds, so custody stays
/// equal to what the owners and the administrator can claim.
pub proof fn custody_balanced_after_constructor(m: LedgerModel, admin: u64, token: u64)
    requires
        m.wf(),
        m.custody_balanced(),
        m.constructor_error(admin, token) is None,
    ensures
        m.after_constructor(admin, token).custody_balanced(),
{
}

/// A newly registered car owes nothing, so custody stays balanced.
pub proof fn custody_balanced_after_add_car(
    m: LedgerModel,
    caller: u64,
    owner: u64,
    price_per_day: i128,
)
    requires
        m.wf(),
        m.custody_balanced(),
        m.add_car_error(caller, owner, price_per_day) is None,
    ensures
        m.after_add_car(owner, price_per_day).custody_balanced(),
{
    let car = Car { price_per_day, car_status: CarStatus::Available, available_to_withdraw: 0 };
    lemma_total_owed_insert(m.cars, owner, car);
}

/// A rental adds to custody exactly what it credits the owner and the
/// administrator, so custody stays balanced.
pub proof fn custody_balanced_after_rental(
    m: LedgerModel,
    caller: u64,
    renter: u64,
    owner: u64,
    total_days_to_rent: u32,
    amount: i128,
)
    requires
        m.wf(),
        m.custody_balanced(),
        m.rental_error(caller, renter, owner, total_days_to_rent, amount) is None,
    ensures
        m.after_rental(renter, owner, total_days_to_rent, amount).custody_balanced(),
{
    let n = m.after_rental(renter, owner, total_days_to_rent, amount);
    lemma_total_owed_insert(m.cars, owner, n.cars[owner]);
}

/// A payout takes from custody exactly what it takes from the owner's
/// balance, so custody stays balanced.
pub proof fn custody_balanced_after_payout_owner(
    m: LedgerModel,
    caller: u64,
    owner: u64,
    amount: i128,
)
    requires
        m.wf(),
        m.custody_balanced(),
        m.payout_owner_error(caller, owner, amount) is None,
    ensures
        m.after_payout_owner(owner, amount).custody_balanced(),
{
    let n = m.after_payout_owner(owner, amount);
    lemma_total_owed_insert(m.cars, owner, n.cars[owner]);
}

/// A withdrawal takes from custody exactly what it takes from the
/// administrator's balance, so custody stays balanced.
pub proof fn custody_balanced_after_withdraw_admin_commission(
    m: LedgerModel,
    caller: u64,
    amount: i128,
)
    requires
        m.wf(),
        m.custody_balanced(),
        m.withdraw_admin_commission_error(caller, amount) is None,
    ensures
        m.after_withdraw_admin_commission(amount).custody_balanced(),
{
}

/// Changing the commission moves no funds, so custody stays balanced.
pub proof fn custody_balanced_after_set_admin_commission(
    m: LedgerModel,
    caller: u64,
    commission: i128,
)
    requires
        m.wf(),
        m.custody_balanced(),
        m.set_admin_commission_error(caller, commission) is None,
    ensures
        m.after_set_admin_commission(commission).custody_balanced(),
{
}

/// Removing a car with nothing left to claim keeps custody balanced. (A car
/// removed with a balance still on it leaves that balance in custody with no
/// one entitled to it.)
pub proof fn custody_balanced_after_remove_car(m: LedgerModel, caller: u64, owner: u64)
    requires
        m.wf(),
        m.custody_balanced(),
        m.remove_car_error(caller, owner) is None,
        m.cars[owner].available_to_withdraw == 0,
    ensures
        m.after_remove_car(owner).custody_balanced(),
{
    lemma_total_owed_remove(m.cars, owner);
}

/// Changing the commission leaves every recorded rental and every balance
/// already credited as it was.
pub proof fn commission_change_is_not_retroactive(m: LedgerModel, caller: u64, commission: i128)
    requires
        m.set_admin_commission_error(caller, commission) is None,
    ensures
        m.after_set_admin_commission(commission).rentals == m.rentals,
        m.after_set_admin_commission(commission).cars == m.cars,
        m.after_set_admin_commission(commission).admin_available_to_withdraw
            == m.admin_available_to_withdraw,
        m.after_set_admin_commission(commission).contract_balance == m.contract_balance,
        m.after_set_admin_commission(commission).admin_commission == commission,
{
}

/// Registering a car and then removing it, by the same administrator, leaves
/// the car records as they were; right after registration the car is
/// `Available`.
pub proof fn add_car_then_remove_car_restores(
    m: LedgerModel,
    caller: u64,
    owner: u64,
    price_per_day: i128,
)
    requires
        m.add_car_error(caller, owner, price_per_day) is None,
    ensures
        m.after_add_car(owner, price_per_day).cars[owner].car_status == CarStatus::Available,
        m.after_add_car(owner, price_per_day).remove_car_error(caller, owner) is None,
        m.after_add_car(owner, price_per_day).after_remove_car(owner) == m,
{
    assert(m.after_add_car(owner, price_per_day).after_remove_car(owner).cars =~= m.cars);
}

/// A rental succeeds only on an `Available` car and leaves it `Rented`, so
/// the same request made again fails.
pub proof fn rental_takes_an_available_car(
    m: LedgerModel,
    caller: u64,
    renter: u64,
    owner: u64,
    total_days_to_rent: u32,
    amount: i128,
)
    requires
        m.rental_error(caller, renter, owner, total_days_to_rent, amount) is None,
    ensures
        m.cars.contains_key(owner),
        m.cars[owner].car_status == CarStatus::Available,
        m.after_rental(renter, owner, total_days_to_rent, amount).cars[owner].car_status
            == CarStatus::Rented,
        m.after_rental(renter, owner, total_days_to_rent, amount).rental_error(
            caller,
            renter,
            owner,
            total_days_to_rent,
            amount,
        ) == Some(Error::CarAlreadyRented),
{
}

} // verus!
