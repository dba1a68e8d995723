use vstd::prelude::*;

use crate::error::Error;
use crate::types::{Car, CarStatus, Rental, Transfer};

verus! {

/// Whether `x` is a value of `i128`.
pub open spec fn fits_i128(x: int) -> bool {
    i128::MIN <= x <= i128::MAX
}

/// The sum of the owners' claimable balances over every registered car.
pub open spec fn total_owed(cars: Map<u64, Car>) -> int
    decreases cars.dom().len(),
{
    if cars.dom().finite() && cars.dom().len() > 0 {
        let o = cars.dom().choose();
        cars[o].available_to_withdraw + total_owed(cars.remove(o))
    } else {
        0
    }
}

/// Taking any one car out of the sum leaves the sum over the others.
pub proof fn lemma_total_owed_remove(cars: Map<u64, Car>, o: u64)
    requires
        cars.dom().finite(),
        cars.contains_key(o),
    ensures
        total_owed(cars) == cars[o].available_to_withdraw + total_owed(cars.remove(o)),
    decreases cars.dom().len(),
{
    assert(cars.dom().len() > 0);
    let c = cars.dom().choose();
    if c != o {
        lemma_total_owed_remove(cars.remove(c), o);
        lemma_total_owed_remove(cars.remove(o), c);
        assert(cars.remove(c).remove(o) =~= cars.remove(o).remove(c));
    }
}

/// Writing one car replaces its share of the sum.
pub proof fn lemma_total_owed_insert(cars: Map<u64, Car>, o: u64, car: Car)
    requires
        cars.dom().finite(),
    ensures
        total_owed(cars.insert(o, car)) == total_owed(cars.remove(o)) + car.available_to_withdraw,
        cars.contains_key(o) ==> total_owed(cars) == total_owed(cars.remove(o))
            + cars[o].available_to_withdraw,
        !cars.contains_key(o) ==> total_owed(cars) == total_owed(cars.remove(o)),
{
    let m = cars.insert(o, car);
    lemma_total_owed_remove(m, o);
    assert(m.remove(o) =~= cars.remove(o));
    if cars.contains_key(o) {
        lemma_total_owed_remove(cars, o);
    } else {
        assert(cars.remove(o) =~= cars);
    }
}

/// The abstract state of the ledger.
pub struct LedgerModel {
    pub admin: Option<u64>,
    pub token: Option<u64>,
    /// Flat surcharge added to every rental.
    pub admin_commission: int,
    /// Commission collected and not yet withdrawn.
    pub admin_available_to_withdraw: int,
    /// Everything held in custody.
    pub contract_balance: int,
    /// One car per owner.
    pub cars: Map<u64, Car>,
    /// The last rental of each (renter, owner) pair.
    pub rentals: Map<(u64, u64), Rental>,
}

} // verus!

verus! {

impl LedgerModel {
    /// The ledger's standing invariant: rates and balances are non-negative
    /// values of `i128`, every registered car has a positive price and a
    /// non-negative claimable balance, and finitely many cars are registered.
    pub open spec fn wf(self) -> bool {
        &&& self.cars.dom().finite()
        &&& 0 <= self.admin_commission <= i128::MAX
        &&& 0 <= self.admin_available_to_withdraw <= i128::MAX
        &&& 0 <= self.contract_balance <= i128::MAX
        &&& forall|o: u64| #[trigger]
            self.cars.contains_key(o) ==> {
                &&& self.cars[o].price_per_day > 0
                &&& self.cars[o].available_to_withdraw >= 0
            }
    }

    /// Custody holds exactly what the owners and the administrator may claim.
    pub open spec fn custody_balanced(self) -> bool {
        self.contract_balance == total_owed(self.cars) + self.admin_available_to_withdraw
    }

    /// The error that an administrator-only operation reports for `caller`.
    pub open spec fn admin_gate(self, caller: u64) -> Option<Error> {
        match self.admin {
            None => Some(Error::AdminNotFound),
            Some(a) => if a != caller {
                Some(Error::NotAuthorized)
            } else {
                None
            },
        }
    }

    pub open spec fn constructor_error(self, admin: u64, token: u64) -> Option<Error> {
        if admin == token {
            Some(Error::AdminTokenConflict)
        } else if self.admin is Some {
            Some(Error::ContractInitialized)
        } else {
            None
        }
    }

    pub open spec fn after_constructor(self, admin: u64, token: u64) -> LedgerModel {
        LedgerModel { admin: Some(admin), token: Some(token), ..self }
    }

    pub open spec fn add_car_error(self, caller: u64, owner: u64, price_per_day: i128) -> Option<
        Error,
    > {
        if self.admin_gate(caller) is Some {
            self.admin_gate(caller)
        } else if price_per_day <= 0 {
            Some(Error::AmountMustBePositive)
        } else if self.cars.contains_key(owner) {
            Some(Error::CarAlreadyExist)
        } else {
            None
        }
    }

    pub open spec fn after_add_car(self, owner: u64, price_per_day: i128) -> LedgerModel {
        let car = Car { price_per_day, car_status: CarStatus::Available, available_to_withdraw: 0 };
        LedgerModel { cars: self.cars.insert(owner, car), ..self }
    }

    pub open spec fn remove_car_error(self, caller: u64, owner: u64) -> Option<Error> {
        if self.admin_gate(caller) is Some {
            self.admin_gate(caller)
        } else if !self.cars.contains_key(owner) {
            Some(Error::CarNotFound)
        } else {
            None
        }
    }

    /// The car record is dropped whatever its claimable balance: an unpaid
    /// balance is no longer owed to anyone, though custody still holds it.
    pub open spec fn after_remove_car(self, owner: u64) -> LedgerModel {
        LedgerModel { cars: self.cars.remove(owner), ..self }
    }

    pub open spec fn rental_error(
        self,
        caller: u64,
        renter: u64,
        owner: u64,
        total_days_to_rent: u32,
        amount: i128,
    ) -> Option<Error> {
        if caller != renter {
            Some(Error::NotAuthorized)
        } else if amount <= 0 {
            Some(Error::AmountMustBePositive)
        } else if total_days_to_rent == 0 {
            Some(Error::RentalDurationCannotBeZero)
        } else if renter == owner {
            Some(Error::SelfRentalNotAllowed)
        } else if !self.cars.contains_key(owner) {
            Some(Error::CarNotFound)
        } else if self.cars[owner].car_status != CarStatus::Available {
            Some(Error::CarAlreadyRented)
        } else if !fits_i128(amount + self.admin_commission) || !fits_i128(
            self.cars[owner].available_to_withdraw + amount,
        ) || !fits_i128(self.admin_available_to_withdraw + self.admin_commission) || !fits_i128(
            self.contract_balance + amount + self.admin_commission,
        ) {
            Some(Error::OverflowError)
        } else {
            None
        }
    }

    /// The owner is credited the full amount; the commission in force is
    /// credited to the administrator on top of it, and custody grows by both.
    pub open spec fn after_rental(
        self,
        renter: u64,
        owner: u64,
        total_days_to_rent: u32,
        amount: i128,
    ) -> LedgerModel {
        let car = self.cars[owner];
        let rented = Car {
            car_status: CarStatus::Rented,
            available_to_withdraw: (car.available_to_withdraw + amount) as i128,
            ..car
        };
        LedgerModel {
            cars: self.cars.insert(owner, rented),
            rentals: self.rentals.insert((renter, owner), Rental { total_days_to_rent, amount }),
            admin_available_to_withdraw: self.admin_available_to_withdraw + self.admin_commission,
            contract_balance: self.contract_balance + amount + self.admin_commission,
            ..self
        }
    }

    /// What the renter pays into custody: the amount plus the commission.
    pub open spec fn rental_deposit(self, renter: u64, amount: i128) -> Transfer {
        Transfer::IntoCustody { from: renter, amount: (amount + self.admin_commission) as i128 }
    }

    pub open spec fn payout_owner_error(self, caller: u64, owner: u64, amount: i128) -> Option<
        Error,
    > {
        if caller != owner {
            Some(Error::NotAuthorized)
        } else if amount <= 0 {
            Some(Error::AmountMustBePositive)
        } else if !self.cars.contains_key(owner) {
            Some(Error::CarNotFound)
        } else if amount > self.cars[owner].available_to_withdraw {
            Some(Error::InsufficientBalance)
        } else if amount > self.contract_balance {
            Some(Error::BalanceNotAvailableForAmountRequested)
        } else {
            None
        }
    }

    pub open spec fn after_payout_owner(self, owner: u64, amount: i128) -> LedgerModel {
        let car = self.cars[owner];
        let paid = Car { available_to_withdraw: (car.available_to_withdraw - amount) as i128, ..car };
        LedgerModel {
            cars: self.cars.insert(owner, paid),
            contract_balance: self.contract_balance - amount,
            ..self
        }
    }

    pub open spec fn set_admin_commission_error(self, caller: u64, commission: i128) -> Option<
        Error,
    > {
        if self.admin_gate(caller) is Some {
            self.admin_gate(caller)
        } else if commission < 0 {
            Some(Error::AmountMustBePositive)
        } else {
            None
        }
    }

    pub open spec fn after_set_admin_commission(self, commission: i128) -> LedgerModel {
        LedgerModel { admin_commission: commission as int, ..self }
    }

    pub open spec fn withdraw_admin_commission_error(self, caller: u64, amount: i128) -> Option<
        Error,
    > {
        if self.admin_gate(caller) is Some {
            self.admin_gate(caller)
        } else if amount <= 0 {
            Some(Error::AmountMustBePositive)
        } else if amount > self.admin_available_to_withdraw {
            Some(Error::InsufficientBalance)
        } else if amount > self.contract_balance {
            Some(Error::BalanceNotAvailableForAmountRequested)
        } else {
            None
        }
    }

    pub open spec fn after_withdraw_admin_commission(self, amount: i128) -> LedgerModel {
        LedgerModel {
            admin_available_to_withdraw: self.admin_available_to_withdraw - amount,
            contract_balance: self.contract_balance - amount,
            ..self
        }
    }
}

} // verus!
