use std::collections::HashMap;
use vstd::prelude::*;

use crate::error::Error;
use crate::laws::{
    custody_balanced_after_add_car, custody_balanced_after_constructor,
    custody_balanced_after_payout_owner, custody_balanced_after_remove_car,
    custody_balanced_after_rental, custody_balanced_after_set_admin_commission,
    custody_balanced_after_withdraw_admin_commission,
};
use crate::model::LedgerModel;
use crate::types::{Car, CarStatus, Rental, Transfer};

verus! {

broadcast use vstd::std_specs::hash::group_hash_axioms;

/// 2^64: a renter's handle fills the high half of a rental key.
const PAIR_SHIFT: u128 = 0x1_0000_0000_0000_0000;

/// The key under which the rental between `renter` and `owner` is stored.
pub open spec fn rental_key(renter: u64, owner: u64) -> u128 {
    (renter as int * 0x1_0000_0000_0000_0000 + owner as int) as u128
}

/// Distinct pairs are stored under distinct keys.
proof fn lemma_rental_key_injective(r1: u64, o1: u64, r2: u64, o2: u64)
    requires
        rental_key(r1, o1) == rental_key(r2, o2),
    ensures
        r1 == r2,
        o1 == o2,
{
    let n: int = 0x1_0000_0000_0000_0000;
    assert(r1 as int * n + o1 as int <= u128::MAX) by (nonlinear_arith)
        requires
            r1 <= u64::MAX,
            o1 <= u64::MAX,
            n == 0x1_0000_0000_0000_0000,
    ;
    assert(r2 as int * n + o2 as int <= u128::MAX) by (nonlinear_arith)
        requires
            r2 <= u64::MAX,
            o2 <= u64::MAX,
            n == 0x1_0000_0000_0000_0000,
    ;
    assert(r1 == r2 && o1 == o2) by (nonlinear_arith)
        requires
            r1 as int * n + o1 as int == r2 as int * n + o2 as int,
            0 <= o1 < n,
            0 <= o2 < n,
            r1 >= 0,
            r2 >= 0,
            n > 0,
    ;
}

fn pair_key(renter: u64, owner: u64) -> (k: u128)
    ensures
        k == rental_key(renter, owner),
{
    assert(renter as int * 0x1_0000_0000_0000_0000 + owner as int <= u128::MAX) by (nonlinear_arith)
        requires
            renter <= u64::MAX,
            owner <= u64::MAX,
    ;
    (renter as u128) * PAIR_SHIFT + (owner as u128)
}

/// The rental ledger: administrator, payment token, commission, custody, and
/// the car and rental records.
pub struct RentACarContract {
    admin: Option<u64>,
    token: Option<u64>,
    admin_commission: i128,
    admin_available_to_withdraw: i128,
    contract_balance: i128,
    cars: HashMap<u64, Car>,
    rentals: HashMap<u128, Rental>,
}

impl View for RentACarContract {
    type V = LedgerModel;

    closed spec fn view(&self) -> LedgerModel {
        LedgerModel {
            admin: self.admin,
            token: self.token,
            admin_commission: self.admin_commission as int,
            admin_available_to_withdraw: self.admin_available_to_withdraw as int,
            contract_balance: self.contract_balance as int,
            cars: self.cars@,
            rentals: Map::new(
                |p: (u64, u64)| self.rentals@.contains_key(rental_key(p.0, p.1)),
                |p: (u64, u64)| self.rentals@[rental_key(p.0, p.1)],
            ),
        }
    }
}

impl RentACarContract {
    /// A ledger with no administrator yet, no records and nothing in custody.
    pub fn new() -> (r: Self)
        ensures
            r@.wf(),
            r@.custody_balanced(),
            r@.admin is None,
            r@.token is None,
            r@.admin_commission == 0,
            r@.admin_available_to_withdraw == 0,
            r@.contract_balance == 0,
            r@.cars == Map::<u64, Car>::empty(),
            r@.rentals == Map::<(u64, u64), Rental>::empty(),
    {
        let r = RentACarContract {
            admin: None,
            token: None,
            admin_commission: 0,
            admin_available_to_withdraw: 0,
            contract_balance: 0,
            cars: HashMap::new(),
            rentals: HashMap::new(),
        };
        assert(r@.rentals =~= Map::<(u64, u64), Rental>::empty());
        assert(r@.cars.dom() =~= Set::<u64>::empty());
        r
    }

    /// Rebuilds a ledger from stored singletons, with no car or rental
    /// records yet. Stored values that break the ledger's invariant (a
    /// negative commission or balance) are refused with `None`.
    pub fn restore(
        admin: Option<u64>,
        token: Option<u64>,
        admin_commission: i128,
        admin_available_to_withdraw: i128,
        contract_balance: i128,
    ) -> (r: Option<Self>)
        ensures
            r is Some <==> admin_commission >= 0 && admin_available_to_withdraw >= 0
                && contract_balance >= 0,
            r matches Some(l) ==> {
                &&& l@.wf()
                &&& l@ == LedgerModel {
                    admin,
                    token,
                    admin_commission: admin_commission as int,
                    admin_available_to_withdraw: admin_available_to_withdraw as int,
                    contract_balance: contract_balance as int,
                    cars: Map::empty(),
                    rentals: Map::empty(),
                }
            },
    {
        if admin_commission < 0 || admin_available_to_withdraw < 0 || contract_balance < 0 {
            return None;
        }
        let mut l = RentACarContract::new();
        l.admin = admin;
        l.token = token;
        l.admin_commission = admin_commission;
        l.admin_available_to_withdraw = admin_available_to_withdraw;
        l.contract_balance = contract_balance;
        Some(l)
    }

    /// Adds a stored car record for `owner`. A record with a non-positive
    /// price or a negative balance is refused with `AmountMustBePositive`, a
    /// second record for the same owner with `CarAlreadyExist`.
    pub fn restore_car(&mut self, owner: u64, car: Car) -> (r: Result<(), Error>)
        requires
            old(self)@.wf(),
        ensures
            final(self)@.wf(),
            r == (if car.price_per_day <= 0 || car.available_to_withdraw < 0 {
                Err::<(), Error>(Error::AmountMustBePositive)
            } else if old(self)@.cars.contains_key(owner) {
                Err::<(), Error>(Error::CarAlreadyExist)
            } else {
                Ok::<(), Error>(())
            }),
            r is Ok ==> final(self)@ == (LedgerModel {
                cars: old(self)@.cars.insert(owner, car),
                ..old(self)@
            }),
            r is Err ==> final(self)@ == old(self)@,
    {
        if car.price_per_day <= 0 || car.available_to_withdraw < 0 {
            return Err(Error::AmountMustBePositive);
        }
        if self.cars.contains_key(&owner) {
            return Err(Error::CarAlreadyExist);
        }
        self.cars.insert(owner, car);
        Ok(())
    }

    /// Reserves `owner`'s car for `renter`, who must be the proven `caller`.
    ///
    /// On success the car is `Rented`, the owner is credited `amount`, the
    /// administrator the commission in force, custody both, and the rental
    /// between the two is recorded (replacing any earlier one). The returned
    /// deposit moves `amount` plus the commission from the renter into
    /// custody.
    pub fn rental(
        &mut self,
        caller: u64,
        renter: u64,
        owner: u64,
        total_days_to_rent: u32,
        amount: i128,
    ) -> (r: Result<Transfer, Error>)
        requires
            old(self)@.wf(),
        ensures
            final(self)@.wf(),
            match old(self)@.rental_error(caller, renter, owner, total_days_to_rent, amount) {
                Some(e) => r == Err::<Transfer, Error>(e) && final(self)@ == old(self)@,
                None => {
                    &&& r == Ok::<Transfer, Error>(old(self)@.rental_deposit(renter, amount))
                    &&& final(self)@ == old(self)@.after_rental(
                        renter,
                        owner,
                        total_days_to_rent,
                        amount,
                    )
                },
            },
            r is Ok ==> {
                &&& old(self)@.cars[owner].car_status == CarStatus::Available
                &&& final(self)@.cars[owner].car_status == CarStatus::Rented
            },
            old(self)@.custody_balanced() ==> final(self)@.custody_balanced(),
    {
        let ghost before = self@;
        if caller != renter {
            return Err(Error::NotAuthorized);
        }
        if amount <= 0 {
            return Err(Error::AmountMustBePositive);
        }
        if total_days_to_rent == 0 {
            return Err(Error::RentalDurationCannotBeZero);
        }
        if renter == owner {
            return Err(Error::SelfRentalNotAllowed);
        }
        let mut car = match self.cars.get(&owner) {
            Some(c) => *c,
            None => return Err(Error::CarNotFound),
        };
        if car.car_status != CarStatus::Available {
            return Err(Error::CarAlreadyRented);
        }
        car.car_status = CarStatus::Rented;
        let admin_commission = self.admin_commission;
        let total_amount = match amount.checked_add(admin_commission) {
            Some(t) => t,
            None => return Err(Error::OverflowError),
        };
        // The owner receives the full amount; the commission is on top.
        car.available_to_withdraw = match car.available_to_withdraw.checked_add(amount) {
            Some(v) => v,
            None => return Err(Error::OverflowError),
        };
        let admin_available = match self.admin_available_to_withdraw.checked_add(admin_commission) {
            Some(v) => v,
            None => return Err(Error::OverflowError),
        };
        let contract_balance = match self.contract_balance.checked_add(total_amount) {
            Some(v) => v,
            None => return Err(Error::OverflowError),
        };
        let key = pair_key(renter, owner);
        self.admin_available_to_withdraw = admin_available;
        self.contract_balance = contract_balance;
        self.cars.insert(owner, car);
        self.rentals.insert(key, Rental { total_days_to_rent, amount });
        proof {
            let rec = Rental { total_days_to_rent, amount };
            assert forall|p: (u64, u64)| p != (renter, owner) implies rental_key(p.0, p.1) != key by {
                if rental_key(p.0, p.1) == key {
                    lemma_rental_key_injective(p.0, p.1, renter, owner);
                }
            }
            assert(self@.rentals =~= before.rentals.insert((renter, owner), rec));
            assert(self@ == before.after_rental(renter, owner, total_days_to_rent, amount));
            if before.custody_balanced() {
                custody_balanced_after_rental(
                    before,
                    caller,
                    renter,
                    owner,
                    total_days_to_rent,
                    amount,
                );
            }
        }
        Ok(Transfer::IntoCustody { from: renter, amount: total_amount })
    }

    /// Pays `amount` of `owner`'s claimable balance out of custody. The owner
    /// must be the proven `caller`.
    pub fn payout_owner(&mut self, caller: u64, owner: u64, amount: i128) -> (r: Result<
        Transfer,
        Error,
    >)
        requires
            old(self)@.wf(),
        ensures
            final(self)@.wf(),
            match old(self)@.payout_owner_error(caller, owner, amount) {
                Some(e) => r == Err::<Transfer, Error>(e) && final(self)@ == old(self)@,
                None => {
                    &&& r == Ok::<Transfer, Error>(Transfer::OutOfCustody { to: owner, amount })
                    &&& final(self)@ == old(self)@.after_payout_owner(owner, amount)
                },
            },
            old(self)@.custody_balanced() ==> final(self)@.custody_balanced(),
    {
        let ghost before = self@;
        if caller != owner {
            return Err(Error::NotAuthorized);
        }
        if amount <= 0 {
            return Err(Error::AmountMustBePositive);
        }
        let mut car = match self.cars.get(&owner) {
            Some(c) => *c,
            None => return Err(Error::CarNotFound),
        };
        if amount > car.available_to_withdraw {
            return Err(Error::InsufficientBalance);
        }
        if amount > self.contract_balance {
            return Err(Error::BalanceNotAvailableForAmountRequested);
        }
        // Both differences lie between zero and the balance they come from.
        car.available_to_withdraw = car.available_to_withdraw - amount;
        self.contract_balance = self.contract_balance - amount;
        self.cars.insert(owner, car);
        proof {
            if before.custody_balanced() {
                custody_balanced_after_payout_owner(before, caller, owner, amount);
            }
        }
        Ok(Transfer::OutOfCustody { to: owner, amount })
    }

    /// Pays `amount` of the administrator's collected commission out of
    /// custody. The administrator must be the proven `caller`.
    pub fn withdraw_admin_commission(&mut self, caller: u64, amount: i128) -> (r: Result<
        Transfer,
        Error,
    >)
        requires
            old(self)@.wf(),
        ensures
            final(self)@.wf(),
            match old(self)@.withdraw_admin_commission_error(caller, amount) {
                Some(e) => r == Err::<Transfer, Error>(e) && final(self)@ == old(self)@,
                None => {
                    &&& r == Ok::<Transfer, Error>(Transfer::OutOfCustody { to: caller, amount })
                    &&& final(self)@ == old(self)@.after_withdraw_admin_commission(amount)
                },
            },
            old(self)@.custody_balanced() ==> final(self)@.custody_balanced(),
    {
        let ghost before = self@;
        let admin = match self.read_admin() {
            Ok(a) => a,
            Err(e) => return Err(e),
        };
        if caller != admin {
            return Err(Error::NotAuthorized);
        }
        if amount <= 0 {
            return Err(Error::AmountMustBePositive);
        }
        if amount > self.admin_available_to_withdraw {
            return Err(Error::InsufficientBalance);
        }
        if amount > self.contract_balance {
            return Err(Error::BalanceNotAvailableForAmountRequested);
        }
        self.admin_available_to_withdraw = self.admin_available_to_withdraw - amount;
        self.contract_balance = self.contract_balance - amount;
        proof {
            if before.custody_balanced() {
                custody_balanced_after_withdraw_admin_commission(before, caller, amount);
            }
        }
        Ok(Transfer::OutOfCustody { to: admin, amount })
    }

    /// Registers a car for `owner` at `price_per_day`: `Available`, with
    /// nothing to claim. Only the administrator may do so.
    pub fn add_car(&mut self, caller: u64, owner: u64, price_per_day: i128) -> (r: Result<
        (),
        Error,
    >)
        requires
            old(self)@.wf(),
        ensures
            final(self)@.wf(),
            match old(self)@.add_car_error(caller, owner, price_per_day) {
                Some(e) => r == Err::<(), Error>(e) && final(self)@ == old(self)@,
                None => r is Ok && final(self)@ == old(self)@.after_add_car(owner, price_per_day),
            },
            old(self)@.custody_balanced() ==> final(self)@.custody_balanced(),
    {
        let ghost before = self@;
        let admin = match self.read_admin() {
            Ok(a) => a,
            Err(e) => return Err(e),
        };
        if caller != admin {
            return Err(Error::NotAuthorized);
        }
        if price_per_day <= 0 {
            return Err(Error::AmountMustBePositive);
        }
        if self.cars.contains_key(&owner) {
            return Err(Error::CarAlreadyExist);
        }
        let car = Car { price_per_day, car_status: CarStatus::Available, available_to_withdraw: 0 };
        self.cars.insert(owner, car);
        proof {
            if before.custody_balanced() {
                custody_balanced_after_add_car(before, caller, owner, price_per_day);
            }
        }
        Ok(())
    }

    /// Names the administrator and the payment token, once.
    pub fn __constructor(&mut self, admin: u64, token: u64) -> (r: Result<(), Error>)
        requires
            old(self)@.wf(),
        ensures
            final(self)@.wf(),
            match old(self)@.constructor_error(admin, token) {
                Some(e) => r == Err::<(), Error>(e) && final(self)@ == old(self)@,
                None => r is Ok && final(self)@ == old(self)@.after_constructor(admin, token),
            },
            old(self)@.custody_balanced() ==> final(self)@.custody_balanced(),
    {
        let ghost before = self@;
        if admin == token {
            return Err(Error::AdminTokenConflict);
        }
        if self.has_admin() {
            return Err(Error::ContractInitialized);
        }
        self.admin = Some(admin);
        self.token = Some(token);
        proof {
            if before.custody_balanced() {
                custody_balanced_after_constructor(before, admin, token);
            }
        }
        Ok(())
    }

    /// Deletes `owner`'s car record. Only the administrator may do so. Any
    /// balance still claimable on it is dropped with the record.
    pub fn remove_car(&mut self, caller: u64, owner: u64) -> (r: Result<(), Error>)
        requires
            old(self)@.wf(),
        ensures
            final(self)@.wf(),
            match old(self)@.remove_car_error(caller, owner) {
                Some(e) => r == Err::<(), Error>(e) && final(self)@ == old(self)@,
                None => r is Ok && final(self)@ == old(self)@.after_remove_car(owner),
            },
            old(self)@.custody_balanced() && old(self)@.cars[owner].available_to_withdraw == 0
                ==> final(self)@.custody_balanced(),
    {
        let ghost before = self@;
        let admin = match self.read_admin() {
            Ok(a) => a,
            Err(e) => return Err(e),
        };
        if caller != admin {
            return Err(Error::NotAuthorized);
        }
        if !self.cars.contains_key(&owner) {
            return Err(Error::CarNotFound);
        }
        self.cars.remove(&owner);
        proof {
            if before.custody_balanced() && before.cars[owner].available_to_withdraw == 0 {
                custody_balanced_after_remove_car(before, caller, owner);
            }
        }
        Ok(())
    }

    /// Sets the flat commission added to every later rental. Only the
    /// administrator may do so. Rentals already made keep what they credited.
    pub fn set_admin_commission(&mut self, caller: u64, commission: i128) -> (r: Result<
        (),
        Error,
    >)
        requires
            old(self)@.wf(),
        ensures
            final(self)@.wf(),
            match old(self)@.set_admin_commission_error(caller, commission) {
                Some(e) => r == Err::<(), Error>(e) && final(self)@ == old(self)@,
                None => r is Ok && final(self)@ == old(self)@.after_set_admin_commission(
                    commission,
                ),
            },
            final(self)@.rentals == old(self)@.rentals,
            final(self)@.cars == old(self)@.cars,
            final(self)@.admin_available_to_withdraw == old(self)@.admin_available_to_withdraw,
            final(self)@.contract_balance == old(self)@.contract_balance,
            old(self)@.custody_balanced() ==> final(self)@.custody_balanced(),
    {
        let ghost before = self@;
        let admin = match self.read_admin() {
            Ok(a) => a,
            Err(e) => return Err(e),
        };
        if caller != admin {
            return Err(Error::NotAuthorized);
        }
        if commission < 0 {
            return Err(Error::AmountMustBePositive);
        }
        self.admin_commission = commission;
        proof {
            if before.custody_balanced() {
                custody_balanced_after_set_admin_commission(before, caller, commission);
            }
        }
        Ok(())
    }

    /// The status of `owner`'s car.
    pub fn get_car_status(&self, owner: u64) -> (r: Result<CarStatus, Error>)
        ensures
            self@.cars.contains_key(owner) ==> r == Ok::<CarStatus, Error>(
                self@.cars[owner].car_status,
            ),
            !self@.cars.contains_key(owner) ==> r == Err::<CarStatus, Error>(Error::CarNotFound),
    {
        match self.read_car(owner) {
            Ok(car) => Ok(car.car_status),
            Err(e) => Err(e),
        }
    }

    pub fn has_admin(&self) -> (r: bool)
        ensures
            r == self@.admin is Some,
    {
        self.admin.is_some()
    }

    pub fn read_admin(&self) -> (r: Result<u64, Error>)
        ensures
            match self@.admin {
                Some(a) => r == Ok::<u64, Error>(a),
                None => r == Err::<u64, Error>(Error::AdminNotFound),
            },
    {
        match self.admin {
            Some(a) => Ok(a),
            None => Err(Error::AdminNotFound),
        }
    }

    pub fn read_token(&self) -> (r: Result<u64, Error>)
        ensures
            match self@.token {
                Some(t) => r == Ok::<u64, Error>(t),
                None => r == Err::<u64, Error>(Error::TokenNotFound),
            },
    {
        match self.token {
            Some(t) => Ok(t),
            None => Err(Error::TokenNotFound),
        }
    }

    pub fn read_admin_commission(&self) -> (r: i128)
        ensures
            r == self@.admin_commission,
    {
        self.admin_commission
    }

    pub fn read_admin_available_to_withdraw(&self) -> (r: i128)
        ensures
            r == self@.admin_available_to_withdraw,
    {
        self.admin_available_to_withdraw
    }

    pub fn read_contract_balance(&self) -> (r: i128)
        ensures
            r == self@.contract_balance,
    {
        self.contract_balance
    }

    pub fn has_car(&self, owner: u64) -> (r: bool)
        ensures
            r == self@.cars.contains_key(owner),
    {
        self.cars.contains_key(&owner)
    }

    pub fn read_car(&self, owner: u64) -> (r: Result<Car, Error>)
        ensures
            self@.cars.contains_key(owner) ==> r == Ok::<Car, Error>(self@.cars[owner]),
            !self@.cars.contains_key(owner) ==> r == Err::<Car, Error>(Error::CarNotFound),
    {
        match self.cars.get(&owner) {
            Some(c) => Ok(*c),
            None => Err(Error::CarNotFound),
        }
    }

    pub fn read_rental(&self, renter: u64, owner: u64) -> (r: Result<Rental, Error>)
        ensures
            self@.rentals.contains_key((renter, owner)) ==> r == Ok::<Rental, Error>(
                self@.rentals[(renter, owner)],
            ),
            !self@.rentals.contains_key((renter, owner)) ==> r == Err::<Rental, Error>(
                Error::RentalNotFound,
            ),
    {
        match self.rentals.get(&pair_key(renter, owner)) {
            Some(rec) => Ok(*rec),
            None => Err(Error::RentalNotFound),
        }
    }
}

} // verus!
