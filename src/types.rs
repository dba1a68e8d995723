use vstd::prelude::*;

verus! {

/// Whether a car can be reserved. A reservation moves it from `Available`
/// to `Rented`; nothing in the ledger moves it back.
#[derive(Clone, Copy, Debug, PartialEq, Eq, Structural)]
pub enum CarStatus {
    Available,
    Rented,
}

/// The record of one owner's car.
#[derive(Clone, Copy, Debug, PartialEq, Eq, Structural)]
pub struct Car {
    /// Informational daily price; never checked against a rental's amount.
    pub price_per_day: i128,
    pub car_status: CarStatus,
    /// The owner's claimable share of custody.
    pub available_to_withdraw: i128,
}

/// The record of the last rental between one renter and one owner.
#[derive(Clone, Copy, Debug, PartialEq, Eq, Structural)]
pub struct Rental {
    pub total_days_to_rent: u32,
    pub amount: i128,
}

/// The token movement that a successful operation asks the host to perform,
/// between the ledger's own custody account and an outside account.
///
/// Accounts (owners, renters, the administrator, the payment token) are
/// opaque `u64` handles throughout the ledger, which only ever compares them.
#[derive(Clone, Copy, Debug, PartialEq, Eq, Structural)]
pub enum Transfer {
    /// Move `amount` from `from` into custody.
    IntoCustody { from: u64, amount: i128 },
    /// Move `amount` out of custody to `to`.
    OutOfCustody { to: u64, amount: i128 },
}

} // verus!
