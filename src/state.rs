use vstd::prelude::*;

verus! {

/// A canonical address: the host's fixed-form byte encoding of an account.
pub type Addr = Vec<u8>;

/// The singleton configuration record.
#[derive(Clone, Debug, PartialEq, Eq)]
pub struct Config {
    /// The currency unit accepted for deposits.
    pub denom: String,
    /// The address allowed to mark clients as verified.
    pub kyc_verificator: Addr,
    /// The address allowed to register cars.
    pub manager: Addr,
    /// The number of rents created so far; the next rent id is one more.
    pub rent_count: u64,
}

#[derive(Clone, Copy, Debug, PartialEq, Eq, Structural)]
pub struct TimePeriod {
    pub start: u64,
    pub end: u64,
}

#[derive(Clone, Debug, PartialEq, Eq)]
pub struct Car {
    pub id: Addr,
    pub name: String,
    /// Price of one rent period.
    pub rent_price: u128,
    /// Refundable deposit taken with every rent.
    pub deposit_price: u128,
    pub usage_periods: Vec<TimePeriod>,
    /// Earnings accumulated by settled rents.
    pub balance: u128,
}

#[derive(Clone, Debug, PartialEq, Eq)]
pub struct Client {
    pub id: Addr,
    pub name: String,
    pub verified: bool,
    /// Spendable funds.
    pub balance: u128,
    /// Funds committed to open rents.
    pub locked_balance: u128,
}

#[derive(Clone, Debug, PartialEq, Eq)]
pub struct Rent {
    pub client_id: Addr,
    pub car_id: Addr,
    /// Funds locked against this rent; zero once it is closed.
    pub balance: u128,
    pub usage: TimePeriod,
    /// Zero until the car starts the rent.
    pub actual_start: u64,
}

/// An amount of one currency attached to a call.
#[derive(Clone, Debug, PartialEq, Eq)]
pub struct Coin {
    pub denom: String,
    pub amount: u128,
}

} // verus!
