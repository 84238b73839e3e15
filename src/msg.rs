use vstd::prelude::*;
use crate::state::Addr;

verus! {

#[derive(Clone, Copy, Debug, PartialEq, Eq, Structural)]
pub struct ClientBalanceResponse {
    pub balance: u128,
    pub locked_balance: u128,
}

/// A rent as the query side reports it, with canonical addresses.
#[derive(Clone, Debug, PartialEq, Eq)]
pub struct RentResponse {
    pub client: Addr,
    pub car: Addr,
    pub balance: u128,
    pub usage_start: u64,
    pub usage_end: u64,
    pub actual_start: u64,
}

#[derive(Clone, Copy, Debug, PartialEq, Eq, Structural)]
pub struct RentCarResponse {
    pub rent_id: u64,
}

} // verus!
