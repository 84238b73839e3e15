use vstd::prelude::*;
use crate::error::ContractError;
use crate::state::{Addr, Car, Coin, Rent};

verus! {

/// The length of one rent period, in the unit of the timestamps.
pub const RENT_PERIOD: u64 = 60;

/// Whether two canonical addresses are the same account.
pub fn same_addr(a: &Addr, b: &Addr) -> (r: bool)
    ensures
        r == (a@ == b@),
{
    if a.len() != b.len() {
        return false;
    }
    let mut i: usize = 0;
    while i < a.len()
        invariant
            a.len() == b.len(),
            i <= a.len(),
            forall|j: int| 0 <= j < i ==> a@[j] == b@[j],
        decreases a.len() - i,
    {
        if a[i] != b[i] {
            return false;
        }
        i = i + 1;
    }
    assert(a@ =~= b@);
    true
}

/// What a rent over `[start, end]` costs: the deposit plus one price per
/// whole period.
pub open spec fn cost_of(rent_price: int, deposit_price: int, start: int, end: int) -> int {
    deposit_price + rent_price * ((end - start) / (RENT_PERIOD as int))
}

/// The fee for returning a car after the end of its window: one price per
/// whole period past the end.
pub open spec fn late_fee_of(rent_price: int, usage_end: int, date: int) -> int {
    if date > usage_end {
        rent_price * ((date - usage_end) / (RENT_PERIOD as int))
    } else {
        0
    }
}

/// What the car earns when a rent holding `locked` is closed at `date`: the
/// locked amount less the deposit, plus any late fee, never more than what
/// is locked.
pub open spec fn payment_of(
    locked: int,
    deposit_price: int,
    rent_price: int,
    usage_end: int,
    date: int,
) -> int {
    let base = if locked >= deposit_price {
        locked - deposit_price
    } else {
        0
    };
    let due = base + late_fee_of(rent_price, usage_end, date);
    if due <= locked {
        due
    } else {
        locked
    }
}

/// The amount of the first coin of `denom` among `funds`, if there is one.
pub open spec fn amount_in(funds: Seq<Coin>, denom: Seq<char>) -> Option<u128>
    decreases funds.len(),
{
    if funds.len() == 0 {
        None
    } else if funds[0].denom@ == denom {
        Some(funds[0].amount)
    } else {
        amount_in(funds.drop_first(), denom)
    }
}

/// The cost of renting `car` from `start` to `end`.
pub fn rent_cost(car: &Car, start: u64, end: u64) -> (r: Result<u128, ContractError>)
    ensures
        end < start ==> r matches Err(ContractError::InvalidPeriod {}),
        start <= end && cost_of(car.rent_price as int, car.deposit_price as int, start as int, end as int) > u128::MAX
            ==> r matches Err(ContractError::Overflow {}),
        start <= end && cost_of(car.rent_price as int, car.deposit_price as int, start as int, end as int) <= u128::MAX
            ==> r == Ok::<u128, ContractError>(
                cost_of(car.rent_price as int, car.deposit_price as int, start as int, end as int) as u128,
            ),
{
    if end < start {
        return Err(ContractError::InvalidPeriod {});
    }
    let periods: u128 = ((end - start) / RENT_PERIOD) as u128;
    assert(periods as int == (end - start) as int / (RENT_PERIOD as int));
    match car.rent_price.checked_mul(periods) {
        None => {
            assert(car.rent_price as int * periods as int <= car.deposit_price as int + car.rent_price as int * periods as int);
            Err(ContractError::Overflow {})
        },
        Some(price) => match car.deposit_price.checked_add(price) {
            None => Err(ContractError::Overflow {}),
            Some(cost) => Ok(cost),
        },
    }
}

/// What the car earns when `rent` is closed at `date`.
pub fn settlement_payment(rent: &Rent, car: &Car, date: u64) -> (p: u128)
    ensures
        p == payment_of(
            rent.balance as int,
            car.deposit_price as int,
            car.rent_price as int,
            rent.usage.end as int,
            date as int,
        ),
        p <= rent.balance,
{
    let base: u128 = if rent.balance >= car.deposit_price {
        rent.balance - car.deposit_price
    } else {
        0
    };
    if date > rent.usage.end {
        let periods: u128 = ((date - rent.usage.end) / RENT_PERIOD) as u128;
        assert(periods as int == (date - rent.usage.end) as int / (RENT_PERIOD as int));
        match car.rent_price.checked_mul(periods) {
            None => rent.balance,
            Some(fee) => {
                if fee <= rent.balance - base {
                    base + fee
                } else {
                    rent.balance
                }
            },
        }
    } else {
        base
    }
}

/// The amount attached in `denom`, taken from the first coin of that
/// denomination.
pub fn find_funds(funds: &Vec<Coin>, denom: &String) -> (r: Option<u128>)
    ensures
        r == amount_in(funds@, denom@),
{
    let mut i: usize = 0;
    assert(funds@.subrange(0, funds.len() as int) =~= funds@);
    while i < funds.len()
        invariant
            i <= funds.len(),
            amount_in(funds@, denom@) == amount_in(funds@.subrange(i as int, funds.len() as int), denom@),
        decreases funds.len() - i,
    {
        let rest = Ghost(funds@.subrange(i as int, funds.len() as int));
        assert(rest@[0] == funds@[i as int]);
        if funds[i].denom == *denom {
            return Some(funds[i].amount);
        }
        assert(rest@.drop_first() =~= funds@.subrange(i + 1, funds.len() as int));
        i = i + 1;
    }
    assert(funds@.subrange(i as int, funds.len() as int).len() == 0);
    None
}

} // verus!
