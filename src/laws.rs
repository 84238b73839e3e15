//! Properties that relate several operations of the ledger.
use vstd::prelude::*;
use crate::accounting::{cost_of, late_fee_of, payment_of, RENT_PERIOD};
use crate::contract::{
    end_rent_outcome, register_car_outcome, register_client_outcome, rent_car_outcome,
    verify_client_outcome, RentCarUpdate, Settlement,
};
use crate::error::ContractError;
use crate::state::{Addr, Car, Client, Coin, Config, Rent};

verus! {

/// The payment for closing a rent never exceeds what the rent holds.
pub proof fn lemma_payment_within_locked(
    locked: u128,
    deposit_price: u128,
    rent_price: u128,
    usage_end: u64,
    date: u64,
)
    ensures
        0 <= payment_of(locked as int, deposit_price as int, rent_price as int, usage_end as int, date as int),
        payment_of(locked as int, deposit_price as int, rent_price as int, usage_end as int, date as int) <= locked,
{
    if date > usage_end {
        let q = (date - usage_end) as int / (RENT_PERIOD as int);
        assert(rent_price as int * q >= 0) by (nonlinear_arith)
            requires rent_price >= 0, q >= 0;
    }
    assert(late_fee_of(rent_price as int, usage_end as int, date as int) >= 0);
}

/// Renting a car moves the cost from the client's spendable balance to its
/// locked balance: their sum is unchanged.
pub proof fn lemma_rent_car_keeps_total(
    config: Config,
    sender: Addr,
    car_id: Addr,
    car: Option<Car>,
    client: Client,
    start: u64,
    end: u64,
    rented: RentCarUpdate,
)
    requires
        rent_car_outcome(config, sender, car_id, car, Some(client), start, end, Ok(rented)),
    ensures
        rented.client.balance + rented.client.locked_balance == client.balance
            + client.locked_balance,
        rented.rent.balance == rented.client.locked_balance - client.locked_balance,
{
}

/// Closing a rent lowers the client's spendable plus locked balance by
/// exactly what the car is paid, and raises the car's balance by the same
/// amount.
pub proof fn lemma_end_rent_moves_payment(
    rent: Rent,
    car: Car,
    client: Client,
    date: u64,
    settled: Settlement,
)
    requires
        end_rent_outcome(Some(rent), Some(car), Some(client), date, Ok(settled)),
    ensures
        settled.client.balance + settled.client.locked_balance == client.balance
            + client.locked_balance - settled.payment,
        settled.car.balance == car.balance + settled.payment,
        settled.payment <= rent.balance,
{
    lemma_payment_within_locked(rent.balance, car.deposit_price, car.rent_price, rent.usage.end, date);
}

/// Conservation: after renting a car and closing that rent, the client's
/// spendable plus locked balance equals its value before the rent, less the
/// net amount paid to the car; the car gains exactly that amount.
pub proof fn lemma_rent_then_end_conserves_funds(
    config: Config,
    sender: Addr,
    car_id: Addr,
    car: Car,
    client: Client,
    start: u64,
    end: u64,
    date: u64,
    rented: RentCarUpdate,
    settled: Settlement,
)
    requires
        rent_car_outcome(config, sender, car_id, Some(car), Some(client), start, end, Ok(rented)),
        end_rent_outcome(Some(rented.rent), Some(car), Some(rented.client), date, Ok(settled)),
    ensures
        settled.client.balance + settled.client.locked_balance == client.balance
            + client.locked_balance - (settled.car.balance - car.balance),
        settled.car.balance - car.balance <= rented.rent.balance,
{
    lemma_rent_car_keeps_total(config, sender, car_id, Some(car), client, start, end, rented);
    lemma_end_rent_moves_payment(rented.rent, car, rented.client, date, settled);
}

/// A car address registers at most once: once a car is stored under it, a
/// second registration fails with `CarExist` and writes nothing, whatever
/// the second call's fields.
pub proof fn lemma_car_registers_once(
    config: Config,
    sender: Seq<u8>,
    id: Addr,
    name: String,
    rent_price: u128,
    deposit_price: u128,
    first: Car,
    other_name: String,
    other_rent_price: u128,
    other_deposit_price: u128,
    second: Result<Car, ContractError>,
)
    requires
        register_car_outcome(config, sender, None, id, name, rent_price, deposit_price, Ok(first)),
        register_car_outcome(
            config,
            sender,
            Some(first),
            id,
            other_name,
            other_rent_price,
            other_deposit_price,
            second,
        ),
    ensures
        second matches Err(ContractError::CarExist {}),
{
}

/// A client address registers at most once: once a client is stored under
/// it, a second registration fails with `ClientExist` and writes nothing.
pub proof fn lemma_client_registers_once(
    config: Config,
    sender: Addr,
    name: String,
    sent_funds: Seq<Coin>,
    first: Client,
    other_name: String,
    other_funds: Seq<Coin>,
    second: Result<Client, ContractError>,
)
    requires
        register_client_outcome(config, sender, None, name, sent_funds, Ok(first)),
        register_client_outcome(config, sender, Some(first), other_name, other_funds, second),
    ensures
        second matches Err(ContractError::ClientExist {}),
{
}

/// Verification gates renting: an unverified client with enough funds is
/// refused with `ClientNotVerified`, and the same request succeeds once the
/// KYC verificator has verified the client (given a well-formed window and
/// counters with room left).
pub proof fn lemma_verification_gates_renting(
    config: Config,
    verifier: Seq<u8>,
    sender: Addr,
    car_id: Addr,
    car: Car,
    client: Client,
    start: u64,
    end: u64,
    denied: Result<RentCarUpdate, ContractError>,
    verified: Result<Client, ContractError>,
    allowed: Result<RentCarUpdate, ContractError>,
)
    requires
        !client.verified,
        verifier == config.kyc_verificator@,
        start <= end,
        cost_of(car.rent_price as int, car.deposit_price as int, start as int, end as int)
            <= client.balance,
        client.locked_balance + cost_of(
            car.rent_price as int,
            car.deposit_price as int,
            start as int,
            end as int,
        ) <= u128::MAX,
        config.rent_count < u64::MAX,
        rent_car_outcome(config, sender, car_id, Some(car), Some(client), start, end, denied),
        verify_client_outcome(config, verifier, Some(client), verified),
        rent_car_outcome(config, sender, car_id, Some(car), Some(verified->Ok_0), start, end, allowed),
    ensures
        denied matches Err(ContractError::ClientNotVerified {}),
        verified is Ok,
        allowed is Ok,
{
}

/// Closing is idempotent in effect: an open rent with room in the balances
/// closes the first time, and ending the closed rent again fails with
/// `RentClosed`, writing nothing.
pub proof fn lemma_rent_closes_once(
    rent: Rent,
    car: Car,
    client: Client,
    date: u64,
    first: Result<Settlement, ContractError>,
    later_date: u64,
    second: Result<Settlement, ContractError>,
)
    requires
        rent.balance != 0,
        client.locked_balance >= rent.balance,
        car.balance + rent.balance <= u128::MAX,
        client.balance + rent.balance <= u128::MAX,
        end_rent_outcome(Some(rent), Some(car), Some(client), date, first),
        end_rent_outcome(
            Some(first->Ok_0.rent),
            Some(first->Ok_0.car),
            Some(first->Ok_0.client),
            later_date,
            second,
        ),
    ensures
        first is Ok,
        second matches Err(ContractError::RentClosed {}),
{
    lemma_payment_within_locked(rent.balance, car.deposit_price, car.rent_price, rent.usage.end, date);
}

} // verus!
