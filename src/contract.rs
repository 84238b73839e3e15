use vstd::prelude::*;
use crate::accounting::{
    amount_in, cost_of, find_funds, payment_of, rent_cost, same_addr, settlement_payment,
};
use crate::error::ContractError;
use crate::msg::{ClientBalanceResponse, RentResponse};
use crate::state::{Addr, Car, Client, Coin, Config, Rent, TimePeriod};

verus! {

/// The records a successful rent-car operation writes.
pub struct RentCarUpdate {
    /// The configuration with its rent counter advanced.
    pub config: Config,
    /// The renting client, with the cost moved from spendable to locked.
    pub client: Client,
    /// The new rent.
    pub rent: Rent,
    /// The id under which the new rent is stored.
    pub rent_id: u64,
}

/// The records a successful end-rent operation writes.
pub struct Settlement {
    /// The rent, now closed.
    pub rent: Rent,
    /// The car, credited with the payment.
    pub car: Car,
    /// The client, with the rent's funds released.
    pub client: Client,
    /// What the car earned.
    pub payment: u128,
}

/// The configuration created at initialization.
pub fn init(denom: String, kyc_verificator: Addr, manager: Addr) -> (c: Config)
    ensures
        c.denom == denom,
        c.kyc_verificator == kyc_verificator,
        c.manager == manager,
        c.rent_count == 0,
{
    Config { denom, kyc_verificator, manager, rent_count: 0 }
}

/// What registering a car gives, from the configuration, the caller, and the
/// car already stored under the new car's address.
pub open spec fn register_car_outcome(
    config: Config,
    sender: Seq<u8>,
    stored: Option<Car>,
    id: Addr,
    name: String,
    rent_price: u128,
    deposit_price: u128,
    r: Result<Car, ContractError>,
) -> bool {
    if sender != config.manager@ {
        r matches Err(ContractError::Unauthorized {})
    } else if stored is Some {
        r matches Err(ContractError::CarExist {})
    } else {
        &&& r is Ok
        &&& r->Ok_0.id == id
        &&& r->Ok_0.name == name
        &&& r->Ok_0.rent_price == rent_price
        &&& r->Ok_0.deposit_price == deposit_price
        &&& r->Ok_0.usage_periods@.len() == 0
        &&& r->Ok_0.balance == 0
    }
}

/// Registers a car; only the manager may do so, and only once per address.
pub fn register_car(
    config: &Config,
    sender: &Addr,
    stored: &Option<Car>,
    id: Addr,
    name: String,
    rent_price: u128,
    deposit_price: u128,
) -> (r: Result<Car, ContractError>)
    ensures
        register_car_outcome(*config, sender@, *stored, id, name, rent_price, deposit_price, r),
{
    if !same_addr(sender, &config.manager) {
        return Err(ContractError::Unauthorized {});
    }
    if stored.is_some() {
        return Err(ContractError::CarExist {});
    }
    Ok(Car { id, name, rent_price, deposit_price, usage_periods: Vec::new(), balance: 0 })
}

/// What a client's self-registration gives, from the configuration, the
/// caller, the client already stored under the caller's address, and the
/// funds attached to the call.
pub open spec fn register_client_outcome(
    config: Config,
    sender: Addr,
    stored: Option<Client>,
    name: String,
    sent_funds: Seq<Coin>,
    r: Result<Client, ContractError>,
) -> bool {
    if stored is Some {
        r matches Err(ContractError::ClientExist {})
    } else if amount_in(sent_funds, config.denom@) is None {
        r matches Err(ContractError::NoFunds {})
    } else {
        &&& r is Ok
        &&& r->Ok_0.id == sender
        &&& r->Ok_0.name == name
        &&& !r->Ok_0.verified
        &&& r->Ok_0.balance == amount_in(sent_funds, config.denom@)->Some_0
        &&& r->Ok_0.locked_balance == 0
    }
}

/// Registers the caller as an unverified client whose balance is what it
/// attached in the configured denomination.
pub fn register_client(
    config: &Config,
    sender: Addr,
    stored: &Option<Client>,
    name: String,
    sent_funds: &Vec<Coin>,
) -> (r: Result<Client, ContractError>)
    ensures
        register_client_outcome(*config, sender, *stored, name, sent_funds@, r),
{
    if stored.is_some() {
        return Err(ContractError::ClientExist {});
    }
    match find_funds(sent_funds, &config.denom) {
        None => Err(ContractError::NoFunds {}),
        Some(amount) => Ok(
            Client { id: sender, name, verified: false, balance: amount, locked_balance: 0 },
        ),
    }
}

/// What verifying a client gives, from the configuration, the caller, and
/// the client stored under the given address.
pub open spec fn verify_client_outcome(
    config: Config,
    sender: Seq<u8>,
    stored: Option<Client>,
    r: Result<Client, ContractError>,
) -> bool {
    if sender != config.kyc_verificator@ {
        r matches Err(ContractError::Unauthorized {})
    } else if stored is None {
        r matches Err(ContractError::ClientNotExist {})
    } else {
        &&& r is Ok
        &&& r->Ok_0.id == stored->Some_0.id
        &&& r->Ok_0.name == stored->Some_0.name
        &&& r->Ok_0.verified
        &&& r->Ok_0.balance == stored->Some_0.balance
        &&& r->Ok_0.locked_balance == stored->Some_0.locked_balance
    }
}

/// Marks a client as verified; only the KYC verificator may do so.
pub fn verify_client(config: &Config, sender: &Addr, stored: Option<Client>) -> (r: Result<
    Client,
    ContractError,
>)
    ensures
        verify_client_outcome(*config, sender@, stored, r),
{
    if !same_addr(sender, &config.kyc_verificator) {
        return Err(ContractError::Unauthorized {});
    }
    match stored {
        None => Err(ContractError::ClientNotExist {}),
        Some(mut client) => {
            client.verified = true;
            Ok(client)
        },
    }
}

/// What renting a car gives, from the configuration, the caller, the car's
/// address, the car stored there, the client stored under the caller's
/// address, and the requested window.
pub open spec fn rent_car_outcome(
    config: Config,
    sender: Addr,
    car_id: Addr,
    car: Option<Car>,
    client: Option<Client>,
    start: u64,
    end: u64,
    r: Result<RentCarUpdate, ContractError>,
) -> bool {
    let cost = cost_of(
        car->Some_0.rent_price as int,
        car->Some_0.deposit_price as int,
        start as int,
        end as int,
    );
    let c = client->Some_0;
    if car is None {
        r matches Err(ContractError::CarNotExist {})
    } else if client is None {
        r matches Err(ContractError::ClientNotExist {})
    } else if !c.verified {
        r matches Err(ContractError::ClientNotVerified {})
    } else if end < start {
        r matches Err(ContractError::InvalidPeriod {})
    } else if cost > u128::MAX {
        r matches Err(ContractError::Overflow {})
    } else if c.balance < cost {
        r matches Err(ContractError::InsufficientFunds {})
    } else if c.locked_balance + cost > u128::MAX || config.rent_count == u64::MAX {
        r matches Err(ContractError::Overflow {})
    } else {
        &&& r is Ok
        &&& r->Ok_0.rent_id == config.rent_count + 1
        &&& r->Ok_0.config.denom == config.denom
        &&& r->Ok_0.config.kyc_verificator == config.kyc_verificator
        &&& r->Ok_0.config.manager == config.manager
        &&& r->Ok_0.config.rent_count == config.rent_count + 1
        &&& r->Ok_0.client.id == c.id
        &&& r->Ok_0.client.name == c.name
        &&& r->Ok_0.client.verified == c.verified
        &&& r->Ok_0.client.balance == c.balance - cost
        &&& r->Ok_0.client.locked_balance == c.locked_balance + cost
        &&& r->Ok_0.rent.client_id == sender
        &&& r->Ok_0.rent.car_id == car_id
        &&& r->Ok_0.rent.balance == cost
        &&& r->Ok_0.rent.usage == (TimePeriod { start, end })
        &&& r->Ok_0.rent.actual_start == 0
    }
}

/// Rents a car for a verified client: locks the rent's cost from the
/// client's spendable balance and creates the rent under the next id.
pub fn rent_car(
    config: Config,
    sender: Addr,
    car_id: Addr,
    car: &Option<Car>,
    client: Option<Client>,
    start: u64,
    end: u64,
) -> (r: Result<RentCarUpdate, ContractError>)
    ensures
        rent_car_outcome(config, sender, car_id, *car, client, start, end, r),
{
    let car = match car {
        Some(car) => car,
        None => return Err(ContractError::CarNotExist {}),
    };
    let mut client = match client {
        Some(client) => client,
        None => return Err(ContractError::ClientNotExist {}),
    };
    if !client.verified {
        return Err(ContractError::ClientNotVerified {});
    }
    let cost = match rent_cost(car, start, end) {
        Ok(cost) => cost,
        Err(e) => return Err(e),
    };
    if client.balance < cost {
        return Err(ContractError::InsufficientFunds {});
    }
    if client.locked_balance > u128::MAX - cost || config.rent_count == u64::MAX {
        return Err(ContractError::Overflow {});
    }
    client.balance = client.balance - cost;
    client.locked_balance = client.locked_balance + cost;
    let rent_id = config.rent_count + 1;
    let mut config = config;
    config.rent_count = rent_id;
    let rent = Rent {
        client_id: sender,
        car_id,
        balance: cost,
        usage: TimePeriod { start, end },
        actual_start: 0,
    };
    Ok(RentCarUpdate { config, client, rent, rent_id })
}

/// Starts a rent; only the rented car may do so.
pub fn start_rent(sender: &Addr, stored: Option<Rent>, date: u64) -> (r: Result<Rent, ContractError>)
    ensures
        stored is None ==> r matches Err(ContractError::RentNotExist {}),
        stored is Some && sender@ != stored->Some_0.car_id@ ==> r matches Err(
            ContractError::Unauthorized {},
        ),
        stored is Some && sender@ == stored->Some_0.car_id@ ==> {
            &&& r is Ok
            &&& r->Ok_0.client_id == stored->Some_0.client_id
            &&& r->Ok_0.car_id == stored->Some_0.car_id
            &&& r->Ok_0.balance == stored->Some_0.balance
            &&& r->Ok_0.usage == stored->Some_0.usage
            &&& r->Ok_0.actual_start == date
        },
{
    match stored {
        None => Err(ContractError::RentNotExist {}),
        Some(mut rent) => {
            if !same_addr(sender, &rent.car_id) {
                return Err(ContractError::Unauthorized {});
            }
            rent.actual_start = date;
            Ok(rent)
        },
    }
}

/// What ending a rent at `date` gives, from the rent, the car and the client
/// it refers to.
pub open spec fn end_rent_outcome(
    rent: Option<Rent>,
    car: Option<Car>,
    client: Option<Client>,
    date: u64,
    r: Result<Settlement, ContractError>,
) -> bool {
    let t = rent->Some_0;
    let k = car->Some_0;
    let c = client->Some_0;
    let p = payment_of(
        t.balance as int,
        k.deposit_price as int,
        k.rent_price as int,
        t.usage.end as int,
        date as int,
    );
    if rent is None {
        r matches Err(ContractError::RentNotExist {})
    } else if t.balance == 0 {
        r matches Err(ContractError::RentClosed {})
    } else if car is None {
        r matches Err(ContractError::CarNotExist {})
    } else if client is None {
        r matches Err(ContractError::ClientNotExist {})
    } else if k.balance + p > u128::MAX || c.locked_balance < t.balance || c.balance + (t.balance
        - p) > u128::MAX {
        r matches Err(ContractError::Overflow {})
    } else {
        &&& r is Ok
        &&& r->Ok_0.payment == p
        &&& r->Ok_0.rent.client_id == t.client_id
        &&& r->Ok_0.rent.car_id == t.car_id
        &&& r->Ok_0.rent.balance == 0
        &&& r->Ok_0.rent.usage == t.usage
        &&& r->Ok_0.rent.actual_start == t.actual_start
        &&& r->Ok_0.car.id == k.id
        &&& r->Ok_0.car.name == k.name
        &&& r->Ok_0.car.rent_price == k.rent_price
        &&& r->Ok_0.car.deposit_price == k.deposit_price
        &&& r->Ok_0.car.usage_periods == k.usage_periods
        &&& r->Ok_0.car.balance == k.balance + p
        &&& r->Ok_0.client.id == c.id
        &&& r->Ok_0.client.name == c.name
        &&& r->Ok_0.client.verified == c.verified
        &&& r->Ok_0.client.balance == c.balance + (t.balance - p)
        &&& r->Ok_0.client.locked_balance == c.locked_balance - t.balance
    }
}

/// Closes an open rent: pays the car, releases the locked funds, and refunds
/// the rest to the client's spendable balance.
pub fn end_rent(rent: Option<Rent>, car: Option<Car>, client: Option<Client>, date: u64) -> (r:
    Result<Settlement, ContractError>)
    ensures
        end_rent_outcome(rent, car, client, date, r),
{
    let mut rent = match rent {
        Some(rent) => rent,
        None => return Err(ContractError::RentNotExist {}),
    };
    if rent.balance == 0 {
        return Err(ContractError::RentClosed {});
    }
    let mut car = match car {
        Some(car) => car,
        None => return Err(ContractError::CarNotExist {}),
    };
    let mut client = match client {
        Some(client) => client,
        None => return Err(ContractError::ClientNotExist {}),
    };
    let payment = settlement_payment(&rent, &car, date);
    let refund = rent.balance - payment;
    if car.balance > u128::MAX - payment || client.locked_balance < rent.balance
        || client.balance > u128::MAX - refund {
        return Err(ContractError::Overflow {});
    }
    car.balance = car.balance + payment;
    client.locked_balance = client.locked_balance - rent.balance;
    client.balance = client.balance + refund;
    rent.balance = 0;
    Ok(Settlement { rent, car, client, payment })
}

/// The balances of a client.
pub fn client_balance(stored: &Option<Client>) -> (r: Result<ClientBalanceResponse, ContractError>)
    ensures
        stored is None ==> r matches Err(ContractError::ClientNotExist {}),
        stored is Some ==> r == Ok::<ClientBalanceResponse, ContractError>(
            ClientBalanceResponse {
                balance: stored->Some_0.balance,
                locked_balance: stored->Some_0.locked_balance,
            },
        ),
{
    match stored {
        None => Err(ContractError::ClientNotExist {}),
        Some(client) => Ok(
            ClientBalanceResponse {
                balance: client.balance,
                locked_balance: client.locked_balance,
            },
        ),
    }
}

/// A rent as the query side reports it.
pub fn rent_by_id(stored: Option<Rent>) -> (r: Result<RentResponse, ContractError>)
    ensures
        stored is None ==> r matches Err(ContractError::RentNotExist {}),
        stored is Some ==> {
            &&& r is Ok
            &&& r->Ok_0.client == stored->Some_0.client_id
            &&& r->Ok_0.car == stored->Some_0.car_id
            &&& r->Ok_0.balance == stored->Some_0.balance
            &&& r->Ok_0.usage_start == stored->Some_0.usage.start
            &&& r->Ok_0.usage_end == stored->Some_0.usage.end
            &&& r->Ok_0.actual_start == stored->Some_0.actual_start
        },
{
    match stored {
        None => Err(ContractError::RentNotExist {}),
        Some(rent) => Ok(
            RentResponse {
                client: rent.client_id,
                car: rent.car_id,
                balance: rent.balance,
                usage_start: rent.usage.start,
                usage_end: rent.usage.end,
                actual_start: rent.actual_start,
            },
        ),
    }
}

} // verus!
