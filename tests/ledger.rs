use car_rental::accounting::{find_funds, rent_cost, same_addr, settlement_payment, RENT_PERIOD};
use car_rental::contract::{
    client_balance, end_rent, init, register_car, register_client, rent_by_id, rent_car,
    start_rent, verify_client,
};
use car_rental::error::ContractError;
use car_rental::msg::ClientBalanceResponse;
use car_rental::state::{Addr, Car, Client, Coin, Config, Rent, TimePeriod};

fn addr(s: &str) -> Addr {
    s.as_bytes().to_vec()
}

fn config() -> Config {
    init("uusd".to_string(), addr("verifier"), addr("manager"))
}

fn coins(list: &[(&str, u128)]) -> Vec<Coin> {
    list.iter()
        .map(|(d, a)| Coin { denom: d.to_string(), amount: *a })
        .collect()
}

fn car(rent_price: u128, deposit_price: u128) -> Car {
    register_car(&config(), &addr("manager"), &None, addr("car"), "Car".to_string(), rent_price, deposit_price)
        .unwrap()
}

fn client(balance: u128, verified: bool) -> Client {
    Client { id: addr("client"), name: "Kc".to_string(), verified, balance, locked_balance: 0 }
}

fn rent(balance: u128, start: u64, end: u64) -> Rent {
    Rent {
        client_id: addr("client"),
        car_id: addr("car"),
        balance,
        usage: TimePeriod { start, end },
        actual_start: 0,
    }
}

#[test]
fn full_rental_scenario() {
    let mut cfg = config();
    assert_eq!(cfg.rent_count, 0);
    let c = register_car(&cfg, &addr("manager"), &None, addr("car"), "C".to_string(), 100, 50).unwrap();
    assert_eq!(c.balance, 0);
    assert!(c.usage_periods.is_empty());
    let k = register_client(&cfg, addr("client"), &None, "Kc".to_string(), &coins(&[("uusd", 1000)]))
        .unwrap();
    assert_eq!(k.balance, 1000);
    assert_eq!(k.locked_balance, 0);
    assert!(!k.verified);
    let k = verify_client(&cfg, &addr("verifier"), Some(k)).unwrap();
    assert!(k.verified);
    let u = rent_car(cfg, addr("client"), addr("car"), &Some(c.clone()), Some(k), 0, 120).unwrap();
    cfg = u.config;
    assert_eq!(cfg.rent_count, 1);
    assert_eq!(u.rent_id, 1);
    assert_eq!(u.client.balance, 750);
    assert_eq!(u.client.locked_balance, 250);
    assert_eq!(u.rent.balance, 250);
    assert_eq!(u.rent.usage, TimePeriod { start: 0, end: 120 });
    assert_eq!(u.rent.actual_start, 0);
    let r = start_rent(&addr("car"), Some(u.rent), 10).unwrap();
    assert_eq!(r.actual_start, 10);
    let s = end_rent(Some(r), Some(c), Some(u.client), 120).unwrap();
    assert_eq!(s.payment, 200);
    assert_eq!(s.car.balance, 200);
    assert_eq!(s.client.balance, 800);
    assert_eq!(s.client.locked_balance, 0);
    assert_eq!(s.rent.balance, 0);
    assert_eq!(s.rent.actual_start, 10);
    assert_eq!(s.client.balance + s.client.locked_balance, 1000 - s.car.balance);
    let b = client_balance(&Some(s.client)).unwrap();
    assert_eq!(b, ClientBalanceResponse { balance: 800, locked_balance: 0 });
    let q = rent_by_id(Some(s.rent)).unwrap();
    assert_eq!(q.client, addr("client"));
    assert_eq!(q.car, addr("car"));
    assert_eq!((q.balance, q.usage_start, q.usage_end, q.actual_start), (0, 0, 120, 10));
}

#[test]
fn register_car_requires_manager() {
    let r = register_car(&config(), &addr("verifier"), &None, addr("car"), "C".to_string(), 1, 1);
    assert!(matches!(r, Err(ContractError::Unauthorized {})));
}

#[test]
fn verify_client_requires_verificator() {
    let r = verify_client(&config(), &addr("manager"), Some(client(10, false)));
    assert!(matches!(r, Err(ContractError::Unauthorized {})));
}

#[test]
fn verify_client_missing() {
    let r = verify_client(&config(), &addr("verifier"), None);
    assert!(matches!(r, Err(ContractError::ClientNotExist {})));
}

#[test]
fn car_registers_once() {
    let first = car(100, 50);
    let r = register_car(&config(), &addr("manager"), &Some(first.clone()), addr("car"), "D".to_string(), 7, 8);
    assert!(matches!(r, Err(ContractError::CarExist {})));
    assert_eq!(first.name, "Car");
    assert_eq!((first.rent_price, first.deposit_price), (100, 50));
}

#[test]
fn client_registers_once() {
    let first = client(1000, false);
    let r = register_client(&config(), addr("client"), &Some(client(1000, false)), "X".to_string(), &coins(&[("uusd", 5)]));
    assert!(matches!(r, Err(ContractError::ClientExist {})));
    assert_eq!(first.balance, 1000);
}

#[test]
fn register_client_without_denom_funds() {
    let r = register_client(&config(), addr("client"), &None, "Kc".to_string(), &coins(&[("uatom", 5)]));
    assert!(matches!(r, Err(ContractError::NoFunds {})));
    let r = register_client(&config(), addr("client"), &None, "Kc".to_string(), &Vec::new());
    assert!(matches!(r, Err(ContractError::NoFunds {})));
}

#[test]
fn register_client_takes_first_matching_coin() {
    let k = register_client(
        &config(),
        addr("client"),
        &None,
        "Kc".to_string(),
        &coins(&[("uatom", 5), ("uusd", 300), ("uusd", 7)]),
    )
    .unwrap();
    assert_eq!(k.balance, 300);
    assert_eq!(k.id, addr("client"));
    assert_eq!(find_funds(&coins(&[("a", 1), ("b", 2)]), &"b".to_string()), Some(2));
    assert_eq!(find_funds(&coins(&[("a", 1)]), &"b".to_string()), None);
}

#[test]
fn verification_gates_renting() {
    let c = car(100, 50);
    let r = rent_car(config(), addr("client"), addr("car"), &Some(c.clone()), Some(client(1000, false)), 0, 120);
    assert!(matches!(r, Err(ContractError::ClientNotVerified {})));
    let k = verify_client(&config(), &addr("verifier"), Some(client(1000, false))).unwrap();
    let r = rent_car(config(), addr("client"), addr("car"), &Some(c), Some(k), 0, 120);
    assert!(r.is_ok());
}

#[test]
fn rent_car_errors() {
    let c = car(100, 50);
    let r = rent_car(config(), addr("client"), addr("car"), &None, Some(client(1000, true)), 0, 120);
    assert!(matches!(r, Err(ContractError::CarNotExist {})));
    let r = rent_car(config(), addr("client"), addr("car"), &Some(c.clone()), None, 0, 120);
    assert!(matches!(r, Err(ContractError::ClientNotExist {})));
    let r = rent_car(config(), addr("client"), addr("car"), &Some(c.clone()), Some(client(1000, true)), 120, 0);
    assert!(matches!(r, Err(ContractError::InvalidPeriod {})));
    let r = rent_car(config(), addr("client"), addr("car"), &Some(c.clone()), Some(client(249, true)), 0, 120);
    assert!(matches!(r, Err(ContractError::InsufficientFunds {})));
    let r = rent_car(config(), addr("client"), addr("car"), &Some(c), Some(client(250, true)), 0, 120);
    assert_eq!(r.unwrap().client.balance, 0);
}

#[test]
fn rent_car_counter_full() {
    let mut cfg = config();
    cfg.rent_count = u64::MAX;
    let r = rent_car(cfg, addr("client"), addr("car"), &Some(car(1, 1)), Some(client(1000, true)), 0, 0);
    assert!(matches!(r, Err(ContractError::Overflow {})));
}

#[test]
fn rent_cost_formula() {
    assert_eq!(RENT_PERIOD, 60);
    let c = car(100, 50);
    assert_eq!(rent_cost(&c, 0, 120).unwrap(), 250);
    assert_eq!(rent_cost(&c, 0, 59).unwrap(), 50);
    assert_eq!(rent_cost(&c, 10, 10).unwrap(), 50);
    assert_eq!(rent_cost(&c, 30, 179).unwrap(), 50 + 100 * 2);
    assert_eq!(rent_cost(&c, 30, 89).unwrap(), 50);
    assert!(matches!(rent_cost(&c, 5, 4), Err(ContractError::InvalidPeriod {})));
    let big = car(u128::MAX, 1);
    assert!(matches!(rent_cost(&big, 0, 60), Err(ContractError::Overflow {})));
    let dear = car(0, u128::MAX);
    assert_eq!(rent_cost(&dear, 0, 600).unwrap(), u128::MAX);
}

#[test]
fn settlement_payment_late_and_clamped() {
    let c = car(100, 50);
    assert_eq!(settlement_payment(&rent(250, 0, 120), &c, 120), 200);
    assert_eq!(settlement_payment(&rent(250, 0, 120), &c, 60), 200);
    assert_eq!(settlement_payment(&rent(350, 0, 120), &c, 179), 300);
    // one late period, still within the locked amount
    assert_eq!(settlement_payment(&rent(400, 0, 120), &car(100, 150), 180), 250 + 100);
    // the late fee is capped by what the rent holds
    assert_eq!(settlement_payment(&rent(250, 0, 120), &c, 180), 250);
    assert_eq!(settlement_payment(&rent(250, 0, 120), &car(u128::MAX, 50), 1000), 250);
    // a deposit above the locked amount pays nothing as base
    assert_eq!(settlement_payment(&rent(30, 0, 120), &c, 120), 0);
}

#[test]
fn end_rent_late_fee() {
    let mut k = client(0, true);
    k.locked_balance = 400;
    let s = end_rent(Some(rent(400, 0, 120)), Some(car(100, 50)), Some(k), 200).unwrap();
    // base 350 plus one late period exceeds the 400 locked: capped
    assert_eq!(s.payment, 400);
    assert_eq!(s.car.balance, 400);
    assert_eq!(s.client.balance, 0);
    assert_eq!(s.client.locked_balance, 0);
}

#[test]
fn end_rent_twice() {
    let mut k = client(750, true);
    k.locked_balance = 250;
    let s = end_rent(Some(rent(250, 0, 120)), Some(car(100, 50)), Some(k), 120).unwrap();
    assert_eq!((s.client.balance, s.client.locked_balance), (800, 0));
    let r = end_rent(Some(s.rent), Some(s.car), Some(s.client), 120);
    assert!(matches!(r, Err(ContractError::RentClosed {})));
}

#[test]
fn end_rent_errors() {
    let mut k = client(750, true);
    k.locked_balance = 250;
    let r = end_rent(None, Some(car(100, 50)), Some(client(0, true)), 120);
    assert!(matches!(r, Err(ContractError::RentNotExist {})));
    let r = end_rent(Some(rent(250, 0, 120)), None, Some(client(0, true)), 120);
    assert!(matches!(r, Err(ContractError::CarNotExist {})));
    let r = end_rent(Some(rent(250, 0, 120)), Some(car(100, 50)), None, 120);
    assert!(matches!(r, Err(ContractError::ClientNotExist {})));
    let r = end_rent(Some(rent(250, 0, 120)), Some(car(100, 50)), Some(client(0, true)), 120);
    assert!(matches!(r, Err(ContractError::Overflow {})));
    let mut rich = car(100, 50);
    rich.balance = u128::MAX;
    let r = end_rent(Some(rent(250, 0, 120)), Some(rich), Some(k), 120);
    assert!(matches!(r, Err(ContractError::Overflow {})));
}

#[test]
fn start_rent_checks() {
    let r = start_rent(&addr("car"), None, 10);
    assert!(matches!(r, Err(ContractError::RentNotExist {})));
    let r = start_rent(&addr("client"), Some(rent(250, 0, 120)), 10);
    assert!(matches!(r, Err(ContractError::Unauthorized {})));
    let r = start_rent(&addr("car"), Some(rent(250, 0, 120)), 42).unwrap();
    assert_eq!((r.actual_start, r.balance), (42, 250));
}

#[test]
fn queries_on_missing_records() {
    assert!(matches!(client_balance(&None), Err(ContractError::ClientNotExist {})));
    assert!(matches!(rent_by_id(None), Err(ContractError::RentNotExist {})));
}

#[test]
fn address_comparison() {
    assert!(same_addr(&addr("abc"), &addr("abc")));
    assert!(!same_addr(&addr("abc"), &addr("abd")));
    assert!(!same_addr(&addr("ab"), &addr("abc")));
}
