use std_reference::{AccountId, Error, ReferenceData, StandardReference, E9, USD};

fn setup(admin: AccountId, relayers: &Vec<AccountId>) -> StandardReference {
    let mut std_ref = StandardReference::new(admin);
    let _ = std_ref.add_relayers(&admin, relayers.clone());
    std_ref
}

#[test]
fn test_init() {
    let admin = AccountId::from([0x01; 32]);
    let std_ref = StandardReference::new(admin);
    assert_eq!(std_ref.current_admin(), admin);
}

#[test]
fn test_transfer_admin() {
    let admin = AccountId::from([0x01; 32]);
    let new_admin = AccountId::from([0x02; 32]);
    let relayer = AccountId::from([0x03; 32]);

    let mut std_ref = StandardReference::new(admin);
    let _ = std_ref.add_relayers(&admin, vec![relayer]);

    // Transfer admin role successfully
    let result = std_ref.transfer_admin(&admin, new_admin);
    assert_eq!(result, Ok(()));
    assert_eq!(std_ref.current_admin(), new_admin);
}

#[test]
fn test_add_relayers() {
    let admin = AccountId::from([0x01; 32]);
    let mut std_ref = StandardReference::new(admin);
    let relayers = vec![
        AccountId::from([0x02; 32]),
        AccountId::from([0x03; 32]),
        AccountId::from([0x04; 32]),
    ];
    assert_eq!(std_ref.add_relayers(&admin, relayers.clone()), Ok(()));
    for relayer in relayers.clone() {
        assert!(std_ref.is_relayer(relayer));
    }
}

#[test]
fn test_remove_relayers() {
    let admin = AccountId::from([0x01; 32]);
    let relayers = vec![
        AccountId::from([0x02; 32]),
        AccountId::from([0x03; 32]),
        AccountId::from([0x04; 32]),
    ];

    let mut std_ref = setup(admin, &relayers);

    assert_eq!(std_ref.remove_relayers(&admin, relayers.clone()), Ok(()));
    for relayer in relayers.clone() {
        assert!(!std_ref.is_relayer(relayer));
    }
}

#[test]
fn test_relay_success() {
    let relay_admin = AccountId::from([0x01; 32]);
    let mut std_ref = StandardReference::new(relay_admin);

    let symbol_rates = vec![
        ("BTC".to_string(), E9),
        ("ETH".to_string(), 2 * E9),
        ("BAND".to_string(), 3 * E9),
    ];

    let resolve_time = 1;
    let request_id = 1;

    let res = std_ref.relay(&relay_admin, symbol_rates.clone(), resolve_time, request_id);
    assert_eq!(res, Ok(()));

    // check if the rates are updated
    let symbol_pairs: Vec<(String, String)> = symbol_rates
        .iter()
        .map(|(s, _)| (s.clone(), USD.to_string()))
        .collect();
    let rd = std_ref.get_reference_data_bulk(symbol_pairs, 0);

    for ((_, o), r) in symbol_rates.iter().zip(rd) {
        assert_eq!((o * E9) as u128, r.unwrap().rate);
    }
}

#[test]
fn test_force_relay_success() {
    let admin = AccountId::from([0x01; 32]);
    let relayer = AccountId::from([0x02; 32]);

    let mut std_ref = StandardReference::new(admin);
    let _ = std_ref.add_relayers(&admin, vec![relayer]);

    // Force relay successfully
    let result = std_ref.force_relay(&admin, vec![("BTC".to_string(), E9)], 1, 1);
    assert_eq!(result, Ok(()));

    // Check if the rate is updated
    let r: Result<ReferenceData, Error> =
        std_ref.get_reference_data(("BTC".to_string(), "USD".to_string()), 0);

    assert_eq!((E9 * E9) as u128, r.unwrap().rate);
}

#[test]
fn test_successful_relay_overwrite() {
    let relay_admin = AccountId::from([0x01; 32]);
    let mut std_ref = StandardReference::new(relay_admin);

    let symbol_rates = vec![
        ("BTC".to_string(), E9),
        ("ETH".to_string(), 2 * E9),
        ("BAND".to_string(), 3 * E9),
    ];

    let res = std_ref.relay(&relay_admin, symbol_rates.clone(), 1, 1);
    assert_eq!(res, Ok(()));

    let symbol_rates = vec![
        ("BTC".to_string(), 2 * E9),
        ("ETH".to_string(), 4 * E9),
        ("BAND".to_string(), 8 * E9),
    ];

    let res = std_ref.relay(&relay_admin, symbol_rates.clone(), 2, 2);
    assert_eq!(res, Ok(()));

    // check if the rates are updated
    let symbol_pairs: Vec<(String, String)> = symbol_rates
        .iter()
        .map(|(s, _)| (s.clone(), USD.to_string()))
        .collect();
    let rd = std_ref.get_reference_data_bulk(symbol_pairs, 0);

    for ((_, o), r) in symbol_rates.iter().zip(rd) {
        assert_eq!((o * E9) as u128, r.unwrap().rate);
    }
}

#[test]
fn test_stale_relay() {
    let relay_admin = AccountId::from([0x01; 32]);
    let mut std_ref = StandardReference::new(relay_admin);

    let symbol_rates = vec![
        ("BTC".to_string(), E9),
        ("ETH".to_string(), 2 * E9),
        ("BAND".to_string(), 3 * E9),
    ];

    let res = std_ref.relay(&relay_admin, symbol_rates.clone(), 5, 5);
    assert_eq!(res, Ok(()));

    let stale_symbol_rates = vec![
        ("BTC".to_string(), 2 * E9),
        ("ETH".to_string(), 4 * E9),
        ("BAND".to_string(), 8 * E9),
    ];

    let res = std_ref.relay(&relay_admin, stale_symbol_rates.clone(), 2, 2);
    assert_eq!(res, Ok(()));

    // check if the rates are updated
    let symbol_pairs: Vec<(String, String)> = symbol_rates
        .iter()
        .map(|(s, _)| (s.clone(), String::from(USD)))
        .collect();
    let rd = std_ref.get_reference_data_bulk(symbol_pairs, 0);

    for ((_, o), r) in symbol_rates.iter().zip(rd) {
        assert_eq!((o * E9) as u128, r.unwrap().rate);
    }
}
