use core::str::FromStr;
use csv::{ReaderBuilder, StringRecord};
use rust_decimal::Decimal;
use std::collections::HashMap;
use transaction_engine::account::ClientInfo;
use transaction_engine::amount::Amount;
use transaction_engine::engine::TransactionEngine;
use transaction_engine::record::Row;

type ClientId = u16;
type TxId = u32;

// The balances of one client, as decimals.
#[derive(Debug, Clone)]
struct Balances {
    available: Decimal,
    held: Decimal,
    locked: bool,
}

fn to_decimal(amount: Amount) -> Decimal {
    Decimal::from_i128_with_scale(amount.mantissa(), amount.scale())
}

fn to_balances(info: &ClientInfo) -> Balances {
    Balances {
        available: to_decimal(info.available),
        held: to_decimal(info.held),
        locked: info.locked,
    }
}

// Decodes one record; a record with fewer fields than the header has its
// missing fields empty.
fn decode(record: &StringRecord) -> Option<Row> {
    let mut padded = record.clone();
    while padded.len() < 4 {
        padded.push_field("");
    }
    let fields: Result<(String, ClientId, TxId, Option<Decimal>), csv::Error> =
        padded.deserialize(None);
    match fields {
        Ok((op, client, tx, amount)) => Some(Row {
            op,
            client,
            tx,
            amount: amount.map(|d| Amount::new(d.mantissa(), d.scale()).unwrap()),
        }),
        Err(e) => {
            println!("Invalid row: {}", e);
            None
        }
    }
}

fn test_clients(input: &str) -> HashMap<ClientId, Balances> {
    let mut reader = ReaderBuilder::new()
        .flexible(true)
        .from_reader(input.as_bytes());
    let mut rows: Vec<Row> = Vec::new();
    for record in reader.records() {
        if let Some(row) = decode(&record.unwrap()) {
            rows.push(row);
        }
    }
    let mut engine = TransactionEngine::new();
    let verdicts = engine.replay(&rows);
    assert_eq!(verdicts.len(), rows.len());
    let clients = engine.clients();
    clients
        .iter()
        .map(|(id, info)| (*id, to_balances(info)))
        .collect()
}

#[test]
fn test_deposit_duplicated() {
    let input = r#"type,client,tx,amount
deposit,1,1,1.0
deposit,1,1,1.0
deposit,2,1,1.0
deposit,3,1,1.0
"#;
    let clients = test_clients(&input);
    assert_eq!(clients.len(), 1);
    let client = clients.get(&1).unwrap();
    assert_eq!(client.available, 1.into());
    assert_eq!(client.locked, false);
}

#[test]
fn test_withdraw() {
    let input = r#"type,client,tx,amount
deposit,1,1,5.0
withdrawal,1,2,7.0
withdrawal,1,3,5.1
withdrawal,1,4,5.5
"#;
    let clients = test_clients(&input);
    assert_eq!(clients.len(), 1);
    let client = clients.get(&1).unwrap();
    assert_eq!(client.available, 5.into());
    assert_eq!(client.locked, false);
}

#[test]
fn test_dispute_unresolved() {
    let input = r#"type,client,tx,amount
deposit,1,1,5.0
deposit,1,2,3.0
deposit,1,3,4.0
deposit,1,4,1.0
dispute,1,4,
dispute,1,2,
"#;
    let clients = test_clients(&input);
    assert_eq!(clients.len(), 1);
    let client = clients.get(&1).unwrap();
    assert_eq!(client.available, 9.into());
    assert_eq!(client.held, 4.into());
    assert_eq!(client.locked, false);
}

#[test]
fn test_dispute_resolve() {
    let input = r#"type,client,tx,amount
deposit,1,1,5.0
deposit,1,2,3.0
deposit,1,3,4.0
deposit,1,4,1.0
dispute,1,4,
dispute,1,2,
resolve,1,4,
"#;
    let clients = test_clients(&input);
    assert_eq!(clients.len(), 1);
    let client = clients.get(&1).unwrap();
    assert_eq!(client.available, 10.into());
    assert_eq!(client.held, 3.into());
    assert_eq!(client.locked, false);
}

#[test]
fn test_dispute_chargeback() {
    let input = r#"type,client,tx,amount
deposit,1,1,5.0
deposit,1,2,3.0
deposit,1,3,4.0
deposit,1,4,1.0
dispute,1,4,
dispute,1,2,
chargeback,1,4,
"#;
    let clients = test_clients(&input);
    assert_eq!(clients.len(), 1);
    let client = clients.get(&1).unwrap();
    assert_eq!(client.available, 9.into());
    assert_eq!(client.held, 3.into());
    assert_eq!(client.locked, true);
}

#[test]
fn test_locked() {
    let input = r#"type,client,tx,amount
deposit,1,1,5.0
deposit,1,2,3.0
deposit,1,3,4.0
deposit,1,4,1.0
dispute,1,4,
dispute,1,2,
chargeback,1,4,
deposit,1,7,100
deposit,1,8,15
withdrawal,1,9,7
dispute,1,9,
chargeback,1,9
"#;
    let clients = test_clients(&input);
    assert_eq!(clients.len(), 1);
    let client = clients.get(&1).unwrap();
    assert_eq!(client.available, 9.into());
    assert_eq!(client.held, 3.into());
    assert_eq!(client.locked, true);
}

#[test]
fn test_multiple_clients() {
    let input = r#"type,client,tx,amount
deposit,1,1,5.0
deposit,2,2,3.0
withdrawal,1,3,1.3
withdrawal,1,5,1.1
deposit,3,4,7.0
"#;
    let clients = test_clients(&input);
    assert_eq!(clients.len(), 3);
    let client1 = clients.get(&1).unwrap();
    let client2 = clients.get(&2).unwrap();
    let client3 = clients.get(&3).unwrap();
    assert_eq!(client1.available, Decimal::from_str("2.6").unwrap());
    assert_eq!(client2.available, 3.into());
    assert_eq!(client3.available, 7.into());
}

#[test]
fn test_precision() {
    let input = r#"type,client,tx,amount
deposit,1,1,5.1234
deposit,1,2,1.4321
withdrawal,1,3,1.1111
"#;
    let clients = test_clients(&input);
    assert_eq!(clients.len(), 1);
    let client = clients.get(&1).unwrap();
    assert_eq!(client.available, Decimal::from_str("5.4444").unwrap());
    assert_eq!(client.held, 0.into());
    assert_eq!(client.locked, false);
}

#[test]
fn test_dispute_unresolved_withdrawal() {
    let input = r#"type,client,tx,amount
deposit,1,1,5.0
deposit,1,2,3.0
deposit,1,3,4.0
withdrawal,1,4,8.0
dispute,1,4,
dispute,1,2,
"#;
    let clients = test_clients(&input);
    assert_eq!(clients.len(), 1);
    let client = clients.get(&1).unwrap();
    assert_eq!(client.available, 9.into());
    assert_eq!(client.held, Decimal::from_str("-5").unwrap());
    assert_eq!(client.locked, false);
}

#[test]
fn test_dispute_resolve_withdrawal() {
    let input = r#"type,client,tx,amount
deposit,1,1,5.0
deposit,1,2,3.0
deposit,1,3,4.0
withdrawal,1,4,8.0
dispute,1,4,
dispute,1,2,
resolve,1,4,
"#;
    let clients = test_clients(&input);
    assert_eq!(clients.len(), 1);
    let client = clients.get(&1).unwrap();
    assert_eq!(client.available, 1.into());
    assert_eq!(client.held, 3.into());
    assert_eq!(client.locked, false);
}

#[test]
fn test_dispute_chargeback_withdrawal() {
    let input = r#"type,client,tx,amount
deposit,1,1,5.0
deposit,1,2,3.0
deposit,1,3,4.0
withdrawal,1,4,8.0
dispute,1,4,
dispute,1,2,
chargeback,1,4,
"#;
    let clients = test_clients(&input);
    assert_eq!(clients.len(), 1);
    let client = clients.get(&1).unwrap();
    assert_eq!(client.available, 9.into());
    assert_eq!(client.held, 3.into());
    assert_eq!(client.locked, true);
}

#[test]
fn test_incorrect_ops() {
    let input = r#"type,client,tx,amount
deposits,1,1,5.0
withdraw,2,2,7.0
withdrawx,3,3,5.1
disputer,4,4,5.5
resolv,4,4,5.5
charge-back,4,4,5.5
,,,
"#;
    let clients = test_clients(&input);
    assert_eq!(clients.len(), 0);
}

#[test]
fn test_undisputed() {
    let input = r#"type,client,tx,amount
deposit,1,1,1.0
resolve,1,2,1.0
chargeback,2,3,1.0
resolve,2,4,
chargeback,2,5,
"#;
    let clients = test_clients(&input);
    assert_eq!(clients.len(), 1);
    let client = clients.get(&1).unwrap();
    assert_eq!(client.available, 1.into());
    assert_eq!(client.locked, false);
}

#[test]
fn test_withdraw_deposit() {
    let input = r#"type,client,tx,amount
withdrawal,1,1,5.01
deposit,1,2,7.01
"#;
    let clients = test_clients(&input);
    assert_eq!(clients.len(), 1);
    let client = clients.get(&1).unwrap();
    assert_eq!(client.available, Decimal::from_str("7.01").unwrap());
    assert_eq!(client.held, 0.into());
    assert_eq!(client.locked, false);
}

#[test]
fn test_dispute_not_applied() {
    let input = r#"type,client,tx,amount
withdrawal,1,1,5.01
deposit,1,2,7.01
dispute,1,1,
"#;
    let clients = test_clients(&input);
    assert_eq!(clients.len(), 1);
    let client = clients.get(&1).unwrap();
    assert_eq!(client.available, Decimal::from_str("7.01").unwrap());
    assert_eq!(client.held, 0.into());
    assert_eq!(client.locked, false);
}

#[test]
fn test_dispute_not_applied_client_exists() {
    let input = r#"type,client,tx,amount
deposit,1,4,3.0013
withdrawal,1,1,5.01
deposit,1,2,7.01
dispute,1,1,
"#;
    let clients = test_clients(&input);
    assert_eq!(clients.len(), 1);
    let client = clients.get(&1).unwrap();
    assert_eq!(client.available, Decimal::from_str("10.0113").unwrap());
    assert_eq!(client.held, 0.into());
    assert_eq!(client.locked, false);
}
