use p2pio::client::{derive_event, ConfirmedTransaction, Context, PlayerData, TransactionPayload};
use p2pio::codec;
use p2pio::error::FatalError;

fn call(sender: &str, timestamp: u64, contract: u64, function: &str, args: Vec<u64>) -> ConfirmedTransaction {
    ConfirmedTransaction {
        sender: String::from(sender),
        timestamp,
        payload: TransactionPayload::ContractCall {
            contract,
            function: String::from(function),
            args,
        },
    }
}

#[test]
fn test_derive_spawn_event() {
    let tx = call("A", 42, 5, "spawn_player", vec![codec::encode(0), codec::encode(0)]);
    let e = derive_event(&tx, 5).expect("no defect").expect("one event");
    assert!(e.is_spawn());
    assert!(!e.is_input());
    assert_eq!(e.get_id(), "A");
    assert_eq!(e.get_spawn_x(), Some(0));
    assert_eq!(e.get_spawn_y(), Some(0));
    assert_eq!(e.get_input_heading(), None);
    assert_eq!(e.get_timestamp(), 42);
}

#[test]
fn test_derive_input_event() {
    let tx = call("B", 9, 5, "apply_input", vec![2]);
    let e = derive_event(&tx, 5).expect("no defect").expect("one event");
    assert!(e.is_input());
    assert_eq!(e.get_id(), "B");
    assert_eq!(e.get_input_heading(), Some(2));
    assert_eq!(e.get_spawn_x(), None);
    assert_eq!(e.get_spawn_y(), None);
    assert_eq!(e.get_timestamp(), 9);
}

#[test]
fn test_derive_unrelated_function() {
    let tx = call("A", 1, 5, "deploy_contract", vec![1, 2, 3]);
    assert_eq!(derive_event(&tx, 5), Ok(None));
}

#[test]
fn test_derive_foreign_contract() {
    let tx = call("A", 1, 6, "spawn_player", vec![codec::encode(0), codec::encode(0)]);
    assert_eq!(derive_event(&tx, 5), Ok(None));
}

#[test]
fn test_derive_non_call_payload() {
    let tx = ConfirmedTransaction {
        sender: String::from("A"),
        timestamp: 1,
        payload: TransactionPayload::Other,
    };
    assert_eq!(derive_event(&tx, 5), Ok(None));
}

#[test]
fn test_derive_wrong_arity_aborts() {
    let tx = call("A", 1, 5, "apply_input", vec![0, 1]);
    assert_eq!(derive_event(&tx, 5), Err(FatalError::WrongArgumentCount));

    let tx = call("A", 1, 5, "apply_input", vec![]);
    assert_eq!(derive_event(&tx, 5), Err(FatalError::WrongArgumentCount));

    let tx = call("A", 1, 5, "spawn_player", vec![codec::encode(0)]);
    assert_eq!(derive_event(&tx, 5), Err(FatalError::WrongArgumentCount));
}

#[test]
fn test_derive_bad_coordinate_aborts() {
    let tx = call("A", 1, 5, "spawn_player", vec![3, codec::encode(0)]);
    assert_eq!(derive_event(&tx, 5), Err(FatalError::CoordinateOutOfRange));
}

#[test]
fn test_derive_wide_heading_aborts() {
    let tx = call("A", 1, 5, "apply_input", vec![u32::MAX as u64 + 1]);
    assert_eq!(derive_event(&tx, 5), Err(FatalError::HeadingCodeOutOfRange));
}

#[test]
fn test_optimistic_duplicate_delivery() {
    // An action predicted locally and then observed confirmed is delivered
    // at least once: two events for the one spawn.
    let mut ctx = Context::new(5);
    ctx.record_local_spawn(String::from("A"), 0, 0, 42);
    let tx = call("A", 42, 5, "spawn_player", vec![codec::encode(0), codec::encode(0)]);
    assert_eq!(ctx.handle_transaction(&tx), Ok(()));

    let events = ctx.take_events();
    assert_eq!(events.len(), 2);
    for e in &events {
        assert!(e.is_spawn());
        assert_eq!(e.get_id(), "A");
        assert_eq!(e.get_spawn_x(), Some(0));
        assert_eq!(e.get_spawn_y(), Some(0));
        assert_eq!(e.get_timestamp(), 42);
    }
}

#[test]
fn test_context_keeps_confirmed_order() {
    let mut ctx = Context::new(5);
    let first = call("A", 1, 5, "spawn_player", vec![codec::encode(7), codec::encode(8)]);
    let skipped = call("A", 2, 5, "transfer", vec![9]);
    let second = call("B", 3, 5, "apply_input", vec![1]);
    assert_eq!(ctx.handle_transaction(&first), Ok(()));
    assert_eq!(ctx.handle_transaction(&skipped), Ok(()));
    assert_eq!(ctx.handle_transaction(&second), Ok(()));

    let events = ctx.take_events();
    assert_eq!(events.len(), 2);
    assert!(events[0].is_spawn());
    assert_eq!(events[0].get_spawn_x(), Some(7));
    assert!(events[1].is_input());
    assert_eq!(events[1].get_input_heading(), Some(1));

    // Draining leaves the queue empty.
    assert!(ctx.take_events().is_empty());
}

#[test]
fn test_context_error_enqueues_nothing() {
    let mut ctx = Context::new(5);
    let bad = call("A", 1, 5, "apply_input", vec![0, 0]);
    assert_eq!(ctx.handle_transaction(&bad), Err(FatalError::WrongArgumentCount));
    assert!(ctx.take_events().is_empty());
}

#[test]
fn test_record_local_input() {
    let mut ctx = Context::new(5);
    ctx.record_local_input(String::from("me"), 3, 77);
    let events = ctx.take_events();
    assert_eq!(events.len(), 1);
    assert!(events[0].is_input());
    assert_eq!(events[0].get_id(), "me");
    assert_eq!(events[0].get_input_heading(), Some(3));
    assert_eq!(events[0].get_timestamp(), 77);
}

#[test]
fn test_player_data_from_contract() {
    let pd = PlayerData::from_contract(codec::encode(3), codec::encode(-4), 2).expect("decodes");
    assert_eq!(pd.x(), 3);
    assert_eq!(pd.y(), -4);
    assert_eq!(pd.heading(), 2);

    assert_eq!(
        PlayerData::from_contract(1, codec::encode(0), 0),
        Err(FatalError::CoordinateOutOfRange)
    );
    assert_eq!(
        PlayerData::from_contract(codec::encode(0), codec::encode(0), u32::MAX as u64 + 1),
        Err(FatalError::HeadingCodeOutOfRange)
    );
}
