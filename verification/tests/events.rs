use incrementer::{AccountId, EventEmitter, IncResult};

#[test]
fn new_emitter_is_empty() {
    let emitter = EventEmitter::new();
    assert!(emitter.events().is_empty());
}

#[test]
fn emit_appends_in_order() {
    let mut emitter = EventEmitter::new();
    emitter.emit(IncResult { caller: AccountId([1u8; 32]), current_value: Ok(5) });
    emitter.emit(IncResult {
        caller: AccountId([2u8; 32]),
        current_value: Err(String::from("no")),
    });
    emitter.emit(IncResult { caller: AccountId([1u8; 32]), current_value: Ok(-1) });
    let events = emitter.events();
    assert_eq!(events.len(), 3);
    assert_eq!(events[0].caller.0, [1u8; 32]);
    assert_eq!(events[0].current_value, Ok(5));
    assert_eq!(events[1].caller.0, [2u8; 32]);
    assert_eq!(events[1].current_value, Err(String::from("no")));
    assert_eq!(events[2].caller.0, [1u8; 32]);
    assert_eq!(events[2].current_value, Ok(-1));
}

#[test]
fn equal_events_are_both_kept() {
    let mut emitter = EventEmitter::new();
    emitter.emit(IncResult { caller: AccountId([1u8; 32]), current_value: Ok(5) });
    emitter.emit(IncResult { caller: AccountId([1u8; 32]), current_value: Ok(5) });
    assert_eq!(emitter.events().len(), 2);
}
