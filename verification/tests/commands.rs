use plain_state_machine_hype_train::{
    response, Command, ReadyState, ReadyStateInputs, State, StoredState, StoredStateInputs,
};

fn count_of(state: &State) -> u64 {
    match state {
        State::Stored(state) => state.ready_count(),
        State::Ready(state) => state.ready_count(),
    }
}

#[test]
fn parse_knows_the_two_commands() {
    assert_eq!(Some(Command::Ready), Command::parse("ready"));
    assert_eq!(Some(Command::Store), Command::parse("store"));
}

#[test]
fn parse_rejects_everything_else() {
    assert_eq!(None, Command::parse(""));
    assert_eq!(None, Command::parse("Ready"));
    assert_eq!(None, Command::parse("STORE"));
    assert_eq!(None, Command::parse(" ready"));
    assert_eq!(None, Command::parse("ready "));
    assert_eq!(None, Command::parse("store\n"));
    assert_eq!(None, Command::parse("stored"));
    assert_eq!(None, Command::parse("read"));
    assert_eq!(None, Command::parse("readz"));
    assert_eq!(None, Command::parse("stor\u{e9}"));
    assert_eq!(None, Command::parse("r\u{e9}ady"));
    assert_eq!(None, Command::parse("ready store"));
}

#[test]
fn apply_ready_is_the_ready_transition() {
    let state = State::default();
    let state = state.apply(Command::Ready).expect("ready from rest");
    assert_eq!("ready", state.name());
    assert_eq!(1, count_of(&state));
    let state = state
        .apply(Command::Ready)
        .expect_err("ready is illegal at work");
    assert_eq!("ready", state.name());
    assert_eq!(1, count_of(&state));
}

#[test]
fn apply_store_is_the_store_transition() {
    let state = State::Ready(ReadyState::enter(ReadyStateInputs { ready_count: 2 }));
    let state = state.apply(Command::Store).expect("store from work");
    assert_eq!("stored", state.name());
    assert_eq!(3, count_of(&state));
    let state = state
        .apply(Command::Store)
        .expect_err("store is illegal at rest");
    assert_eq!("stored", state.name());
    assert_eq!(3, count_of(&state));
}

#[test]
fn rejected_command_keeps_the_entry_time() {
    let state = State::Stored(StoredState::enter(StoredStateInputs { ready_count: 9 }));
    let entered = format!("{:?}", state);
    let state = state
        .apply(Command::Store)
        .expect_err("store is illegal at rest");
    assert_eq!(entered, format!("{:?}", state));
}

#[test]
fn response_names_the_new_state() {
    let result = State::default().ready();
    assert_eq!("Transitioned to ready!", response(&result));
    let result = result.expect("ready from rest").store();
    assert_eq!("Transitioned to stored!", response(&result));
}

#[test]
fn response_names_the_unchanged_state() {
    let result = State::default().store();
    assert_eq!("Transition failed! Current state is stored.", response(&result));
    let result = State::default().ready().expect("ready from rest").ready();
    assert_eq!("Transition failed! Current state is ready.", response(&result));
}

#[test]
fn command_scenario() {
    let state = State::default();

    let command = Command::parse("store").expect("store is a command");
    let result = state.apply(command);
    assert!(result.is_err());
    assert_eq!("Transition failed! Current state is stored.", response(&result));
    let state = result.expect_err("store is illegal at rest");
    assert_eq!("stored", state.name());
    assert_eq!(0, count_of(&state));

    let command = Command::parse("ready").expect("ready is a command");
    let result = state.apply(command);
    assert!(result.is_ok());
    assert_eq!("Transitioned to ready!", response(&result));
    let state = result.expect("ready from rest");
    assert_eq!("ready", state.name());
    assert_eq!(1, count_of(&state));

    let command = Command::parse("store").expect("store is a command");
    let result = state.apply(command);
    assert!(result.is_ok());
    assert_eq!("Transitioned to stored!", response(&result));
    let state = result.expect("store from work");
    assert_eq!("stored", state.name());
    assert_eq!(1, count_of(&state));

    let command = Command::parse("ready").expect("ready is a command");
    let result = state.apply(command);
    assert!(result.is_ok());
    assert_eq!("Transitioned to ready!", response(&result));
    let state = result.expect("ready from rest");
    assert_eq!("ready", state.name());
    assert_eq!(2, count_of(&state));
}
