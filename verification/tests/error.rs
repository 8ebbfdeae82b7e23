use statemachine::machine::error::StateMachineError;

#[test]
fn message_names_the_missing_field() {
    let error = StateMachineError::MissingField("initial_state".to_string());

    assert_eq!(
        "Failed to build the builder because initial_state field is uninitialized.",
        error.message()
    );
}

#[test]
fn message_for_missing_transition() {
    let error = StateMachineError::MissingField("transition".to_string());

    assert_eq!(
        "Failed to build the builder because transition field is uninitialized.",
        error.message()
    );
}

#[test]
fn message_with_an_empty_field_name() {
    let error = StateMachineError::MissingField(String::new());

    assert_eq!(
        "Failed to build the builder because  field is uninitialized.",
        error.message()
    );
}

#[test]
fn error_can_be_printed_for_debugging() {
    let error = StateMachineError::MissingField("transition".to_string());

    assert_eq!("MissingField(\"transition\")", format!("{:?}", error));
}
