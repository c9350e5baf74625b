use command_bridge::error::BridgeError;
use command_bridge::error::RegistryError;
use command_bridge::registry::Handler;
use command_bridge::registry::Registry;

#[test]
fn empty_registry_resolves_nothing() {
    let registry = Registry::new();
    assert_eq!(registry.resolve("log_message"), Err(BridgeError::UnknownCommand));
    assert_eq!(registry.resolve(""), Err(BridgeError::UnknownCommand));
    assert!(!registry.contains("quit_app"));
}

#[test]
fn standard_registry_resolves_both_commands() {
    let registry = Registry::standard();
    assert_eq!(registry.resolve("log_message"), Ok(Handler::LogMessage));
    assert_eq!(registry.resolve("quit_app"), Ok(Handler::QuitApp));
    assert!(registry.contains("log_message"));
    assert!(registry.contains("quit_app"));
}

#[test]
fn standard_registry_knows_no_other_name() {
    let registry = Registry::standard();
    for name in ["delete_everything", "", "log_messag", "log_message ", "Quit_App", "quit_app\n"] {
        assert_eq!(registry.resolve(name), Err(BridgeError::UnknownCommand));
        assert!(!registry.contains(name));
    }
}

#[test]
fn registered_name_resolves_to_its_handler() {
    let mut registry = Registry::new();
    assert_eq!(registry.register("bye", Handler::QuitApp), Ok(()));
    assert_eq!(registry.register("note", Handler::LogMessage), Ok(()));
    assert_eq!(registry.resolve("bye"), Ok(Handler::QuitApp));
    assert_eq!(registry.resolve("note"), Ok(Handler::LogMessage));
    assert_eq!(registry.resolve("quit_app"), Err(BridgeError::UnknownCommand));
}

#[test]
fn duplicate_name_is_refused_and_changes_nothing() {
    let mut registry = Registry::new();
    assert_eq!(registry.register("note", Handler::LogMessage), Ok(()));
    assert_eq!(
        registry.register("note", Handler::QuitApp),
        Err(RegistryError::DuplicateName)
    );
    assert_eq!(registry.resolve("note"), Ok(Handler::LogMessage));
    assert_eq!(
        registry.register("note", Handler::LogMessage),
        Err(RegistryError::DuplicateName)
    );
}

#[test]
fn one_handler_may_stand_under_two_names() {
    let mut registry = Registry::new();
    assert_eq!(registry.register("log", Handler::LogMessage), Ok(()));
    assert_eq!(registry.register("trace", Handler::LogMessage), Ok(()));
    assert_eq!(registry.resolve("log"), Ok(Handler::LogMessage));
    assert_eq!(registry.resolve("trace"), Ok(Handler::LogMessage));
}

#[test]
fn names_are_compared_character_by_character() {
    let mut registry = Registry::new();
    assert_eq!(registry.register("gr\u{fc}\u{df}e", Handler::LogMessage), Ok(()));
    assert_eq!(registry.resolve("gr\u{fc}\u{df}e"), Ok(Handler::LogMessage));
    assert_eq!(registry.resolve("grusse"), Err(BridgeError::UnknownCommand));
    assert_eq!(registry.resolve("gr\u{fc}\u{df}"), Err(BridgeError::UnknownCommand));
}
