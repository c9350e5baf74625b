use command_bridge::call::Call;
use command_bridge::error::BridgeError;
use command_bridge::handlers::log_message;
use command_bridge::handlers::quit_app;
use command_bridge::lifecycle::LifecycleState;
use command_bridge::outcome::respond;
use command_bridge::outcome::Effect;
use command_bridge::outcome::HandlerResult;
use command_bridge::outcome::Response;
use command_bridge::outcome::EXIT_SUCCESS;
use command_bridge::payload::ArgValue;
use command_bridge::payload::Field;
use command_bridge::payload::Payload;
use command_bridge::registry::Handler;

#[test]
fn log_message_prefixes_the_message() {
    assert_eq!(log_message("hello"), "From frontend: hello");
    assert_eq!(log_message(""), "From frontend: ");
    assert_eq!(log_message("a\nb"), "From frontend: a\nb");
    assert_eq!(log_message("\u{e9}t\u{e9}"), "From frontend: \u{e9}t\u{e9}");
}

#[test]
fn log_message_keeps_long_messages_whole() {
    let message = "x".repeat(100_000);
    let line = log_message(&message);
    assert_eq!(line.len(), 15 + 100_000);
    assert!(line.ends_with(&message));
    assert!(line.starts_with("From frontend: "));
}

#[test]
fn exit_status_is_success() {
    assert_eq!(EXIT_SUCCESS, 0);
}

#[test]
fn quit_app_terminates_a_running_application() {
    let mut lifecycle = LifecycleState::Running;
    assert_eq!(quit_app(&mut lifecycle), Effect::Exit(0));
    assert_eq!(lifecycle, LifecycleState::Terminating);
}

#[test]
fn quit_app_asks_for_exit_only_once() {
    let mut lifecycle = LifecycleState::Running;
    assert_eq!(quit_app(&mut lifecycle), Effect::Exit(0));
    assert_eq!(quit_app(&mut lifecycle), Effect::Nothing);
    assert_eq!(quit_app(&mut lifecycle), Effect::Nothing);
    assert_eq!(lifecycle, LifecycleState::Terminating);
}

#[test]
fn respond_keeps_a_success_value() {
    assert_eq!(respond(HandlerResult::Success(None)), Response::Success(None));
    assert_eq!(
        respond(HandlerResult::Success(Some("done".to_string()))),
        Response::Success(Some("done".to_string()))
    );
}

#[test]
fn respond_turns_a_failure_into_a_handler_failure() {
    assert_eq!(
        respond(HandlerResult::Failure("disk full".to_string())),
        Response::Failure(BridgeError::HandlerFailure("disk full".to_string()))
    );
    assert_eq!(
        respond(HandlerResult::Failure(String::new())),
        Response::Failure(BridgeError::HandlerFailure(String::new()))
    );
}

#[test]
fn decode_reads_the_message_of_log_message() {
    let payload = Payload::record(vec![Field::text("message", "hello")]);
    assert_eq!(
        Call::decode(Handler::LogMessage, &payload),
        Ok(Call::LogMessage { message: "hello".to_string() })
    );
}

#[test]
fn decode_ignores_further_arguments() {
    let payload = Payload::record(vec![
        Field { name: "level".to_string(), value: ArgValue::Integer(2) },
        Field::text("message", "hello"),
        Field::text("other", "x"),
    ]);
    assert_eq!(
        Call::decode(Handler::LogMessage, &payload),
        Ok(Call::LogMessage { message: "hello".to_string() })
    );
}

#[test]
fn decode_refuses_log_message_without_text() {
    let wrong = [
        Payload::Absent,
        Payload::Malformed,
        Payload::record(Vec::new()),
        Payload::record(vec![Field::text("msg", "hello")]),
        Payload::record(vec![Field { name: "message".to_string(), value: ArgValue::Integer(5) }]),
        Payload::record(vec![Field { name: "message".to_string(), value: ArgValue::Null }]),
        Payload::record(vec![Field { name: "message".to_string(), value: ArgValue::Opaque }]),
    ];
    for payload in wrong.iter() {
        assert_eq!(
            Call::decode(Handler::LogMessage, payload),
            Err(BridgeError::InvalidArguments)
        );
    }
}

#[test]
fn decode_takes_any_payload_for_quit_app() {
    let payloads = [
        Payload::Absent,
        Payload::Malformed,
        Payload::record(Vec::new()),
        Payload::record(vec![Field::text("message", "hello")]),
    ];
    for payload in payloads.iter() {
        assert_eq!(Call::decode(Handler::QuitApp, payload), Ok(Call::QuitApp));
    }
}
