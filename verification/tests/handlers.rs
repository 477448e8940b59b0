use pingbot::errors::{on_error, on_handler_result, ErrorAction, Fault};
use pingbot::hooks::{post_command, pre_command};
use pingbot::ping::{command, ping, ping_settle};

#[test]
fn ping_replies_pong() {
    let reply = ping(42);
    assert_eq!(reply.channel, 42);
    assert_eq!(reply.text, "Pong!");
}

#[test]
fn ping_is_stateless() {
    let first = ping(7);
    let second = ping(7);
    let third = ping(7);
    assert_eq!(first, second);
    assert_eq!(second, third);
}

#[test]
fn ping_answers_in_the_originating_channel() {
    let a = ping(1);
    let b = ping(u64::MAX);
    let c = ping(0);
    assert_eq!(a.channel, 1);
    assert_eq!(b.channel, u64::MAX);
    assert_eq!(c.channel, 0);
    assert_eq!(a.text, b.text);
    assert_eq!(b.text, c.text);
}

#[test]
fn ping_command_takes_no_arguments() {
    let info = command();
    assert_eq!(info.name, "ping");
    assert_eq!(info.parameters, 0);
}

#[test]
fn sent_reply_settles_silently() {
    let settled = ping_settle(Ok(()));
    assert_eq!(settled.log, None);
    assert_eq!(settled.result, Ok(()));
}

#[test]
fn failed_send_is_logged_and_not_raised() {
    let settled = ping_settle(Err(String::from("Http(Timeout)")));
    assert_eq!(settled.log, Some(String::from("Error while sending message: Http(Timeout)")));
    assert_eq!(settled.result, Ok(()));
}

#[test]
fn failed_send_with_empty_detail() {
    let settled = ping_settle(Err(String::new()));
    assert_eq!(settled.log, Some(String::from("Error while sending message: ")));
    assert_eq!(settled.result, Ok(()));
}

#[test]
fn ping_still_answers_after_a_failed_send() {
    let _ = ping_settle(Err(String::from("network down")));
    let reply = ping(9);
    assert_eq!(reply.channel, 9);
    assert_eq!(reply.text, "Pong!");
}

#[test]
fn pre_command_line() {
    assert_eq!(pre_command("ping"), "[LOG] Executing command ping...");
}

#[test]
fn post_command_line() {
    assert_eq!(post_command("ping"), "[LOG] Executed command ping!");
}

#[test]
fn log_lines_with_other_names() {
    assert_eq!(pre_command(""), "[LOG] Executing command ...");
    assert_eq!(post_command(""), "[LOG] Executed command !");
    assert_eq!(pre_command("admin reload"), "[LOG] Executing command admin reload...");
    assert_eq!(post_command("\u{e9}t\u{e9}"), "[LOG] Executed command \u{e9}t\u{e9}!");
}

#[test]
fn log_lines_before_and_after_differ() {
    assert_ne!(pre_command("ping"), post_command("ping"));
}

#[test]
fn setup_fault_is_fatal() {
    let action = on_error(Fault::Setup { detail: String::from("Http(Unauthorized)") });
    assert_eq!(
        action,
        ErrorAction::Abort { message: String::from("Failed to start bot: Http(Unauthorized)") }
    );
    assert!(action.is_fatal());
}

#[test]
fn command_fault_is_logged() {
    let action = on_error(Fault::Command {
        name: String::from("ping"),
        detail: String::from("Custom(\"boom\")"),
    });
    assert_eq!(
        action,
        ErrorAction::Log { line: String::from("Error in command `ping`: Custom(\"boom\")") }
    );
    assert!(!action.is_fatal());
}

#[test]
fn other_fault_is_delegated() {
    let action = on_error(Fault::Other);
    assert_eq!(action, ErrorAction::Delegate);
    assert!(!action.is_fatal());
}

#[test]
fn default_handler_success_prints_nothing() {
    assert_eq!(on_handler_result(Ok(())), None);
}

#[test]
fn default_handler_failure_is_logged() {
    assert_eq!(
        on_handler_result(Err(String::from("Model(InvalidPermissions)"))),
        Some(String::from("Error while handling error: Model(InvalidPermissions)"))
    );
}
