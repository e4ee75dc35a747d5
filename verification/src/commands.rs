use vstd::prelude::*;
use vstd::string::StringExecFns;

use crate::errors::BackendError;
use crate::protocol::recognized_command;

verus! {

/// The severity a client-visible message is tagged with.
#[derive(Debug, Clone, Copy, PartialEq, Eq, Structural)]
pub enum MessageLevel {
    Warning,
    Info,
}

/// The payload of the custom server-to-client notification.
#[derive(Debug)]
pub struct NotificationParams {
    pub title: String,
    pub message: String,
}

impl NotificationParams {
    pub fn new(title: String, message: String) -> (p: NotificationParams)
        ensures
            p.title@ == title@,
            p.message@ == message@,
    {
        NotificationParams { title, message }
    }
}

/// One client-visible emission the backend asks the transport to perform.
/// The transport performs them in sequence order.
#[derive(Debug)]
pub enum ClientAction {
    ShowMessage(MessageLevel, String),
    LogMessage(MessageLevel, String),
    SendNotification(NotificationParams),
}

/// The method name under which the custom notification travels.
pub fn notification_method() -> (s: &'static str)
    ensures
        s@ == "custom/notification"@,
{
    "custom/notification"
}

/// The log line that echoes a command's parameters.
pub open spec fn command_echo_message(params_text: Seq<char>) -> Seq<char> {
    "Command executed with params: "@ + params_text
}

/// What executing the recognized command emits, in this exact order: one
/// warning-level shown message, one warning-level log line echoing the
/// parameters, the custom notification with its fixed payload, and one
/// info-level log line echoing the parameters again.
pub open spec fn recognized_command_actions(actions: Seq<ClientAction>, params_text: Seq<char>) -> bool {
    &&& actions.len() == 4
    &&& actions[0] matches ClientAction::ShowMessage(l0, t0) && l0 == MessageLevel::Warning
        && t0@ == "Wababalia"@
    &&& actions[1] matches ClientAction::LogMessage(l1, t1) && l1 == MessageLevel::Warning
        && t1@ == command_echo_message(params_text)
    &&& actions[2] matches ClientAction::SendNotification(p) && p.title@ == "Hello"@
        && p.message@ == "Message"@
    &&& actions[3] matches ClientAction::LogMessage(l3, t3) && l3 == MessageLevel::Info
        && t3@ == command_echo_message(params_text)
}

/// Decide what a command execution does. Exactly one command name is
/// recognized; it yields the fixed four-step emission sequence and an empty
/// success result. Every other name is refused with no client-visible
/// emission at all.
///
/// `params_text` is the rendered form of the request's parameters, echoed
/// verbatim into the two log lines.
pub fn execute_command_plan(command: &String, params_text: &String) -> (r: Result<
    Vec<ClientAction>,
    BackendError,
>)
    ensures
        r is Ok <==> command@ == recognized_command(),
        r matches Ok(actions) ==> recognized_command_actions(actions@, params_text@),
        r matches Err(e) ==> e is InvalidRequest,
{
    let recognized = String::from_str("custom.notification");
    if *command == recognized {
        let mut echo = String::from_str("Command executed with params: ");
        echo.append(params_text.as_str());
        let mut actions: Vec<ClientAction> = Vec::new();
        actions.push(ClientAction::ShowMessage(MessageLevel::Warning, String::from_str("Wababalia")));
        actions.push(ClientAction::LogMessage(MessageLevel::Warning, echo.clone()));
        actions.push(ClientAction::SendNotification(NotificationParams::new(
            String::from_str("Hello"),
            String::from_str("Message"),
        )));
        actions.push(ClientAction::LogMessage(MessageLevel::Info, echo));
        Ok(actions)
    } else {
        Err(BackendError::InvalidRequest)
    }
}

/// What the post-initialization hook emits: one info-level log line.
pub fn initialized_actions() -> (actions: Vec<ClientAction>)
    ensures
        actions@.len() == 1,
        actions@[0] matches ClientAction::LogMessage(l, t) && l == MessageLevel::Info
            && t@ == "server initialized!"@,
{
    let mut actions: Vec<ClientAction> = Vec::new();
    actions.push(ClientAction::LogMessage(MessageLevel::Info, String::from_str("server initialized!")));
    actions
}

/// What the document-open hook emits: one info-level log line.
pub fn did_open_actions() -> (actions: Vec<ClientAction>)
    ensures
        actions@.len() == 1,
        actions@[0] matches ClientAction::LogMessage(l, t) && l == MessageLevel::Info
            && t@ == "file opened!"@,
{
    let mut actions: Vec<ClientAction> = Vec::new();
    actions.push(ClientAction::LogMessage(MessageLevel::Info, String::from_str("file opened!")));
    actions
}

/// Shutting down always succeeds and emits nothing.
pub fn shutdown_result() -> (r: Result<(), BackendError>)
    ensures
        r is Ok,
{
    Ok(())
}

} // verus!
