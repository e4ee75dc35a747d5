use houls::commands::{
    did_open_actions, execute_command_plan, initialized_actions, notification_method,
    shutdown_result, ClientAction, MessageLevel, NotificationParams,
};
use houls::errors::BackendError;
use houls::protocol::{server_config, validate_scheme};

#[test]
fn file_scheme_is_accepted() {
    assert!(validate_scheme(&String::from("file")).is_ok());
}

#[test]
fn non_file_scheme_is_invalid_params() {
    let r = validate_scheme(&String::from("http"));
    match r {
        Err(BackendError::InvalidParams(m)) => {
            assert_eq!(
                m,
                "Could not parse document for symbols. URI scheme is: \"http\", \
                 only scheme:file is accepted."
            );
        },
        _ => panic!("a non-file scheme must be refused as invalid parameters"),
    }
}

#[test]
fn untrusted_scheme_variants_are_refused() {
    assert!(validate_scheme(&String::from("")).is_err());
    assert!(validate_scheme(&String::from("files")).is_err());
    assert!(validate_scheme(&String::from("File")).is_err());
}

#[test]
fn recognized_command_emits_the_exact_sequence() {
    let r = execute_command_plan(
        &String::from("custom.notification"),
        &String::from("PARAMS"),
    );
    let actions = r.unwrap();
    assert_eq!(actions.len(), 4);
    match &actions[0] {
        ClientAction::ShowMessage(level, text) => {
            assert_eq!(*level, MessageLevel::Warning);
            assert_eq!(text, "Wababalia");
        },
        _ => panic!("the first emission must be the shown warning"),
    }
    match &actions[1] {
        ClientAction::LogMessage(level, text) => {
            assert_eq!(*level, MessageLevel::Warning);
            assert_eq!(text, "Command executed with params: PARAMS");
        },
        _ => panic!("the second emission must be the warning log line"),
    }
    match &actions[2] {
        ClientAction::SendNotification(p) => {
            assert_eq!(p.title, "Hello");
            assert_eq!(p.message, "Message");
        },
        _ => panic!("the third emission must be the custom notification"),
    }
    match &actions[3] {
        ClientAction::LogMessage(level, text) => {
            assert_eq!(*level, MessageLevel::Info);
            assert_eq!(text, "Command executed with params: PARAMS");
        },
        _ => panic!("the fourth emission must be the info log line"),
    }
}

#[test]
fn any_other_command_is_invalid_request() {
    let r = execute_command_plan(&String::from("custom.other"), &String::from("PARAMS"));
    assert!(matches!(r, Err(BackendError::InvalidRequest)));
    let r = execute_command_plan(&String::from(""), &String::from("PARAMS"));
    assert!(matches!(r, Err(BackendError::InvalidRequest)));
}

#[test]
fn capabilities_declare_outline_and_the_one_command() {
    let config = server_config();
    assert!(config.document_symbol_provider);
    assert_eq!(config.commands, vec![String::from("custom.notification")]);
}

#[test]
fn notification_params_carry_their_fields() {
    let p = NotificationParams::new(String::from("Hello"), String::from("Message"));
    assert_eq!(p.title, "Hello");
    assert_eq!(p.message, "Message");
}

#[test]
fn notification_travels_under_the_custom_method() {
    assert_eq!(notification_method(), "custom/notification");
}

#[test]
fn lifecycle_hooks_emit_their_log_lines() {
    let init = initialized_actions();
    assert_eq!(init.len(), 1);
    match &init[0] {
        ClientAction::LogMessage(level, text) => {
            assert_eq!(*level, MessageLevel::Info);
            assert_eq!(text, "server initialized!");
        },
        _ => panic!("initialization must log one info line"),
    }
    let open = did_open_actions();
    assert_eq!(open.len(), 1);
    match &open[0] {
        ClientAction::LogMessage(level, text) => {
            assert_eq!(*level, MessageLevel::Info);
            assert_eq!(text, "file opened!");
        },
        _ => panic!("opening a document must log one info line"),
    }
    assert!(shutdown_result().is_ok());
}
