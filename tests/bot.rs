use pute_bot::dispatch::{CommandError, Dispatcher, Invoke, LogEntry};
use pute_bot::gate::{DispatchGate, Verdict};
use pute_bot::handlers::{age, pute, Handler, UserInfo};
use pute_bot::intents::{command_intents, keyword_intents};
use pute_bot::registry::{Command, CommandHandler, DuplicateNameError, Param, ParamKind, Registry};
use pute_bot::startup::{bot_token, StartupError, TOKEN_VARIABLE};
use serenity::model::gateway::GatewayIntents;

fn command(name: &str, description: &str, handler: CommandHandler) -> Command {
    Command {
        name: name.to_string(),
        description: description.to_string(),
        params: vec![],
        handler,
    }
}

fn user(id: u64, name: &str, created_at: &str) -> UserInfo {
    UserInfo { id, name: name.to_string(), created_at: created_at.to_string() }
}

fn sample_registry() -> Registry {
    let mut reg = Registry::new();
    let mut age_cmd = command("age", "Displays your or another user's account creation date", CommandHandler::Lookup);
    age_cmd.params.push(Param { name: "user".to_string(), kind: ParamKind::User, optional: true });
    assert_eq!(reg.register(age_cmd), Ok(()));
    assert_eq!(reg.register(command("Pute", "Pute sale pute", CommandHandler::ContextAction)), Ok(()));
    reg
}

#[test]
fn register_then_all_holds_each_name_once() {
    let reg = sample_registry();
    let names: Vec<&str> = reg.all().iter().map(|c| c.name.as_str()).collect();
    assert_eq!(names, vec!["age", "Pute"]);
    assert_eq!(reg.all().iter().filter(|c| c.name == "age").count(), 1);
    assert_eq!(reg.all().iter().filter(|c| c.name == "Pute").count(), 1);
    assert_eq!(reg.len(), 2);
}

#[test]
fn register_duplicate_fails_and_keeps_original() {
    let mut reg = sample_registry();
    let r = reg.register(command("age", "another description", CommandHandler::ContextAction));
    assert_eq!(r, Err(DuplicateNameError));
    assert_eq!(reg.len(), 2);
    let ages: Vec<&Command> = reg.all().iter().filter(|c| c.name == "age").collect();
    assert_eq!(ages.len(), 1);
    assert_eq!(ages[0].description, "Displays your or another user's account creation date");
    assert_eq!(ages[0].handler, CommandHandler::Lookup);
    assert_eq!(ages[0].params.len(), 1);
    assert!(ages[0].params[0].optional);
}

#[test]
fn position_finds_registered_names_only() {
    let reg = sample_registry();
    assert_eq!(reg.position(&"Pute".to_string()), Some(1));
    assert_eq!(reg.position(&"pute".to_string()), None);
}

#[test]
fn blocked_user_is_denied_and_handler_never_runs() {
    let gate = DispatchGate::new(vec![123456789]);
    assert_eq!(gate.evaluate(123456789), Verdict::Deny);
    let mut d = Dispatcher::new(sample_registry(), gate);
    let mut calls = 0;
    for _ in 0..3 {
        match d.on_invoke(&"age".to_string(), 123456789) {
            Invoke::Run(_) => calls += 1,
            Invoke::Denied => {}
            Invoke::Unknown => panic!("age is registered"),
        }
    }
    assert_eq!(calls, 0);
    assert!(d.log().is_empty());
}

#[test]
fn unblocked_user_is_allowed() {
    let gate = DispatchGate::new(vec![123456789, 42]);
    assert_eq!(gate.evaluate(7), Verdict::Allow);
    assert_eq!(gate.evaluate(0), Verdict::Allow);
    assert_eq!(gate.evaluate(42), Verdict::Deny);
    let empty = DispatchGate::new(vec![]);
    assert_eq!(empty.evaluate(123456789), Verdict::Allow);
}

#[test]
fn allowed_invocation_runs_handler_and_logs_start() {
    let mut d = Dispatcher::new(sample_registry(), DispatchGate::new(vec![123456789]));
    match d.on_invoke(&"Pute".to_string(), 7) {
        Invoke::Run(h) => assert_eq!(h, CommandHandler::ContextAction),
        _ => panic!("expected the handler to run"),
    }
    assert_eq!(d.log().len(), 1);
    assert!(matches!(&d.log()[0], LogEntry::Executing { command } if command == "Pute"));
}

#[test]
fn unknown_command_is_not_run() {
    let mut d = Dispatcher::new(sample_registry(), DispatchGate::new(vec![]));
    assert!(matches!(d.on_invoke(&"help".to_string(), 7), Invoke::Unknown));
    assert!(d.log().is_empty());
}

#[test]
fn successful_result_is_replied_and_logged() {
    let mut d = Dispatcher::new(sample_registry(), DispatchGate::new(vec![]));
    let reply = d.on_result(&"Pute".to_string(), Ok("SALE PUTE ! hello".to_string()));
    assert_eq!(reply, Some("SALE PUTE ! hello".to_string()));
    assert_eq!(d.log().len(), 1);
    assert!(matches!(&d.log()[0], LogEntry::Executed { command } if command == "Pute"));
}

#[test]
fn handler_error_is_logged_once_and_dispatch_continues() {
    let mut d = Dispatcher::new(sample_registry(), DispatchGate::new(vec![]));
    assert!(matches!(d.on_invoke(&"age".to_string(), 7), Invoke::Run(CommandHandler::Lookup)));
    let reply = d.on_result(&"age".to_string(), Err(CommandError::Upstream("timeout".to_string())));
    assert_eq!(reply, None);
    let errors: Vec<&LogEntry> = d.log().iter().filter(|e| matches!(e, LogEntry::Failed { .. })).collect();
    assert_eq!(errors.len(), 1);
    assert!(matches!(errors[0], LogEntry::Failed { command, error: CommandError::Upstream(m) } if command == "age" && m == "timeout"));
    // The next invocation is still served.
    assert!(matches!(d.on_invoke(&"Pute".to_string(), 8), Invoke::Run(CommandHandler::ContextAction)));
    let reply = d.on_result(&"Pute".to_string(), Ok("SALE PUTE ! x".to_string()));
    assert_eq!(reply, Some("SALE PUTE ! x".to_string()));
    assert_eq!(d.log().len(), 4);
}

#[test]
fn failed_handler_error_is_logged() {
    let mut d = Dispatcher::new(sample_registry(), DispatchGate::new(vec![]));
    assert_eq!(d.on_result(&"Pute".to_string(), Err(CommandError::Failed("bad".to_string()))), None);
    assert!(matches!(&d.log()[0], LogEntry::Failed { error: CommandError::Failed(m), .. } if m == "bad"));
}

#[test]
fn age_defaults_to_author() {
    let alice = user(1, "alice", "2020-01-01");
    assert_eq!(age(&alice, None), "alice's account was created at 2020-01-01");
}

#[test]
fn age_reports_explicit_target() {
    let alice = user(1, "alice", "2020-01-01");
    let bob = user(2, "bob", "2018-06-30T12:00:00Z");
    assert_eq!(age(&alice, Some(&bob)), "bob's account was created at 2018-06-30T12:00:00Z");
}

#[test]
fn pute_prefixes_message_content() {
    assert_eq!(pute("hello"), "SALE PUTE ! hello");
    assert_eq!(pute(""), "SALE PUTE ! ");
}

#[test]
fn ping_gets_pong() {
    assert_eq!(Handler.message("!ping"), Some("Pong!".to_string()));
}

#[test]
fn near_pings_get_no_reply() {
    assert_eq!(Handler.message("!ping "), None);
    assert_eq!(Handler.message("ping"), None);
    assert_eq!(Handler.message("!PING"), None);
    assert_eq!(Handler.message(""), None);
}

#[test]
fn missing_token_is_fatal() {
    assert_eq!(bot_token(None), Err(StartupError::MissingToken));
    assert_eq!(StartupError::MissingToken.message(), "DISCORD_BOT_TOKEN must be set in .env file.");
    assert_eq!(TOKEN_VARIABLE, "DISCORD_BOT_TOKEN");
}

#[test]
fn present_token_is_used() {
    assert_eq!(bot_token(Some("abc".to_string())), Ok("abc".to_string()));
}

#[test]
fn command_intents_are_privileged_with_content() {
    assert_eq!(command_intents(), 0x8102);
    let expected = GatewayIntents::privileged() | GatewayIntents::MESSAGE_CONTENT;
    assert_eq!(command_intents(), expected.bits());
}

#[test]
fn keyword_intents_cover_messages_with_content() {
    assert_eq!(keyword_intents(), 0x9200);
    let expected = GatewayIntents::GUILD_MESSAGES | GatewayIntents::DIRECT_MESSAGES | GatewayIntents::MESSAGE_CONTENT;
    assert_eq!(keyword_intents(), expected.bits());
}
