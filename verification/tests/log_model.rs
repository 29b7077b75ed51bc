use telemetry_core::log::{Context, Level, Log, Message};

#[test]
fn new_log_empty_message() {
    let log = Log::new(
        Context::new("Onboarding".to_owned()),
        Message::new(String::new()),
        Level::Normal,
    );
    assert_eq!(log.message.message, "".to_owned());
}

#[test]
fn new_log_ctx() {
    let log = Log::new(
        Context::new("Onboarding".to_owned()),
        Message::new(String::new()),
        Level::Normal,
    );
    assert_eq!(log.context.ctx, "Onboarding".to_owned());
}

#[test]
fn new_log_level() {
    let log = Log::new(
        Context::new("Onboarding".to_owned()),
        Message::new(String::new()),
        Level::Normal,
    );
    assert_eq!(log.level, Level::Normal);
}

#[test]
fn display_level() {
    let log = Log::new(
        Context::new(String::new()),
        Message::new(String::new()),
        Level::Normal,
    );
    assert_eq!(log.level.name(), "Normal".to_owned());
}

#[test]
fn display_context() {
    let log = Log::new(
        Context::new("Context".to_owned()),
        Message::new(String::new()),
        Level::Normal,
    );
    assert_eq!(log.context.ctx.to_string(), "Context".to_owned());
}

#[test]
fn display_log() {
    let log = Log::new(
        Context::new("Context".to_owned()),
        Message::new(String::new()),
        Level::Normal,
    );
    assert_eq!(log.display_string(), format!("[Normal] {}: ", log.timestamp));
}

#[test]
fn display_message_is_body() {
    let message = Message::new("hello there".to_owned());
    assert_eq!(message.display_string(), "hello there".to_owned());
}

#[test]
fn new_log_keeps_all_parts() {
    let log = Log::new(
        Context::new("Search".to_owned()),
        Message::new("query failed".to_owned()),
        Level::Error,
    );
    assert_eq!(log.context.ctx, "Search".to_owned());
    assert_eq!(log.message.message, "query failed".to_owned());
    assert_eq!(log.level, Level::Error);
}

#[test]
fn message_ids_are_fresh_and_distinct() {
    let first = Message::new("same body".to_owned());
    let second = Message::new("same body".to_owned());
    assert_eq!(first.id().len(), 36);
    assert_eq!(second.id().len(), 36);
    assert_ne!(first.id(), second.id());
}

#[test]
fn level_names_follow_declaration_order() {
    assert_eq!(Level::Debug.name(), "Debug");
    assert_eq!(Level::Trace.name(), "Trace");
    assert_eq!(Level::Normal.name(), "Normal");
    assert_eq!(Level::Error.name(), "Error");
    assert_eq!(Level::Critical.name(), "Critical");
}
