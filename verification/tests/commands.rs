use socs_bot::commands::{Command, CommandSpec, message_reply, parse_command};
use socs_bot::commands::{get_cache, get_cookie, latest, set_cookie};
use socs_bot::state::SharedState;

fn fresh_state() -> SharedState {
    SharedState::new(String::new(), 5)
}

#[test]
fn set_cookie_then_get_cookie_round_trip() {
    let mut s = fresh_state();
    let reply = set_cookie::run(&mut s, Some("a"), Some("b"));
    assert_eq!(reply, "COOKIE: a=b");
    let echoed = get_cookie::run(&s);
    assert!(echoed.contains("a=b"));
    assert_eq!(echoed, "COOKIE: a=b");
}

#[test]
fn set_cookie_with_missing_argument_is_rejected() {
    let mut s = fresh_state();
    let reply = set_cookie::run(&mut s, Some("a"), None);
    assert_eq!(reply, "Please provide a valid cookie string");
    assert_eq!(s.cookie, "");
    let reply2 = set_cookie::run(&mut s, None, Some("b"));
    assert_eq!(reply2, "Please provide a valid cookie string");
    assert_eq!(s.cookie, "");
}

#[test]
fn set_cookie_with_empty_argument_is_rejected() {
    let mut s = fresh_state();
    let reply = set_cookie::run(&mut s, Some(""), Some("b"));
    assert_eq!(reply, "Please provide a valid cookie string");
    let reply2 = set_cookie::run(&mut s, Some("a"), Some(""));
    assert_eq!(reply2, "Please provide a valid cookie string");
    assert_eq!(s.cookie, "");
}

#[test]
fn get_cookie_before_any_set_points_at_the_command() {
    let s = fresh_state();
    let reply = get_cookie::run(&s);
    assert_eq!(reply, "Please set a cookie first using the `/set_cookie` command");
}

#[test]
fn get_cache_on_empty_cache_reports_it() {
    let s = fresh_state();
    let reply = get_cache::run(&s);
    assert_eq!(
        reply,
        "Cache is empty (this is weird; probably means expired cookie)"
    );
}

#[test]
fn get_cache_renders_the_cached_list() {
    let mut s = fresh_state();
    s.element_cache = vec!["A".to_string(), "B".to_string()];
    let reply = get_cache::run(&s);
    assert_eq!(reply, "CACHE: [\"A\", \"B\"]");
}

#[test]
fn get_cache_renders_a_single_entry_without_separator() {
    let mut s = fresh_state();
    s.element_cache = vec!["Solo".to_string()];
    let reply = get_cache::run(&s);
    assert_eq!(reply, "CACHE: [\"Solo\"]");
}

#[test]
fn get_cache_escapes_entries_as_debug_formatting_does() {
    let mut s = fresh_state();
    s.element_cache = vec!["a\"b".to_string(), "c\\d".to_string(), "e\nf".to_string()];
    let reply = get_cache::run(&s);
    assert_eq!(reply, format!("CACHE: {:?}", s.element_cache));
    assert_eq!(reply, "CACHE: [\"a\\\"b\", \"c\\\\d\", \"e\\nf\"]");
}

#[test]
fn latest_on_empty_cache_sends_nothing() {
    let s = fresh_state();
    let outcome = latest::run(&s);
    assert_eq!(
        outcome.reply,
        "Cache is empty (this is weird; probably means expired cookie)"
    );
    assert!(outcome.to_send.is_none());
}

#[test]
fn latest_hands_the_cached_list_out_for_delivery() {
    let mut s = fresh_state();
    s.element_cache = vec!["A".to_string(), "B".to_string()];
    let outcome = latest::run(&s);
    assert_eq!(outcome.reply, "");
    assert_eq!(
        outcome.to_send,
        Some(vec!["A".to_string(), "B".to_string()])
    );
}

#[test]
fn command_names_map_to_their_operations() {
    assert_eq!(parse_command("set_cookie"), Some(Command::SetCookie));
    assert_eq!(parse_command("get_cookie"), Some(Command::GetCookie));
    assert_eq!(parse_command("get_cache"), Some(Command::GetCache));
    assert_eq!(parse_command("latest"), Some(Command::Latest));
    assert_eq!(parse_command("unknown"), None);
}

#[test]
fn greeting_message_is_answered() {
    assert_eq!(message_reply("!hello"), Some("world!".to_string()));
    assert_eq!(message_reply("hello"), None);
}

#[test]
fn registered_descriptors_match_the_commands() {
    let mut c = CommandSpec::new();
    set_cookie::register(&mut c);
    assert_eq!(c.name, "set_cookie");
    assert_eq!(c.description, "Set the cookie for client");
    assert_eq!(c.options.len(), 2);
    assert_eq!(c.options[0].name, "key");
    assert_eq!(c.options[0].description, "Cookie key");
    assert!(c.options[0].required);
    assert_eq!(c.options[1].name, "value");
    assert_eq!(c.options[1].description, "Cookie value");
    assert!(c.options[1].required);

    let mut c = CommandSpec::new();
    get_cookie::register(&mut c);
    assert_eq!(c.name, "get_cookie");
    assert_eq!(c.description, "Get the cookie from client");
    assert!(c.options.is_empty());

    let mut c = CommandSpec::new();
    get_cache::register(&mut c);
    assert_eq!(c.name, "get_cache");
    assert_eq!(c.description, "Get the cache of the element");
    assert!(c.options.is_empty());

    let mut c = CommandSpec::new();
    latest::register(&mut c);
    assert_eq!(c.name, "latest");
    assert_eq!(c.description, "Get the latest list of SOCS competitions");
    assert!(c.options.is_empty());
}
