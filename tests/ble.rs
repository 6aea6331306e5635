use std::cell::RefCell;
use std::sync::Mutex;

use m5_go::ble::{on_write, read_response, write_response, BleConfig, WriteOutcome};

type Observer = fn(&[u8]) -> Option<String>;

fn reverse(bytes: &[u8]) -> Option<String> {
    let reversed: Vec<u8> = bytes.iter().rev().cloned().collect();
    Some(String::from_utf8(reversed).unwrap())
}

fn silent(_bytes: &[u8]) -> Option<String> {
    None
}

#[test]
fn commands_come_back_last_in_first_out() {
    let mut config = BleConfig::<Observer>::new();
    config.send("a".to_string());
    config.send("b".to_string());
    assert_eq!(config.next_command(), Some("b".to_string()));
    assert_eq!(config.next_command(), Some("a".to_string()));
    assert_eq!(config.next_command(), None);
}

#[test]
fn read_of_empty_queue_answers_none() {
    let mut config = BleConfig::<Observer>::new();
    assert_eq!(read_response(config.next_command()), "NONE");
    config.send("go".to_string());
    assert_eq!(read_response(config.next_command()), "go");
    assert_eq!(read_response(config.next_command()), "NONE");
}

#[test]
fn observer_answer_is_sent_back() {
    let config = BleConfig::new().on_receive(reverse as Observer);
    assert_eq!(
        on_write(Some(&config), b"abc", false, true),
        WriteOutcome::Respond("cba".to_string())
    );
}

#[test]
fn closure_observer_is_called_with_the_bytes() {
    let config = BleConfig::new()
        .on_receive(|b: &[u8]| Some(format!("Received: {}", String::from_utf8_lossy(b))));
    assert_eq!(
        on_write(Some(&config), b"hi", false, true),
        WriteOutcome::Respond("Received: hi".to_string())
    );
    assert_eq!(config.observe(b"x"), Some("Received: x".to_string()));
}

#[test]
fn no_observer_gives_empty_reply() {
    let config = BleConfig::<Observer>::new();
    assert_eq!(config.observe(b"abc"), None);
    assert_eq!(
        on_write(Some(&config), b"abc", false, true),
        WriteOutcome::Respond(String::new())
    );
}

#[test]
fn observer_without_answer_gives_empty_reply() {
    let config = BleConfig::new().on_receive(silent as Observer);
    assert_eq!(
        on_write(Some(&config), b"abc", false, true),
        WriteOutcome::Respond(String::new())
    );
}

#[test]
fn write_without_response_request_sends_nothing() {
    let config = BleConfig::new().on_receive(reverse as Observer);
    assert_eq!(on_write(Some(&config), b"abc", false, false), WriteOutcome::NoResponse);
}

#[test]
fn prepared_write_is_refused() {
    let config = BleConfig::new().on_receive(reverse as Observer);
    assert_eq!(on_write(Some(&config), b"abc", true, true), WriteOutcome::Unsupported);
    assert_eq!(on_write::<Observer>(None, b"abc", true, false), WriteOutcome::Unsupported);
}

#[test]
fn write_response_cases() {
    assert_eq!(write_response(false, Some("x".to_string())), WriteOutcome::NoResponse);
    assert_eq!(write_response(true, Some("x".to_string())), WriteOutcome::Respond("x".to_string()));
    assert_eq!(write_response(true, None), WriteOutcome::Respond(String::new()));
}

#[test]
fn read_while_configuration_is_held_answers_none() {
    let mut config = BleConfig::<Observer>::new();
    config.send("queued".to_string());
    let shared = Mutex::new(RefCell::new(config));
    let held = shared.lock().unwrap();
    let next = shared.try_lock().ok().and_then(|c| c.borrow_mut().next_command());
    assert_eq!(read_response(next), "NONE");
    drop(held);
    let next = shared.try_lock().ok().and_then(|c| c.borrow_mut().next_command());
    assert_eq!(read_response(next), "queued");
}

#[test]
fn write_while_configuration_is_held_gives_empty_reply() {
    let shared = Mutex::new(RefCell::new(BleConfig::new().on_receive(reverse as Observer)));
    let _held = shared.lock().unwrap();
    let guard = shared.try_lock().ok();
    let borrowed = guard.as_ref().map(|g| g.borrow());
    assert!(borrowed.is_none());
    assert_eq!(
        on_write(borrowed.as_deref(), b"abc", false, true),
        WriteOutcome::Respond(String::new())
    );
}
