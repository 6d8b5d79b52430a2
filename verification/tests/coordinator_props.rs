use cleanweb::coordinator::{
    decide, menu_command, settle, signal_code, BufferEvent, Decision, MenuOptions, Signal,
};
use cleanweb::rules::load_rules;

fn written_text(d: Decision) -> String {
    match d {
        Decision::WriteBack(s) => s,
        Decision::PassThrough => panic!("expected a write-back"),
    }
}

fn assert_pass_through(d: Decision) {
    match d {
        Decision::PassThrough => {}
        Decision::WriteBack(s) => panic!("expected a pass-through, got {}", s),
    }
}

#[test]
fn failures_pass_through_without_writing() {
    let config = load_rules(None).expect("defaults should load");
    assert_pass_through(decide(&config, &BufferEvent::NotText));
    assert_pass_through(decide(&config, &BufferEvent::AcquireFailed));
    assert_pass_through(decide(&config, &BufferEvent::ReadFailed));
}

#[test]
fn unchanged_text_passes_through() {
    let config = load_rules(None).expect("defaults should load");
    let event = BufferEvent::Text("https://example.com/?keep=1".to_string());
    assert_pass_through(decide(&config, &event));
    let event = BufferEvent::Text("plain clipboard text".to_string());
    assert_pass_through(decide(&config, &event));
}

#[test]
fn changed_text_is_written_back_once_and_only_once() {
    let config = load_rules(None).expect("defaults should load");
    let event = BufferEvent::Text("https://twitter.com/u/status?t=abc&s=1&id=5".to_string());
    let written = written_text(decide(&config, &event));
    assert_eq!(written, "https://twitter.com/u/status?id=5");
    // The write-back re-notifies the coordinator; the rewritten text must
    // pass through, or the coordinator would re-trigger itself forever.
    assert_pass_through(decide(&config, &BufferEvent::Text(written)));
}

#[test]
fn settle_reports_handled_only_for_a_successful_write() {
    let write = Decision::WriteBack("https://example.com/".to_string());
    assert_eq!(settle(&write, true), Signal::Handled);
    assert_eq!(settle(&write, false), Signal::NotHandled);
    assert_eq!(settle(&Decision::PassThrough, true), Signal::NotHandled);
    assert_eq!(settle(&Decision::PassThrough, false), Signal::NotHandled);
}

#[test]
fn signal_codes_match_the_message_loop_convention() {
    assert_eq!(signal_code(Signal::Handled), 0);
    assert_eq!(signal_code(Signal::NotHandled), 1);
}

#[test]
fn menu_command_one_is_exit() {
    assert_eq!(menu_command(1), Some(MenuOptions::Exit));
    assert_eq!(menu_command(0), None);
    assert_eq!(menu_command(2), None);
}
