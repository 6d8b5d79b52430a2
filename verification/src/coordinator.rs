//! The change coordinator's decisions. Each buffer-change notification is
//! reduced to one observed event; the coordinator decides whether the
//! buffer is written back, and maps the outcome to the OS-facing
//! handled/unhandled signal. Every failure leaves the buffer untouched and
//! passes the notification through.

use vstd::prelude::*;

use crate::rewrite::{rewrite, rewrite_spec, OutcomeModel, RewriteOutcome};
use crate::rules::{Config, RulePat};

verus! {

/// What one buffer-change notification observed: the buffer held no plain
/// text, access could not be acquired, the text could not be read, or the
/// text itself.
pub enum BufferEvent {
    NotText,
    AcquireFailed,
    ReadFailed,
    Text(String),
}

/// The observed event at the specification level.
pub enum EventModel {
    NotText,
    AcquireFailed,
    ReadFailed,
    Text(Seq<char>),
}

impl View for BufferEvent {
    type V = EventModel;

    open spec fn view(&self) -> EventModel {
        match self {
            BufferEvent::NotText => EventModel::NotText,
            BufferEvent::AcquireFailed => EventModel::AcquireFailed,
            BufferEvent::ReadFailed => EventModel::ReadFailed,
            BufferEvent::Text(t) => EventModel::Text(t@),
        }
    }
}

/// What the coordinator does with the buffer: nothing, or one write of the
/// rewritten text.
pub enum Decision {
    PassThrough,
    WriteBack(String),
}

/// The decision at the specification level.
pub enum DecisionModel {
    PassThrough,
    WriteBack(Seq<char>),
}

impl View for Decision {
    type V = DecisionModel;

    open spec fn view(&self) -> DecisionModel {
        match self {
            Decision::PassThrough => DecisionModel::PassThrough,
            Decision::WriteBack(s) => DecisionModel::WriteBack(s@),
        }
    }
}

/// The OS-facing result of one notification.
#[derive(Clone, Copy, Debug, PartialEq, Eq, Structural)]
pub enum Signal {
    Handled,
    NotHandled,
}

/// The commands the tray menu can select.
#[derive(Clone, Copy, Debug, PartialEq, Eq, Structural)]
pub enum MenuOptions {
    Exit,
}

/// The coordinator's decision: only readable plain text whose rewrite
/// changed it is written back; every failure and every unchanged text
/// passes through.
pub open spec fn decide_spec(rules: Seq<RulePat>, ev: EventModel) -> DecisionModel {
    match ev {
        EventModel::Text(t) => match rewrite_spec(rules, t) {
            OutcomeModel::Changed(s) => DecisionModel::WriteBack(s),
            OutcomeModel::Unchanged => DecisionModel::PassThrough,
        },
        _ => DecisionModel::PassThrough,
    }
}

/// Decides what to do with the buffer for one observed event. The second
/// clause is the recursion breaker: the OS re-notifies after a write-back,
/// and the written text, observed and decided again, always passes
/// through.
pub fn decide(config: &Config, event: &BufferEvent) -> (d: Decision)
    ensures
        d@ == decide_spec(config@, event@),
        d@ matches DecisionModel::WriteBack(s) ==> decide_spec(config@, EventModel::Text(s))
            == DecisionModel::PassThrough,
{
    match event {
        BufferEvent::Text(t) => match rewrite(config, t.as_str()) {
            RewriteOutcome::Changed(s) => Decision::WriteBack(s),
            RewriteOutcome::Unchanged => Decision::PassThrough,
        },
        _ => Decision::PassThrough,
    }
}

/// Maps the decision and the write's outcome to the OS-facing signal:
/// handled exactly when a write-back fully succeeded.
pub fn settle(d: &Decision, write_ok: bool) -> (s: Signal)
    ensures
        s == Signal::Handled <==> (d matches Decision::WriteBack(_) && write_ok),
{
    match d {
        Decision::WriteBack(_) => {
            if write_ok {
                Signal::Handled
            } else {
                Signal::NotHandled
            }
        },
        Decision::PassThrough => Signal::NotHandled,
    }
}

/// The pass-through code the embedding message loop returns to the OS:
/// zero exactly when the notification was handled.
pub fn signal_code(s: Signal) -> (c: isize)
    ensures
        s == Signal::Handled ==> c == 0,
        s != Signal::Handled ==> c == 1,
{
    match s {
        Signal::Handled => 0,
        Signal::NotHandled => 1,
    }
}

/// Maps a tray menu command id to the option it selects; the exit entry is
/// command 1.
pub fn menu_command(cmd: usize) -> (r: Option<MenuOptions>)
    ensures
        cmd == 1 ==> r == Some(MenuOptions::Exit),
        cmd != 1 ==> r is None,
{
    if cmd == 1 {
        Some(MenuOptions::Exit)
    } else {
        None
    }
}

} // verus!
