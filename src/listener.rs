//! The one-shot callback listener, as a machine that decides.
//!
//! The caller binds a loopback port, accepts one connection, reads the first
//! request line and writes back a fixed page; after each of those steps it
//! hands the machine what happened and performs the action it gets back. A
//! timeout may end the attempt at any point before it is finished.
use vstd::prelude::*;

use crate::request_line::{code_in_line, code_in_request_line, is_complete_line, line_is_complete};

verus! {

/// Seconds a capture attempt waits when the caller names no bound.
pub const DEFAULT_TIMEOUT_SECS: u64 = 300;

/// Why a capture attempt ended without a code.
#[derive(Clone, Copy, Debug, PartialEq, Eq, Structural)]
pub enum CaptureError {
    /// The port could not be bound.
    Bind,
    /// No whole request line could be read (no connection, or it dropped
    /// before the line's newline).
    Read,
    /// The request line carries no code.
    Parse,
    /// The page could not be written back.
    Write,
    /// Nothing arrived within the bound.
    Timeout,
}

/// What a single capture attempt is given.
#[derive(Clone, Copy, Debug, PartialEq, Eq, Structural)]
pub struct ListenerConfig {
    pub port: u16,
    pub timeout_secs: u64,
}

impl ListenerConfig {
    /// A configuration for `port`, waiting `timeout_seconds` or the default.
    pub fn new(port: u16, timeout_seconds: Option<u64>) -> (r: ListenerConfig)
        ensures
            r.port == port,
            r.timeout_secs == match timeout_seconds {
                Some(t) => t,
                None => DEFAULT_TIMEOUT_SECS,
            },
    {
        let timeout_secs = match timeout_seconds {
            Some(t) => t,
            None => DEFAULT_TIMEOUT_SECS,
        };
        ListenerConfig { port, timeout_secs }
    }
}

/// Where a capture attempt stands.
#[derive(Debug)]
pub enum ListenerPhase {
    Binding,
    Accepting,
    Reading,
    /// The page is being written; the line read is kept to be parsed.
    Responding { line: String },
    Finished,
}

/// What the caller reports after performing an action.
#[derive(Debug)]
pub enum ListenerEvent {
    Bound,
    BindFailed,
    Accepted,
    AcceptFailed,
    /// What was read of the first line: up to and with its newline, or up
    /// to where the connection ended.
    LineRead { line: String },
    ReadFailed,
    Written,
    WriteFailed,
    TimedOut,
}

/// What the caller is to do next.
#[derive(Debug)]
pub enum ListenerAction {
    Accept,
    ReadLine,
    /// Write the fixed success page to the connection.
    SendPage,
    /// Release the port and hand `outcome` to whoever started the attempt.
    Finish { outcome: Result<String, CaptureError> },
    /// The event does not fit the phase: nothing to do.
    Ignore,
}

pub open spec fn fails_with(a: ListenerAction, e: CaptureError) -> bool {
    a == (ListenerAction::Finish { outcome: Err(e) })
}

/// Whether `outcome` is what a parsed line gives: its code, or a parse error.
pub open spec fn outcome_of_line(outcome: Result<String, CaptureError>, line: Seq<char>) -> bool {
    match code_in_line(line) {
        Some(c) => outcome is Ok && outcome->Ok_0@ == c,
        None => outcome == Err::<String, CaptureError>(CaptureError::Parse),
    }
}

/// The transition relation of a capture attempt.
pub open spec fn steps_to(
    phase: ListenerPhase,
    event: ListenerEvent,
    next: ListenerPhase,
    action: ListenerAction,
) -> bool {
    if phase is Finished {
        next is Finished && action is Ignore
    } else if event is TimedOut {
        next is Finished && fails_with(action, CaptureError::Timeout)
    } else {
        match (phase, event) {
            (ListenerPhase::Binding, ListenerEvent::Bound) => next is Accepting && action is Accept,
            (ListenerPhase::Binding, ListenerEvent::BindFailed) => next is Finished && fails_with(
                action,
                CaptureError::Bind,
            ),
            (ListenerPhase::Accepting, ListenerEvent::Accepted) => next is Reading
                && action is ReadLine,
            (ListenerPhase::Accepting, ListenerEvent::AcceptFailed) => next is Finished
                && fails_with(action, CaptureError::Read),
            (ListenerPhase::Reading, ListenerEvent::LineRead { line }) => if is_complete_line(
                line@,
            ) {
                next == (ListenerPhase::Responding { line }) && action is SendPage
            } else {
                next is Finished && fails_with(action, CaptureError::Read)
            },
            (ListenerPhase::Reading, ListenerEvent::ReadFailed) => next is Finished && fails_with(
                action,
                CaptureError::Read,
            ),
            (ListenerPhase::Responding { line }, ListenerEvent::Written) => next is Finished
                && action is Finish && outcome_of_line(action->outcome, line@),
            (ListenerPhase::Responding { .. }, ListenerEvent::WriteFailed) => next is Finished
                && fails_with(action, CaptureError::Write),
            (p, _) => next == p && action is Ignore,
        }
    }
}

/// Moves a capture attempt on by one event.
pub fn listener_step(phase: ListenerPhase, event: ListenerEvent) -> (r: (
    ListenerPhase,
    ListenerAction,
))
    ensures
        steps_to(phase, event, r.0, r.1),
{
    if let ListenerPhase::Finished = phase {
        return (ListenerPhase::Finished, ListenerAction::Ignore);
    }
    if let ListenerEvent::TimedOut = event {
        return (
            ListenerPhase::Finished,
            ListenerAction::Finish { outcome: Err(CaptureError::Timeout) },
        );
    }
    match (phase, event) {
        (ListenerPhase::Binding, ListenerEvent::Bound) => (
            ListenerPhase::Accepting,
            ListenerAction::Accept,
        ),
        (ListenerPhase::Binding, ListenerEvent::BindFailed) => (
            ListenerPhase::Finished,
            ListenerAction::Finish { outcome: Err(CaptureError::Bind) },
        ),
        (ListenerPhase::Accepting, ListenerEvent::Accepted) => (
            ListenerPhase::Reading,
            ListenerAction::ReadLine,
        ),
        (ListenerPhase::Accepting, ListenerEvent::AcceptFailed) => (
            ListenerPhase::Finished,
            ListenerAction::Finish { outcome: Err(CaptureError::Read) },
        ),
        (ListenerPhase::Reading, ListenerEvent::LineRead { line }) => {
            if line_is_complete(line.as_str()) {
                (ListenerPhase::Responding { line }, ListenerAction::SendPage)
            } else {
                (
                    ListenerPhase::Finished,
                    ListenerAction::Finish { outcome: Err(CaptureError::Read) },
                )
            }
        },
        (ListenerPhase::Reading, ListenerEvent::ReadFailed) => (
            ListenerPhase::Finished,
            ListenerAction::Finish { outcome: Err(CaptureError::Read) },
        ),
        (ListenerPhase::Responding { line }, ListenerEvent::Written) => {
            let outcome = match code_in_request_line(line.as_str()) {
                Some(code) => Ok(code),
                None => Err(CaptureError::Parse),
            };
            (ListenerPhase::Finished, ListenerAction::Finish { outcome })
        },
        (ListenerPhase::Responding { .. }, ListenerEvent::WriteFailed) => (
            ListenerPhase::Finished,
            ListenerAction::Finish { outcome: Err(CaptureError::Write) },
        ),
        (p, _) => (p, ListenerAction::Ignore),
    }
}

/// The full HTTP response written back to the browser that was redirected.
pub const SUCCESS_RESPONSE: &'static str = r#"HTTP/1.1 200 OK
Content-Type: text/html


<!DOCTYPE html>
<html lang="en">
<head>
    <meta charset="UTF-8">
    <meta name="viewport" content="width=device-width, initial-scale=1.0">
    <title>Authentication Successful</title>
    <style>
        * {
            margin: 0;
            padding: 0;
            box-sizing: border-box;
        }
        body {
            font-family: -apple-system, BlinkMacSystemFont, 'Segoe UI', Roboto, Oxygen, Ubuntu, Cantarell, sans-serif;
            display: flex;
            justify-content: center;
            align-items: center;
            min-height: 100vh;
            background: linear-gradient(135deg, #6b7280 0%, #4b5563 100%);
            overflow: hidden;
        }
        .container {
            text-align: center;
            background: rgba(255, 255, 255, 0.95);
            padding: 3rem 4rem;
            border-radius: 20px;
            box-shadow: 0 20px 60px rgba(0, 0, 0, 0.3);
            animation: slideIn 0.5s ease-out;
        }
        @keyframes slideIn {
            from {
                opacity: 0;
                transform: translateY(-30px);
            }
            to {
                opacity: 1;
                transform: translateY(0);
            }
        }
        .checkmark {
            width: 80px;
            height: 80px;
            border-radius: 50%;
            display: inline-block;
            background: linear-gradient(135deg, #6b7280 0%, #4b5563 100%);
            position: relative;
            margin-bottom: 1.5rem;
            animation: scaleIn 0.5s ease-out 0.2s both;
        }
        @keyframes scaleIn {
            from {
                transform: scale(0);
            }
            to {
                transform: scale(1);
            }
        }
        .checkmark::after {
            content: '✓';
            position: absolute;
            top: 50%;
            left: 50%;
            transform: translate(-50%, -50%);
            color: white;
            font-size: 3rem;
            font-weight: bold;
        }
        h1 {
            color: #2d3748;
            font-size: 2rem;
            margin-bottom: 1rem;
            font-weight: 700;
        }
        p {
            color: #4a5568;
            font-size: 1.125rem;
            line-height: 1.6;
            margin-bottom: 0.5rem;
        }
        .auto-close {
            color: #718096;
            font-size: 0.875rem;
            margin-top: 1.5rem;
        }
    </style>
</head>
<body>
    <div class="container">
        <div class="checkmark"></div>
        <h1>Authentication Successful!</h1>
        <p>You have been successfully authenticated.</p>
        <p class="auto-close">You may now close this window.</p>
    </div>
</body>
</html>"#;

/// The fixed response of a capture attempt: a 200 with an HTML page.
pub fn get_success_html() -> (r: &'static str)
    ensures
        r@ == SUCCESS_RESPONSE@,
{
    SUCCESS_RESPONSE
}

} // verus!
