use hospital_bridge::listener::{
    get_success_html, listener_step, CaptureError, ListenerAction, ListenerConfig, ListenerEvent,
    ListenerPhase,
};
use hospital_bridge::request_line::{code_in_request_line, line_is_complete};

fn code(line: &str) -> Option<String> {
    code_in_request_line(line)
}

#[test]
fn code_among_other_parameters() {
    assert_eq!(
        code("GET /callback?state=abc&code=VALUE123&scope=email HTTP/1.1\r\n"),
        Some("VALUE123".to_string())
    );
}

#[test]
fn code_as_first_parameter() {
    assert_eq!(code("GET /?code=4/0AbCd HTTP/1.1\r\n"), Some("4/0AbCd".to_string()));
}

#[test]
fn code_is_not_percent_decoded() {
    assert_eq!(code("GET /callback?code=a%2Fb%3D HTTP/1.1"), Some("a%2Fb%3D".to_string()));
}

#[test]
fn code_keeps_everything_after_first_equals() {
    assert_eq!(code("GET /cb?code=ab== HTTP/1.1"), Some("ab==".to_string()));
}

#[test]
fn first_piece_naming_code_wins() {
    assert_eq!(code("GET /cb?code=one&code=two HTTP/1.1"), Some("one".to_string()));
}

#[test]
fn empty_code_value() {
    assert_eq!(code("GET /cb?code=&state=1 HTTP/1.1"), Some("".to_string()));
}

#[test]
fn no_code_parameter() {
    assert_eq!(code("GET /callback?state=abc HTTP/1.1\r\n"), None);
}

#[test]
fn similar_parameter_is_not_code() {
    assert_eq!(code("GET /callback?state=1&xcode=9 HTTP/1.1"), None);
}

#[test]
fn line_without_target() {
    assert_eq!(code("GET"), None);
    assert_eq!(code(""), None);
    assert_eq!(code("   \r\n"), None);
}

#[test]
fn leading_and_repeated_blanks() {
    assert_eq!(code("  GET \t /?code=x7  HTTP/1.1"), Some("x7".to_string()));
}

#[test]
fn default_timeout_is_five_minutes() {
    let c = ListenerConfig::new(8765, None);
    assert_eq!(c.port, 8765);
    assert_eq!(c.timeout_secs, 300);
    assert_eq!(ListenerConfig::new(1, Some(5)).timeout_secs, 5);
}

fn run(events: Vec<ListenerEvent>) -> Vec<ListenerAction> {
    let mut phase = ListenerPhase::Binding;
    let mut actions = Vec::new();
    for e in events {
        let (next, action) = listener_step(phase, e);
        phase = next;
        actions.push(action);
    }
    actions
}

fn line(s: &str) -> ListenerEvent {
    ListenerEvent::LineRead { line: s.to_string() }
}

#[test]
fn successful_capture() {
    let actions = run(vec![
        ListenerEvent::Bound,
        ListenerEvent::Accepted,
        line("GET /callback?state=s&code=XYZ&scope=a HTTP/1.1\r\n"),
        ListenerEvent::Written,
    ]);
    assert!(matches!(actions[0], ListenerAction::Accept));
    assert!(matches!(actions[1], ListenerAction::ReadLine));
    assert!(matches!(actions[2], ListenerAction::SendPage));
    match &actions[3] {
        ListenerAction::Finish { outcome: Ok(c) } => assert_eq!(c, "XYZ"),
        other => panic!("unexpected {:?}", other),
    }
}

#[test]
fn missing_code_still_gets_page_then_parse_error() {
    let actions = run(vec![
        ListenerEvent::Bound,
        ListenerEvent::Accepted,
        line("GET /callback?state=abc HTTP/1.1\r\n"),
        ListenerEvent::Written,
    ]);
    assert!(matches!(actions[2], ListenerAction::SendPage));
    assert!(matches!(actions[3], ListenerAction::Finish { outcome: Err(CaptureError::Parse) }));
}

#[test]
fn timeout_while_waiting_for_connection() {
    let actions = run(vec![ListenerEvent::Bound, ListenerEvent::TimedOut, ListenerEvent::Accepted]);
    assert!(matches!(actions[1], ListenerAction::Finish { outcome: Err(CaptureError::Timeout) }));
    assert!(matches!(actions[2], ListenerAction::Ignore));
}

#[test]
fn timeout_while_reading() {
    let actions = run(vec![ListenerEvent::Bound, ListenerEvent::Accepted, ListenerEvent::TimedOut]);
    assert!(matches!(actions[2], ListenerAction::Finish { outcome: Err(CaptureError::Timeout) }));
}

#[test]
fn bind_failure() {
    let actions = run(vec![ListenerEvent::BindFailed, ListenerEvent::TimedOut]);
    assert!(matches!(actions[0], ListenerAction::Finish { outcome: Err(CaptureError::Bind) }));
    assert!(matches!(actions[1], ListenerAction::Ignore));
}

#[test]
fn accept_and_read_failures() {
    let a = run(vec![ListenerEvent::Bound, ListenerEvent::AcceptFailed]);
    assert!(matches!(a[1], ListenerAction::Finish { outcome: Err(CaptureError::Read) }));
    let b = run(vec![ListenerEvent::Bound, ListenerEvent::Accepted, ListenerEvent::ReadFailed]);
    assert!(matches!(b[2], ListenerAction::Finish { outcome: Err(CaptureError::Read) }));
}

#[test]
fn write_failure() {
    let actions = run(vec![
        ListenerEvent::Bound,
        ListenerEvent::Accepted,
        line("GET /?code=abc HTTP/1.1\r\n"),
        ListenerEvent::WriteFailed,
    ]);
    assert!(matches!(actions[3], ListenerAction::Finish { outcome: Err(CaptureError::Write) }));
}

#[test]
fn out_of_order_event_is_ignored() {
    let actions = run(vec![ListenerEvent::Written, ListenerEvent::Bound]);
    assert!(matches!(actions[0], ListenerAction::Ignore));
    assert!(matches!(actions[1], ListenerAction::Accept));
}

#[test]
fn success_page_is_html_200() {
    let page = get_success_html();
    assert!(page.starts_with("HTTP/1.1 200 OK"));
    assert!(page.contains("Content-Type: text/html"));
    assert!(page.contains("Authentication Successful!"));
}

#[test]
fn unicode_whitespace_separates_words() {
    assert_eq!(code("A\u{0B}?code=x\n"), Some("x".to_string()));
    assert_eq!(code("GET\u{A0}/cb?code=y\u{3000}HTTP/1.1"), Some("y".to_string()));
    assert_eq!(code("GET\u{2003}/cb?code=z\u{85}HTTP/1.1"), Some("z".to_string()));
}

#[test]
fn vertical_tab_line_gives_code() {
    let actions = run(vec![
        ListenerEvent::Bound,
        ListenerEvent::Accepted,
        line("A\u{0B}?code=x\n"),
        ListenerEvent::Written,
    ]);
    match &actions[3] {
        ListenerAction::Finish { outcome: Ok(c) } => assert_eq!(c, "x"),
        other => panic!("unexpected {:?}", other),
    }
}

#[test]
fn cut_off_line_is_read_failure() {
    let actions = run(vec![
        ListenerEvent::Bound,
        ListenerEvent::Accepted,
        line("GET /callback?code=abc HTTP/1.1"),
        ListenerEvent::Written,
    ]);
    assert!(matches!(actions[2], ListenerAction::Finish { outcome: Err(CaptureError::Read) }));
    assert!(matches!(actions[3], ListenerAction::Ignore));
}

#[test]
fn line_completeness() {
    assert!(line_is_complete("GET / HTTP/1.1\r\n"));
    assert!(line_is_complete("\n"));
    assert!(!line_is_complete(""));
    assert!(!line_is_complete("GET / HTTP/1.1\r"));
}
