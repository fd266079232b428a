use base64::Engine;
use hospital_bridge::relay::{
    get_scan_page, oauth_callback, upload_step, HttpReply, RelayEvent, UploadAction, UploadEvent,
    UploadPhase,
};

fn field(name: Option<&str>, content_type: Option<&str>) -> UploadEvent {
    UploadEvent::Field {
        name: name.map(|s| s.to_string()),
        content_type: content_type.map(|s| s.to_string()),
    }
}

fn run(events: Vec<UploadEvent>) -> Vec<UploadAction> {
    let mut phase = UploadPhase::Scanning;
    let mut actions = Vec::new();
    for e in events {
        let (next, action) = upload_step(phase, e);
        phase = next;
        actions.push(action);
    }
    actions
}

fn decode(s: &str) -> Vec<u8> {
    base64::engine::general_purpose::STANDARD.decode(s).unwrap()
}

fn scan_of(action: &UploadAction) -> (String, String, HttpReply) {
    match action {
        UploadAction::Reply {
            event: Some(RelayEvent::ScanReceived { mime, data }),
            reply,
        } => (mime.clone(), data.clone(), *reply),
        other => panic!("no image relayed: {:?}", other),
    }
}

#[test]
fn png_upload_round_trips() {
    let bytes = vec![0x89u8, b'P', b'N', b'G', 0, 255, 7];
    let actions = run(vec![
        field(Some("file"), Some("image/png")),
        UploadEvent::Bytes { data: bytes.clone() },
    ]);
    assert!(matches!(actions[0], UploadAction::ReadBytes));
    let (mime, data, reply) = scan_of(&actions[1]);
    assert_eq!(mime, "image/png");
    assert_eq!(decode(&data), bytes);
    assert_eq!(reply.status, 200);
    assert_eq!(reply.body, "Uploaded");
}

#[test]
fn encoding_is_standard_base64() {
    let actions = run(vec![field(Some("file"), None), UploadEvent::Bytes { data: b"hello".to_vec() }]);
    let (_, data, _) = scan_of(&actions[1]);
    assert_eq!(data, "aGVsbG8=");
}

#[test]
fn missing_type_defaults_to_jpeg() {
    let actions = run(vec![field(Some("file"), None), UploadEvent::Bytes { data: vec![1, 2, 3] }]);
    let (mime, data, _) = scan_of(&actions[1]);
    assert_eq!(mime, "image/jpeg");
    assert_eq!(data, "AQID");
}

#[test]
fn empty_file_is_relayed() {
    let actions = run(vec![field(Some("file"), Some("image/gif")), UploadEvent::Bytes { data: vec![] }]);
    let (mime, data, _) = scan_of(&actions[1]);
    assert_eq!(mime, "image/gif");
    assert_eq!(data, "");
}

#[test]
fn other_fields_are_skipped() {
    let actions = run(vec![
        field(Some("note"), Some("text/plain")),
        field(None, None),
        field(Some("file"), Some("image/png")),
        UploadEvent::Bytes { data: vec![9] },
    ]);
    assert!(matches!(actions[0], UploadAction::NextField));
    assert!(matches!(actions[1], UploadAction::NextField));
    assert!(matches!(actions[2], UploadAction::ReadBytes));
    let (mime, data, _) = scan_of(&actions[3]);
    assert_eq!(mime, "image/png");
    assert_eq!(decode(&data), vec![9]);
}

fn assert_rejected(action: &UploadAction) {
    match action {
        UploadAction::Reply { event: None, reply } => {
            assert_eq!(reply.status, 400);
            assert_eq!(reply.body, "No file found");
        }
        other => panic!("not rejected: {:?}", other),
    }
}

#[test]
fn no_file_field_is_rejected() {
    let actions = run(vec![field(Some("photo"), Some("image/png")), UploadEvent::NoMoreFields]);
    assert!(matches!(actions[0], UploadAction::NextField));
    assert_rejected(&actions[1]);
}

#[test]
fn empty_body_is_rejected() {
    let actions = run(vec![UploadEvent::NoMoreFields]);
    assert_rejected(&actions[0]);
}

#[test]
fn unreadable_body_is_rejected() {
    let actions = run(vec![UploadEvent::BodyFailed]);
    assert_rejected(&actions[0]);
}

#[test]
fn unreadable_file_bytes_move_on() {
    let actions = run(vec![
        field(Some("file"), Some("image/png")),
        UploadEvent::BytesFailed,
        UploadEvent::NoMoreFields,
    ]);
    assert!(matches!(actions[1], UploadAction::NextField));
    assert_rejected(&actions[2]);
}

#[test]
fn upload_is_answered_once() {
    let actions = run(vec![
        field(Some("file"), None),
        UploadEvent::Bytes { data: vec![1] },
        field(Some("file"), None),
        UploadEvent::NoMoreFields,
    ]);
    assert!(matches!(actions[2], UploadAction::Ignore));
    assert!(matches!(actions[3], UploadAction::Ignore));
}

#[test]
fn many_uploads_each_relayed() {
    let mut seen = Vec::new();
    for i in 0..16u8 {
        let payload = vec![i, i.wrapping_mul(3), 200 - i];
        let actions = run(vec![
            field(Some("file"), Some("image/png")),
            UploadEvent::Bytes { data: payload.clone() },
        ]);
        let (mime, data, _) = scan_of(&actions[1]);
        assert_eq!(mime, "image/png");
        assert_eq!(decode(&data), payload);
        seen.push(data);
    }
    assert_eq!(seen.len(), 16);
    seen.sort();
    seen.dedup();
    assert_eq!(seen.len(), 16);
}

#[test]
fn oauth_callback_emits_code() {
    let (event, reply) = oauth_callback("XYZ".to_string());
    assert_eq!(event.name(), "oauth-code-received");
    match event {
        RelayEvent::OAuthCode { code } => assert_eq!(code, "XYZ"),
        other => panic!("unexpected {:?}", other),
    }
    assert_eq!(reply.status, 200);
    assert!(reply.html);
    assert!(reply.body.contains("Authentication Successful!"));
}

#[test]
fn scan_event_name() {
    let actions = run(vec![field(Some("file"), None), UploadEvent::Bytes { data: vec![0] }]);
    match &actions[1] {
        UploadAction::Reply { event: Some(e), .. } => assert_eq!(e.name(), "scan-received"),
        other => panic!("unexpected {:?}", other),
    }
}

#[test]
fn scan_page_is_html_200() {
    let reply = get_scan_page();
    assert_eq!(reply.status, 200);
    assert!(reply.html);
    assert!(reply.body.contains("/upload"));
    assert!(reply.body.contains("<!DOCTYPE html>"));
}

#[test]
fn every_byte_value_round_trips() {
    let bytes: Vec<u8> = (0..=255u8).collect();
    let actions = run(vec![field(Some("file"), Some("image/png")), UploadEvent::Bytes { data: bytes.clone() }]);
    let (_, data, _) = scan_of(&actions[1]);
    assert_eq!(data.len(), 4 * ((256 + 2) / 3));
    assert_eq!(decode(&data), bytes);
}

#[test]
fn every_padding_length_round_trips() {
    for n in 0..10usize {
        let bytes: Vec<u8> = (0..n).map(|i| (i * 37 + 11) as u8).collect();
        let actions = run(vec![field(Some("file"), None), UploadEvent::Bytes { data: bytes.clone() }]);
        let (_, data, _) = scan_of(&actions[1]);
        assert_eq!(data.len(), 4 * ((n + 2) / 3));
        assert_eq!(decode(&data), bytes);
    }
}
