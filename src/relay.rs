//! The relay: what the long-lived server does with each request.
//!
//! Each handler decides from plain values what event, if any, goes to the
//! application and what reply goes back. Reading a multipart body happens
//! field by field, so an upload is a small machine that the server feeds.
use vstd::prelude::*;

use base64::Engine;

use crate::text::str_equals;

verus! {

/// The name of the event that carries an uploaded image.
pub const SCAN_EVENT: &'static str = "scan-received";

/// The name of the event that carries an authorization code.
pub const OAUTH_EVENT: &'static str = "oauth-code-received";

/// The multipart field that holds the image.
pub const FILE_FIELD: &'static str = "file";

/// The type given to an image whose sender declared none.
pub const DEFAULT_IMAGE_MIME: &'static str = "image/jpeg";

pub const UPLOADED_BODY: &'static str = "Uploaded";

pub const NO_FILE_BODY: &'static str = "No file found";

pub const STATUS_OK: u16 = 200;

pub const STATUS_BAD_REQUEST: u16 = 400;

/// The base64 text (standard alphabet, with padding) of a byte string.
pub uninterp spec fn base64_of(b: Seq<u8>) -> Seq<char>;

/// Relies on base64's `Engine::encode` with the `STANDARD` engine: the text
/// depends on the bytes alone, four characters for each started group of
/// three bytes. The length computation panics only on overflow.
#[verifier::external_body]
fn encode_base64(b: &Vec<u8>) -> (r: String)
    requires
        b@.len() <= usize::MAX / 2,
    ensures
        r@ == base64_of(b@),
        r@.len() == 4 * ((b@.len() + 2) / 3),
{
    base64::engine::general_purpose::STANDARD.encode(b)
}

/// An event for the application's event bus.
#[derive(Debug)]
pub enum RelayEvent {
    /// An image arrived: its type and its bytes in base64.
    ScanReceived { mime: String, data: String },
    /// An authorization code arrived through the callback route.
    OAuthCode { code: String },
}

impl RelayEvent {
    /// The name under which the event is emitted.
    pub fn name(&self) -> (r: &'static str)
        ensures
            r@ == (if self is ScanReceived {
                SCAN_EVENT@
            } else {
                OAUTH_EVENT@
            }),
    {
        match self {
            RelayEvent::ScanReceived { .. } => SCAN_EVENT,
            RelayEvent::OAuthCode { .. } => OAUTH_EVENT,
        }
    }
}

/// A reply to an HTTP request: its status, whether the body is HTML, and the body.
#[derive(Clone, Copy, Debug)]
pub struct HttpReply {
    pub status: u16,
    pub html: bool,
    pub body: &'static str,
}

pub open spec fn is_reply(r: HttpReply, status: u16, html: bool, body: &'static str) -> bool {
    r.status == status && r.html == html && r.body@ == body@
}

/// The page served under `/scan`, from which a phone picks or takes a photo
/// and posts it to `/upload`.
pub const SCAN_PAGE: &'static str = r##"
<!DOCTYPE html>
<html lang="en">
<head>
    <meta charset="UTF-8">
    <meta name="viewport" content="width=device-width, initial-scale=1.0">
    <title>Scanner</title>
    <style>
        :root { --primary: #2563eb; --primary-hover: #1d4ed8; --secondary: #3f3f46; --bg: #09090b; --text: #fff; --error: #ef4444; --success: #22c55e; }
        body { background-color: var(--bg); color: var(--text); font-family: -apple-system, BlinkMacSystemFont, 'Segoe UI', Roboto, Helvetica, Arial, sans-serif; display: flex; flex-direction: column; align-items: center; justify-content: center; min-height: 100vh; margin: 0; padding: 20px; box-sizing: border-box; text-align: center; }
        h1 { margin-bottom: 2.5rem; font-size: 2rem; font-weight: 800; letter-spacing: -0.025em; }
        .container { width: 100%; max-width: 360px; display: flex; flex-direction: column; align-items: center; gap: 1.5rem; }
        
        /* Main View */
        .btn-group { display: flex; flex-direction: column; gap: 1.25rem; width: 100%; align-items: center; }
        .btn { display: flex; align-items: center; justify-content: center; gap: 12px; padding: 1.25rem; font-size: 1.1rem; border-radius: 16px; border: none; font-weight: 600; cursor: pointer; transition: transform 0.1s, background-color 0.2s; width: 100%; box-sizing: border-box; box-shadow: 0 4px 6px -1px rgba(0, 0, 0, 0.1), 0 2px 4px -1px rgba(0, 0, 0, 0.06); text-decoration: none; color: white; position: relative; overflow: hidden; }
        .btn-primary { background-color: var(--primary); }
        .btn-primary:active { background-color: var(--primary-hover); transform: scale(0.98); }
        .btn-secondary { background-color: var(--secondary); }
        .btn-secondary:active { transform: scale(0.98); opacity: 0.9; }
        .icon { width: 24px; height: 24px; }
        #status { font-size: 1rem; color: #a1a1aa; min-height: 1.5rem; }
        input { display: none; }
        
        /* Progress Bar */
        .progress-container { width: 100%; height: 6px; background: #27272a; border-radius: 99px; overflow: hidden; display: none; margin-top: 1rem; }
        .progress-bar { height: 100%; background: var(--primary); width: 0%; transition: width 0.1s linear; }

        /* Success View */
        #success-view { display: none; flex-direction: column; align-items: center; gap: 1.5rem; animation: fadeIn 0.5s ease-out; }
        .checkmark { width: 80px; height: 80px; background: var(--success); border-radius: 50%; display: flex; align-items: center; justify-content: center; box-shadow: 0 0 20px rgba(34, 197, 94, 0.4); margin-bottom: 1rem; }
        .checkmark svg { width: 40px; height: 40px; color: white; stroke-width: 3; }
        .success-text { font-size: 1.5rem; font-weight: 700; color: white; }
        .success-sub { color: #a1a1aa; }

        @keyframes fadeIn { from { opacity: 0; transform: translateY(10px); } to { opacity: 1; transform: translateY(0); } }
    </style>
</head>
<body>
    <div class="container" id="main-view">
        <h1>SGMC Scanner</h1>
        
        <div class="btn-group" id="controls">
            <label class="btn btn-primary">
                <svg class="icon" viewBox="0 0 24 24" fill="none" stroke="currentColor" stroke-width="2" stroke-linecap="round" stroke-linejoin="round"><path d="M23 19a2 2 0 0 1-2 2H3a2 2 0 0 1-2-2V8a2 2 0 0 1 2-2h4l2-3h6l2 3h4a2 2 0 0 1 2 2z"/><circle cx="12" cy="13" r="4"/></svg>
                <span>Take Photo</span>
                <input type="file" id="cam" accept="image/*" capture="environment">
            </label>

            <label class="btn btn-secondary">
                <svg class="icon" viewBox="0 0 24 24" fill="none" stroke="currentColor" stroke-width="2" stroke-linecap="round" stroke-linejoin="round"><rect x="3" y="3" width="18" height="18" rx="2" ry="2"/><circle cx="8.5" cy="8.5" r="1.5"/><polyline points="21 15 16 10 5 21"/></svg>
                <span>Upload from Gallery</span>
                <input type="file" id="gallery" accept="image/*">
            </label>
        </div>

        <div class="progress-container" id="progressContainer">
            <div class="progress-bar" id="progressBar"></div>
        </div>

        <p id="status">Ready to scan</p>
    </div>

    <div class="container" id="success-view">
        <div class="checkmark">
            <svg viewBox="0 0 24 24" fill="none" stroke="currentColor" stroke-linecap="round" stroke-linejoin="round"><polyline points="20 6 9 17 4 12"></polyline></svg>
        </div>
        <div>
            <div class="success-text">Upload Complete!</div>
            <div class="success-sub">The image has been sent to your PC.</div>
        </div>
        <p class="success-sub" style="margin-top: 1rem; font-size: 0.9rem;">You can now close this tab.</p>
    </div>

    <script>
        const mainView = document.getElementById('main-view');
        const successView = document.getElementById('success-view');
        const cam = document.getElementById('cam');
        const gallery = document.getElementById('gallery');
        const status = document.getElementById('status');
        const controls = document.getElementById('controls');
        const progressContainer = document.getElementById('progressContainer');
        const progressBar = document.getElementById('progressBar');

        const uploadFile = (file) => {
            if (!file) return;
            
            // UI Reset
            status.innerText = "Starting upload...";
            status.style.color = "#fbbf24"; // yellow
            progressContainer.style.display = 'block';
            progressBar.style.width = '0%';
            controls.style.opacity = '0.5';
            controls.style.pointerEvents = 'none';

            const fd = new FormData();
            fd.append('file', file);

            const xhr = new XMLHttpRequest();
            
            xhr.upload.addEventListener("progress", (e) => {
                if (e.lengthComputable) {
                    const percent = (e.loaded / e.total) * 100;
                    progressBar.style.width = percent + '%';
                    status.innerText = `Uploading... ${Math.round(percent)}%`;
                }
            });

            xhr.addEventListener("load", () => {
                if (xhr.status >= 200 && xhr.status < 300) {
                    // Show Success View
                    mainView.style.display = 'none';
                    successView.style.display = 'flex';
                } else {
                    handleError();
                }
            });

            xhr.addEventListener("error", handleError);
            xhr.open("POST", "/upload");
            xhr.send(fd);
        };

        const handleError = () => {
            status.innerText = "❌ Upload Failed";
            status.style.color = "var(--error)";
            progressBar.style.background = "var(--error)";
            controls.style.opacity = '1';
            controls.style.pointerEvents = 'auto';
        };

        cam.onchange = (e) => uploadFile(e.target.files[0]);
        gallery.onchange = (e) => uploadFile(e.target.files[0]);
    </script>
</body>
</html>
"##;

/// The page shown after an authorization code came in through `/oauth/callback`.
pub const OAUTH_PAGE: &'static str = r#"
<!DOCTYPE html>
<html lang="en">
<head>
    <meta charset="UTF-8">
    <meta name="viewport" content="width=device-width, initial-scale=1.0">
    <title>Authentication Successful</title>
    <style>
        * { margin: 0; padding: 0; box-sizing: border-box; }
        body {
            font-family: -apple-system, BlinkMacSystemFont, 'Segoe UI', Roboto, Oxygen, Ubuntu, Cantarell, sans-serif;
            display: flex; justify-content: center; align-items: center; min-height: 100vh;
            background: linear-gradient(135deg, #6b7280 0%, #4b5563 100%);
            overflow: hidden;
        }
        .container {
            text-align: center; background: rgba(255, 255, 255, 0.95); padding: 3rem 4rem;
            border-radius: 20px; box-shadow: 0 20px 60px rgba(0, 0, 0, 0.3);
            animation: slideIn 0.5s ease-out;
        }
        @keyframes slideIn { from { opacity: 0; transform: translateY(-30px); } to { opacity: 1; transform: translateY(0); } }
        .checkmark {
            width: 80px; height: 80px; border-radius: 50%; display: inline-block;
            background: linear-gradient(135deg, #6b7280 0%, #4b5563 100%);
            position: relative; margin-bottom: 1.5rem; animation: scaleIn 0.5s ease-out 0.2s both;
        }
        @keyframes scaleIn { from { transform: scale(0); } to { transform: scale(1); } }
        .checkmark::after {
            content: '✓'; position: absolute; top: 50%; left: 50%; transform: translate(-50%, -50%);
            color: white; font-size: 3rem; font-weight: bold;
        }
        h1 { color: #2d3748; font-size: 2rem; margin-bottom: 1rem; font-weight: 700; }
        p { color: #4a5568; font-size: 1.125rem; line-height: 1.6; margin-bottom: 0.5rem; }
        .auto-close { color: #718096; font-size: 0.875rem; margin-top: 1.5rem; }
    </style>
</head>
<body>
    <div class="container">
        <div class="checkmark"></div>
        <h1>Authentication Successful!</h1>
        <p>You have been successfully authenticated.</p>
        <p class="auto-close">You may now close this window.</p>
    </div>
</body>
</html>
    "#;

/// The reply to `GET /scan`.
pub fn get_scan_page() -> (r: HttpReply)
    ensures
        is_reply(r, STATUS_OK, true, SCAN_PAGE),
{
    HttpReply { status: STATUS_OK, html: true, body: SCAN_PAGE }
}

/// What `GET /oauth/callback?code=...` does: one event with the code, as it
/// came, and a success page.
pub fn oauth_callback(code: String) -> (r: (RelayEvent, HttpReply))
    ensures
        r.0 == (RelayEvent::OAuthCode { code }),
        is_reply(r.1, STATUS_OK, true, OAUTH_PAGE),
{
    (RelayEvent::OAuthCode { code }, HttpReply { status: STATUS_OK, html: true, body: OAUTH_PAGE })
}

/// Where the handling of an upload stands.
#[derive(Debug)]
pub enum UploadPhase {
    /// Looking for the field named `file`.
    Scanning,
    /// That field was found; its bytes are being read.
    Reading { mime: String },
    Done,
}

/// What reading the multipart body gave.
#[derive(Debug)]
pub enum UploadEvent {
    /// The next field, with its name and declared content type.
    Field { name: Option<String>, content_type: Option<String> },
    NoMoreFields,
    /// The body could not be read on to its next field.
    BodyFailed,
    /// The bytes of the current field.
    Bytes { data: Vec<u8> },
    /// The bytes of the current field could not be read.
    BytesFailed,
}

/// What the server is to do next with the upload.
#[derive(Debug)]
pub enum UploadAction {
    NextField,
    ReadBytes,
    /// Emit `event`, if any, and send `reply`: the upload is handled.
    Reply { event: Option<RelayEvent>, reply: HttpReply },
    /// The event does not fit the phase: nothing to do.
    Ignore,
}

/// Whether a field name is the one that carries the image.
pub open spec fn is_file_field(name: Option<String>) -> bool {
    name is Some && name->Some_0@ == FILE_FIELD@
}

/// The type recorded for an image: the declared one, else the default.
pub open spec fn mime_of(content_type: Option<String>) -> Seq<char> {
    match content_type {
        Some(t) => t@,
        None => DEFAULT_IMAGE_MIME@,
    }
}

pub open spec fn rejects(a: UploadAction) -> bool {
    a matches UploadAction::Reply { event: None, reply } && is_reply(
        reply,
        STATUS_BAD_REQUEST,
        false,
        NO_FILE_BODY,
    )
}

/// Whether `a` relays an image of type `mime` with bytes `data`, and says so.
pub open spec fn relays_scan(a: UploadAction, mime: Seq<char>, data: Seq<u8>) -> bool {
    a matches UploadAction::Reply { event: Some(RelayEvent::ScanReceived { mime: m, data: d }), reply }
        && m@ == mime && d@ == base64_of(data) && is_reply(reply, STATUS_OK, false, UPLOADED_BODY)
}

/// The transition relation of an upload.
pub open spec fn upload_steps_to(
    phase: UploadPhase,
    event: UploadEvent,
    next: UploadPhase,
    action: UploadAction,
) -> bool {
    match (phase, event) {
        (UploadPhase::Done, _) => next is Done && action is Ignore,
        (UploadPhase::Scanning, UploadEvent::Field { name, content_type }) => if is_file_field(
            name,
        ) {
            next is Reading && next->mime@ == mime_of(content_type) && action is ReadBytes
        } else {
            next is Scanning && action is NextField
        },
        (UploadPhase::Scanning, UploadEvent::NoMoreFields) => next is Done && rejects(action),
        (UploadPhase::Scanning, UploadEvent::BodyFailed) => next is Done && rejects(action),
        (UploadPhase::Reading { mime }, UploadEvent::Bytes { data }) => next is Done && relays_scan(
            action,
            mime@,
            data@,
        ),
        (UploadPhase::Reading { .. }, UploadEvent::BytesFailed) => next is Scanning
            && action is NextField,
        (p, _) => next == p && action is Ignore,
    }
}

/// Moves the handling of an upload on by one event.
pub fn upload_step(phase: UploadPhase, event: UploadEvent) -> (r: (UploadPhase, UploadAction))
    requires
        event is Bytes ==> event->data@.len() <= usize::MAX / 2,
    ensures
        upload_steps_to(phase, event, r.0, r.1),
{
    match (phase, event) {
        (UploadPhase::Done, _) => (UploadPhase::Done, UploadAction::Ignore),
        (UploadPhase::Scanning, UploadEvent::Field { name, content_type }) => {
            let found = match &name {
                Some(n) => str_equals(n.as_str(), FILE_FIELD),
                None => false,
            };
            if found {
                let mime = match content_type {
                    Some(t) => t,
                    None => String::from_str(DEFAULT_IMAGE_MIME),
                };
                (UploadPhase::Reading { mime }, UploadAction::ReadBytes)
            } else {
                (UploadPhase::Scanning, UploadAction::NextField)
            }
        },
        (UploadPhase::Scanning, UploadEvent::NoMoreFields) => (
            UploadPhase::Done,
            UploadAction::Reply {
                event: None,
                reply: HttpReply { status: STATUS_BAD_REQUEST, html: false, body: NO_FILE_BODY },
            },
        ),
        (UploadPhase::Scanning, UploadEvent::BodyFailed) => (
            UploadPhase::Done,
            UploadAction::Reply {
                event: None,
                reply: HttpReply { status: STATUS_BAD_REQUEST, html: false, body: NO_FILE_BODY },
            },
        ),
        (UploadPhase::Reading { mime }, UploadEvent::Bytes { data }) => {
            let encoded = encode_base64(&data);
            (
                UploadPhase::Done,
                UploadAction::Reply {
                    event: Some(RelayEvent::ScanReceived { mime, data: encoded }),
                    reply: HttpReply { status: STATUS_OK, html: false, body: UPLOADED_BODY },
                },
            )
        },
        (UploadPhase::Reading { .. }, UploadEvent::BytesFailed) => (
            UploadPhase::Scanning,
            UploadAction::NextField,
        ),
        (p, _) => (p, UploadAction::Ignore),
    }
}

} // verus!
