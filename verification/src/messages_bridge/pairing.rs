//! The pairing flow of the Google Messages bridge: the QR code the user
//! scans, the local page that shows it, and the answers of the local HTTP
//! server that serves the page.
//!
//! The server itself (its socket, its connections and its time-out) is the
//! caller's; this module composes what it sends.

use crate::text::{concat2, contains_seq, decimal, decimal_string, opt_view, owned, push_str, replace_all};
use vstd::prelude::*;
use vstd::string::StringSliceAdditionalSpecFns;
use vstd::utf8::encode_utf8;

verus! {

/// The placeholder of the page that the QR code's SVG replaces.
pub const QR_SVG_PLACEHOLDER: &'static str = "QR_SVG_PLACEHOLDER";

/// The page shown during pairing. `QR_SVG_PLACEHOLDER` is replaced with
/// the QR code's SVG before the page is served; an embedded script polls
/// `GET /status` every two seconds and shows success once the server
/// answers `{"paired":true}`.
pub const PAIRING_HTML: &'static str = r##"<!DOCTYPE html>
<html lang="en">
<head>
<meta charset="utf-8">
<meta name="viewport" content="width=device-width, initial-scale=1">
<title>ZeroAI — Pair Google Messages</title>
<style>
  * { margin: 0; padding: 0; box-sizing: border-box; }

  body {
    font-family: -apple-system, BlinkMacSystemFont, 'Segoe UI', sans-serif;
    background: #0f1729;
    color: #c8d6e5;
    display: flex;
    justify-content: center;
    align-items: center;
    min-height: 100vh;
  }

  .card {
    background: linear-gradient(145deg, #162038, #1a2744);
    border: 1px solid rgba(89, 166, 232, 0.15);
    border-radius: 20px;
    padding: 40px 36px;
    max-width: 420px;
    width: 100%;
    text-align: center;
    box-shadow:
      0 4px 24px rgba(0, 0, 0, 0.4),
      0 0 60px rgba(42, 111, 182, 0.06);
  }

  .mascot {
    image-rendering: pixelated;
    image-rendering: crisp-edges;
    width: 64px;
    height: 64px;
    margin: 0 auto 16px;
    display: block;
    animation: float 3s ease-in-out infinite;
  }

  @keyframes float {
    0%, 100% { transform: translateY(0); }
    50% { transform: translateY(-6px); }
  }

  h1 {
    font-size: 1.4rem;
    font-weight: 700;
    margin-bottom: 4px;
    color: #fff;
    letter-spacing: -0.01em;
  }

  .subtitle {
    font-size: 0.85rem;
    color: #7a8ba8;
    margin-bottom: 28px;
  }

  #qr-container {
    background: #ffffff;
    border-radius: 14px;
    padding: 20px;
    display: inline-block;
    margin-bottom: 24px;
    box-shadow: 0 2px 16px rgba(0, 0, 0, 0.2);
  }

  #qr-container svg { display: block; }

  .status {
    font-size: 0.9rem;
    font-weight: 500;
    padding: 10px 20px;
    border-radius: 10px;
    display: inline-flex;
    align-items: center;
    gap: 8px;
  }

  .status.waiting {
    background: rgba(89, 166, 232, 0.1);
    color: #59a6e8;
  }

  .status.paired {
    background: rgba(76, 175, 80, 0.12);
    color: #66bb6a;
  }

  @keyframes pulse {
    0%, 100% { opacity: 1; }
    50% { opacity: 0.4; }
  }

  .dot {
    width: 8px;
    height: 8px;
    border-radius: 50%;
    background: #59a6e8;
    animation: pulse 1.5s ease-in-out infinite;
  }

  .instructions {
    text-align: left;
    margin-top: 28px;
    font-size: 0.82rem;
    color: #5a6f8a;
    padding: 0 4px;
    counter-reset: steps;
    list-style: none;
  }

  .instructions li {
    margin-bottom: 10px;
    padding-left: 28px;
    position: relative;
    line-height: 1.5;
  }

  .instructions li::before {
    counter-increment: steps;
    content: counter(steps);
    position: absolute;
    left: 0;
    width: 20px;
    height: 20px;
    background: rgba(89, 166, 232, 0.12);
    color: #59a6e8;
    border-radius: 6px;
    font-size: 0.7rem;
    font-weight: 600;
    display: flex;
    align-items: center;
    justify-content: center;
  }

  .instructions strong { color: #8fabc8; }

  .footer {
    margin-top: 28px;
    font-size: 0.72rem;
    color: #3a4d66;
  }

  .tip {
    margin-top: 20px;
    padding: 10px 14px;
    background: rgba(255, 193, 7, 0.08);
    border: 1px solid rgba(255, 193, 7, 0.18);
    border-radius: 10px;
    font-size: 0.78rem;
    color: #b8a060;
    text-align: left;
    line-height: 1.5;
  }

  .tip strong { color: #d4b96a; }

  /* Success state */
  .success-card {
    background: linear-gradient(145deg, #162038, #1a2744);
    border: 1px solid rgba(76, 175, 80, 0.2);
    border-radius: 20px;
    padding: 48px 36px;
    max-width: 420px;
    width: 100%;
    text-align: center;
    box-shadow:
      0 4px 24px rgba(0, 0, 0, 0.4),
      0 0 60px rgba(76, 175, 80, 0.08);
  }

  .success-card h1 { color: #66bb6a; font-size: 1.5rem; margin-bottom: 8px; }
  .success-card .subtitle { color: #5a6f8a; margin-bottom: 0; }
</style>
</head>
<body>
<div class="card" id="main-card">
  <svg class="mascot" xmlns="http://www.w3.org/2000/svg" viewBox="0 0 16 16" shape-rendering="crispEdges">
    <path fill="#2A6FB6" d="M5 2h6v1h2v2h1v6h-1v2h-2v1H5v-1H3v-2H2V5h1V3h2V2z"/>
    <path fill="#59A6E8" d="M6 4h4v1h1v1h1v4h-1v1h-1v1H6v-1H5v-1H4V6h1V5h1V4z"/>
    <path fill="#FF4B4B" d="M4 6h1v1h1V6h1v2h-1v1h-1V8H4zm4 0h1v1h1V6h1v2h-1v1h-1V8H8z"/>
    <rect x="5" y="13" width="1" height="1" fill="#2A6FB6"/>
    <rect x="10" y="13" width="1" height="1" fill="#2A6FB6"/>
  </svg>
  <h1>Pair Google Messages</h1>
  <p class="subtitle">Scan this QR code with Google Messages on your phone</p>
  <div id="qr-container">QR_SVG_PLACEHOLDER</div>
  <div id="status" class="status waiting"><span class="dot"></span> Waiting for scan&hellip;</div>
  <ol class="instructions">
    <li>Open <strong>Google Messages</strong> on your phone</li>
    <li>Tap your <strong>profile icon</strong> &rarr; <strong>Device pairing</strong></li>
    <li>Tap <strong>QR code scanner</strong></li>
    <li>Point your phone at this QR code</li>
  </ol>
  <div class="tip">
    <strong>Trouble pairing?</strong> Turn off VPNs (Tailscale, WireGuard, etc.) on both your phone and this computer, then try again. VPNs can prevent the pairing handshake from completing.
  </div>
  <p class="footer">Served by ZeroAI on your local network</p>
</div>
<script>
(function() {
  var SLEEPY_ZERO =
    '<svg class="mascot" xmlns="http://www.w3.org/2000/svg" viewBox="0 0 16 16" ' +
    'shape-rendering="crispEdges" style="image-rendering:pixelated;width:80px;height:80px;' +
    'display:block;margin:0 auto 20px;animation:float 4s ease-in-out infinite">' +
    '<path fill="#2A6FB6" d="M5 2h6v1h2v2h1v6h-1v2h-2v1H5v-1H3v-2H2V5h1V3h2V2z"/>' +
    '<path fill="#59A6E8" d="M6 4h4v1h1v1h1v4h-1v1h-1v1H6v-1H5v-1H4V6h1V5h1V4z"/>' +
    '<rect x="5" y="8" width="2" height="1" fill="#09111B"/>' +
    '<rect x="9" y="8" width="2" height="1" fill="#09111B"/>' +
    '<rect x="5" y="13" width="1" height="1" fill="#2A6FB6"/>' +
    '<rect x="10" y="13" width="1" height="1" fill="#2A6FB6"/>' +
    '</svg>';

  var LOVE_ZERO =
    '<svg class="mascot" xmlns="http://www.w3.org/2000/svg" viewBox="0 0 16 16" ' +
    'shape-rendering="crispEdges" style="image-rendering:pixelated;width:80px;height:80px;' +
    'display:block;margin:0 auto 20px">' +
    '<path fill="#2A6FB6" d="M5 2h6v1h2v2h1v6h-1v2h-2v1H5v-1H3v-2H2V5h1V3h2V2z"/>' +
    '<path fill="#59A6E8" d="M6 4h4v1h1v1h1v4h-1v1h-1v1H6v-1H5v-1H4V6h1V5h1V4z"/>' +
    '<path fill="#FF4B4B" d="M4 6h1v1h1V6h1v2h-1v1h-1V8H4zm4 0h1v1h1V6h1v2h-1v1h-1V8H8z"/>' +
    '<rect x="5" y="13" width="1" height="1" fill="#2A6FB6"/>' +
    '<rect x="10" y="13" width="1" height="1" fill="#2A6FB6"/>' +
    '</svg>';

  var done = false;
  var lastOk = Date.now();

  function showDisconnected() {
    if (done) return;
    done = true;
    document.body.innerHTML =
      '<div class="success-card" style="border-color:rgba(89,166,232,0.12);' +
      'box-shadow:0 4px 24px rgba(0,0,0,0.4),0 0 60px rgba(42,111,182,0.06)">' +
      SLEEPY_ZERO +
      '<h1 style="color:#59a6e8">ZeroAI fell asleep</h1>' +
      '<p class="subtitle" style="margin-bottom:16px">' +
      'Lost connection to ZeroAI on your phone.<br>' +
      'The pairing server may have stopped or the session completed.</p>' +
      '<p class="subtitle" style="font-size:0.75rem;color:#3a4d66">' +
      'You can close this tab.</p></div>';
  }

  function showPaired() {
    if (done) return;
    done = true;
    var el = document.getElementById('status');
    if (el) {
      el.innerHTML = '\u2705 Paired successfully!';
      el.className = 'status paired';
    }
    setTimeout(function() {
      document.body.innerHTML =
        '<div class="success-card">' +
        LOVE_ZERO +
        '<h1>Paired!</h1>' +
        '<p class="subtitle">You can close this tab now.</p></div>';
    }, 2000);
  }

  /* Fast poll: check pairing status every 2s */
  var pollInterval = setInterval(function() {
    if (done) { clearInterval(pollInterval); return; }
    fetch('/status')
      .then(function(r) { lastOk = Date.now(); return r.json(); })
      .then(function(data) { if (data.paired) showPaired(); })
      .catch(function() {});
  }, 2000);

  /* Heartbeat: every 60s check if server is still reachable */
  var heartbeat = setInterval(function() {
    if (done) { clearInterval(heartbeat); return; }
    if (Date.now() - lastOk > 60000) {
      clearInterval(heartbeat);
      clearInterval(pollInterval);
      showDisconnected();
    }
  }, 10000);
})();
</script>
</body>
</html>"##;

/// A conversation of the bridge as the app shows it.
#[derive(Debug, Clone)]
pub struct FfiBridgedConversation {
    /// The conversation's id.
    pub id: String,
    /// Its display name.
    pub display_name: String,
    /// Whether it is a group conversation.
    pub is_group: bool,
    /// A preview of its last message.
    pub last_message_preview: String,
    /// When its last message was sent (epoch milliseconds).
    pub last_message_timestamp: i64,
    /// Whether the agent may read it.
    pub agent_allowed: bool,
    /// The earliest time the agent may see (epoch milliseconds).
    pub window_start: Option<i64>,
}

/// The state of the bridge's connection to the phone.
#[derive(Debug, Clone, PartialEq, Eq)]
pub enum BridgeStatus {
    /// Not paired with a phone.
    Unpaired,
    /// Waiting for the QR code to be scanned.
    AwaitingPairing,
    /// Connected to the phone.
    Connected,
    /// Reconnecting, with the attempt number.
    Reconnecting { attempt: u32 },
    /// The phone stopped answering.
    PhoneNotResponding,
}

/// The bridge status as the app shows it.
#[derive(Debug, Clone, PartialEq, Eq)]
pub enum FfiBridgeStatus {
    /// Not paired with a phone.
    Unpaired,
    /// Waiting for the QR code to be scanned, shown at the page URL.
    AwaitingPairing { qr_page_url: String },
    /// Connected to the phone.
    Connected,
    /// Reconnecting, with the attempt number.
    Reconnecting { attempt: u32 },
    /// The phone stopped answering.
    PhoneNotResponding,
}

/// The status the app is shown: while pairing, with the URL of the
/// pairing page when one is being served (empty otherwise).
pub fn status_to_ffi(status: &BridgeStatus, page_url: Option<&str>) -> (r: FfiBridgeStatus)
    ensures
        match *status {
            BridgeStatus::Unpaired => r is Unpaired,
            BridgeStatus::AwaitingPairing => r matches FfiBridgeStatus::AwaitingPairing { qr_page_url }
                && qr_page_url@ == (match page_url {
                Some(u) => u@,
                None => Seq::empty(),
            }),
            BridgeStatus::Connected => r is Connected,
            BridgeStatus::Reconnecting { attempt } => r == (FfiBridgeStatus::Reconnecting { attempt }),
            BridgeStatus::PhoneNotResponding => r is PhoneNotResponding,
        },
{
    match status {
        BridgeStatus::Unpaired => FfiBridgeStatus::Unpaired,
        BridgeStatus::AwaitingPairing => FfiBridgeStatus::AwaitingPairing {
            qr_page_url: match page_url {
                Some(u) => owned(u),
                None => String::new(),
            },
        },
        BridgeStatus::Connected => FfiBridgeStatus::Connected,
        BridgeStatus::Reconnecting { attempt } => FfiBridgeStatus::Reconnecting { attempt: *attempt },
        BridgeStatus::PhoneNotResponding => FfiBridgeStatus::PhoneNotResponding,
    }
}

/// The SVG of the QR code `qrcode` renders for a URL (error correction
/// level M) at a minimum of `min_dimension` by `min_dimension`, or `None`
/// when the URL is too long for any QR code.
pub uninterp spec fn qr_code_svg(url: Seq<char>, min_dimension: u32) -> Option<Seq<char>>;

/// The minimum width and height of the pairing QR code.
pub const QR_MIN_DIMENSION: u32 = 200;

/// Renders a URL as a QR code with `QrCode::new` and `render::<svg::Color>`
/// at a minimum of `min_dimension` by `min_dimension`. The claim: the
/// result is the named SVG of the URL at that size, `None` exactly when
/// `QrCode::new` fails (the data is too long).
#[verifier::external_body]
fn render_qr_svg(url: &str, min_dimension: u32) -> (r: Option<String>)
    ensures
        opt_view(r) == qr_code_svg(url@, min_dimension),
{
    match qrcode::QrCode::new(url.as_bytes()) {
        Ok(code) => Some(code.render::<qrcode::render::svg::Color>().min_dimensions(min_dimension, min_dimension).build()),
        Err(_) => None,
    }
}

/// The QR code of a pairing URL as SVG, or `None` when the URL is too long
/// for a QR code.
pub fn generate_qr_svg(url: &str) -> (r: Option<String>)
    ensures
        opt_view(r) == qr_code_svg(url@, QR_MIN_DIMENSION),
{
    render_qr_svg(url, QR_MIN_DIMENSION)
}

/// The pairing page with a QR code's SVG in place of the placeholder.
pub fn pairing_page(qr_svg: &str) -> (r: String)
    ensures
        r@ == replace_all(PAIRING_HTML@, QR_SVG_PLACEHOLDER@, qr_svg@),
{
    proof {
        reveal_strlit("QR_SVG_PLACEHOLDER");
    }
    crate::text::replace_str(PAIRING_HTML, QR_SVG_PLACEHOLDER, qr_svg)
}

/// An HTTP `200 OK` response that closes the connection, with the body's
/// length in bytes.
pub open spec fn ok_response(content_type: Seq<char>, body: Seq<char>) -> Seq<char> {
    "HTTP/1.1 200 OK\r\nContent-Type: "@ + content_type + "\r\nContent-Length: "@ + decimal(
        encode_utf8(body).len(),
    ) + "\r\nConnection: close\r\n\r\n"@ + body
}

/// Composes an HTTP `200 OK` response; see [`ok_response`].
pub fn http_ok_response(content_type: &str, body: &str) -> (r: String)
    ensures
        r@ == ok_response(content_type@, body@),
{
    let n = body.as_bytes().len();
    let mut r = concat2("HTTP/1.1 200 OK\r\nContent-Type: ", content_type);
    push_str(&mut r, "\r\nContent-Length: ");
    push_str(&mut r, decimal_string(n as u64).as_str());
    push_str(&mut r, "\r\nConnection: close\r\n\r\n");
    push_str(&mut r, body);
    r
}

/// The response to a request for the pairing page.
pub fn pairing_page_response(qr_svg: &str) -> (r: String)
    ensures
        r@ == ok_response(
            "text/html; charset=utf-8"@,
            replace_all(PAIRING_HTML@, QR_SVG_PLACEHOLDER@, qr_svg@),
        ),
{
    let page = pairing_page(qr_svg);
    http_ok_response("text/html; charset=utf-8", page.as_str())
}

/// The body of a status answer.
pub open spec fn status_body(paired: bool) -> Seq<char> {
    if paired {
        "{\"paired\":true}"@
    } else {
        "{\"paired\":false}"@
    }
}

/// The response to `GET /status`: whether the phone has paired.
pub fn status_response(paired: bool) -> (r: String)
    ensures
        r@ == ok_response("application/json"@, status_body(paired)),
{
    let body = if paired {
        "{\"paired\":true}"
    } else {
        "{\"paired\":false}"
    };
    http_ok_response("application/json", body)
}

/// Whether a request asks for the pairing status (it holds
/// `GET /status`); any other request gets the page.
pub fn is_status_request(request: &str) -> (r: bool)
    ensures
        r == contains_seq(request@, "GET /status"@),
{
    let c = crate::text::chars_of(request);
    let p = crate::text::chars_of("GET /status");
    crate::text::contains_chars(c.as_slice(), p.as_slice())
}

} // verus!
