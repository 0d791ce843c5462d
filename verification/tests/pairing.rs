use zeroai::messages_bridge::pairing::{
    generate_qr_svg, http_ok_response, is_status_request, pairing_page, pairing_page_response,
    status_response, status_to_ffi, BridgeStatus, FfiBridgeStatus, PAIRING_HTML,
};

#[test]
fn messages_bridge_generate_qr_svg_produces_svg_markup() {
    let svg = generate_qr_svg("https://example.com/pair?token=abc123").unwrap();
    assert!(svg.contains("<svg"), "output should contain an SVG element");
}

#[test]
fn messages_bridge_pairing_html_contains_placeholder() {
    assert!(
        PAIRING_HTML.contains("QR_SVG_PLACEHOLDER"),
        "PAIRING_HTML must contain the QR_SVG_PLACEHOLDER token"
    );
}

#[test]
fn messages_bridge_pairing_html_placeholder_replaced() {
    let html = PAIRING_HTML.replace("QR_SVG_PLACEHOLDER", "<svg/>");
    assert!(html.contains("<svg/>"), "placeholder should be replaced");
    assert!(!html.contains("QR_SVG_PLACEHOLDER"), "placeholder should be gone");
}

#[test]
fn messages_bridge_tests_generate_qr_svg_produces_svg_markup() {
    let svg = generate_qr_svg("https://example.com/pair?token=abc123").unwrap();
    assert!(svg.contains("<svg"), "output should contain an SVG element");
}

#[test]
fn messages_bridge_tests_pairing_html_contains_placeholder() {
    assert!(
        PAIRING_HTML.contains("QR_SVG_PLACEHOLDER"),
        "PAIRING_HTML must contain the QR_SVG_PLACEHOLDER token"
    );
}

#[test]
fn messages_bridge_tests_pairing_html_placeholder_replaced() {
    let html = pairing_page("<svg/>");
    assert!(html.contains("<svg/>"), "placeholder should be replaced");
    assert!(!html.contains("QR_SVG_PLACEHOLDER"), "placeholder should be gone");
    assert_eq!(html, PAIRING_HTML.replace("QR_SVG_PLACEHOLDER", "<svg/>"));
}

#[test]
fn qr_code_refuses_data_that_does_not_fit() {
    assert!(generate_qr_svg(&"x".repeat(8000)).is_none());
}

#[test]
fn http_answers_of_the_pairing_server() {
    assert_eq!(
        http_ok_response("text/plain", "hé"),
        "HTTP/1.1 200 OK\r\nContent-Type: text/plain\r\nContent-Length: 3\r\nConnection: close\r\n\r\nhé"
    );
    assert_eq!(
        status_response(true),
        "HTTP/1.1 200 OK\r\nContent-Type: application/json\r\nContent-Length: 15\r\nConnection: close\r\n\r\n{\"paired\":true}"
    );
    assert!(status_response(false).ends_with("{\"paired\":false}"));
    let page = pairing_page_response("<svg/>");
    assert!(page.starts_with("HTTP/1.1 200 OK\r\nContent-Type: text/html; charset=utf-8\r\n"));
    assert!(page.ends_with("</html>"));
    assert!(is_status_request("GET /status HTTP/1.1\r\n"));
    assert!(!is_status_request("GET / HTTP/1.1\r\n"));
}

#[test]
fn bridge_status_for_the_app() {
    assert_eq!(status_to_ffi(&BridgeStatus::Connected, None), FfiBridgeStatus::Connected);
    assert_eq!(
        status_to_ffi(&BridgeStatus::AwaitingPairing, Some("http://10.0.0.2:4000")),
        FfiBridgeStatus::AwaitingPairing { qr_page_url: "http://10.0.0.2:4000".into() }
    );
    assert_eq!(
        status_to_ffi(&BridgeStatus::AwaitingPairing, None),
        FfiBridgeStatus::AwaitingPairing { qr_page_url: String::new() }
    );
    assert_eq!(
        status_to_ffi(&BridgeStatus::Reconnecting { attempt: 3 }, None),
        FfiBridgeStatus::Reconnecting { attempt: 3 }
    );
}
