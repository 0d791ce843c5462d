use zeroai::clawboy::viewer::{is_websocket_request, viewer_page_response, VIEWER_HTML};

#[test]
fn websocket_upgrade_is_recognised_in_any_case() {
    let head = "GET / HTTP/1.1\r\nHost: 10.0.0.2:8432\r\nUpgrade: WebSocket\r\nConnection: Upgrade\r\n\r\n";
    assert!(is_websocket_request(head));
    assert!(is_websocket_request("upgrade: websocket"));
}

#[test]
fn plain_get_is_not_a_websocket_request() {
    assert!(!is_websocket_request("GET / HTTP/1.1\r\nHost: 10.0.0.2:8432\r\n\r\n"));
    assert!(!is_websocket_request(""));
}

#[test]
fn viewer_page_response_carries_the_page_and_its_byte_length() {
    let r = viewer_page_response();
    let head = format!(
        "HTTP/1.1 200 OK\r\nContent-Type: text/html; charset=utf-8\r\nContent-Length: {}\r\nConnection: close\r\n\r\n",
        VIEWER_HTML.len()
    );
    assert!(r.starts_with(&head));
    assert!(r.ends_with(VIEWER_HTML));
    assert_eq!(r.len(), head.len() + VIEWER_HTML.len());
    assert!(VIEWER_HTML.contains("<canvas"));
}
