use brain_coordinator::permissions::PermissionRegistry;
use brain_coordinator::ui::{
    content_length, error_response, html_response, is_end_of_headers, json_response, not_found,
    parse_request_line, route, split_target, status_text, toggle_error_message, toggle_permission,
    Route, ToggleError, UiConfig,
};

#[test]
fn default_ui_port() {
    assert_eq!(UiConfig::default().port, 9876);
}

#[test]
fn status_texts() {
    assert_eq!(status_text(200), "OK");
    assert_eq!(status_text(404), "Not Found");
    assert_eq!(status_text(405), "Method Not Allowed");
    assert_eq!(status_text(418), "Unknown");
}

#[test]
fn json_response_frames_body() {
    let r = json_response("{\"a\":1}");
    let s = String::from_utf8(r).unwrap();
    assert_eq!(
        s,
        "HTTP/1.1 200 OK\r\nContent-Type: application/json\r\nAccess-Control-Allow-Origin: *\r\nContent-Length: 7\r\nConnection: close\r\n\r\n{\"a\":1}"
    );
}

#[test]
fn html_response_counts_bytes_not_chars() {
    let r = html_response("é");
    let s = String::from_utf8(r).unwrap();
    assert!(s.starts_with("HTTP/1.1 200 OK\r\nContent-Type: text/html; charset=utf-8\r\nContent-Length: 2\r\n"));
    assert!(s.ends_with("\r\n\r\né"));
}

#[test]
fn error_and_not_found_responses() {
    let s = String::from_utf8(error_response(400, "bad")).unwrap();
    assert!(s.starts_with("HTTP/1.1 400 Bad Request\r\n"));
    assert!(s.contains("Content-Length: 15\r\n"));
    assert!(s.ends_with("{\"error\":\"bad\"}"));
    let n = String::from_utf8(not_found()).unwrap();
    assert!(n.starts_with("HTTP/1.1 404 Not Found\r\n"));
    assert!(n.ends_with("{\"error\":\"not found\"}"));
}

#[test]
fn request_line_and_headers() {
    assert_eq!(
        parse_request_line("GET /api/status HTTP/1.1"),
        Some(("GET".to_string(), "/api/status".to_string()))
    );
    assert_eq!(parse_request_line("GET"), None);
    assert!(is_end_of_headers("\r\n"));
    assert!(!is_end_of_headers("Host: x\r\n"));
    assert_eq!(content_length("Content-Length: 42\r\n"), Some(42));
    assert_eq!(content_length("content-length: abc"), Some(0));
    assert_eq!(content_length("Host: localhost"), None);
}

#[test]
fn target_split_at_question_mark() {
    assert_eq!(
        split_target("/api/explain?name=Ana"),
        ("/api/explain".to_string(), "name=Ana".to_string())
    );
    assert_eq!(split_target("/api/status"), ("/api/status".to_string(), String::new()));
}

#[test]
fn routes() {
    assert_eq!(route("GET", "/"), Route::Index);
    assert_eq!(route("GET", "/api/status"), Route::Status);
    assert_eq!(route("POST", "/api/permissions"), Route::TogglePermission);
    assert_eq!(route("POST", "/chat"), Route::Chat);
    assert_eq!(route("GET", "/chat"), Route::NotFound);
    assert_eq!(route("DELETE", "/api/status"), Route::NotFound);
}

#[test]
fn permission_toggle_from_ui() {
    let mut reg = PermissionRegistry::new();
    assert_eq!(
        toggle_permission(&mut reg, None, Some("granted")),
        Err(ToggleError::MissingSource)
    );
    assert_eq!(
        toggle_permission(&mut reg, Some("desktop"), None),
        Err(ToggleError::MissingState)
    );
    assert_eq!(
        toggle_permission(&mut reg, Some("desktop"), Some("maybe")),
        Err(ToggleError::BadState)
    );
    assert!(!reg.is_granted("desktop"));
    assert_eq!(toggle_permission(&mut reg, Some("desktop"), Some("granted")), Ok(()));
    assert!(reg.is_granted("desktop"));
    assert_eq!(
        toggle_error_message(ToggleError::BadState),
        "state must be 'granted', 'denied', or 'not_requested'"
    );
}
