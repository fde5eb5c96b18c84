use lamp_timer::api::{append_chunk, check_status, session_body, ApiClient, ApiError};

#[test]
fn base_url_loses_trailing_slashes() {
    let c = ApiClient::new("http://192.168.1.5:3000//");
    assert_eq!(c.menu_url(), "http://192.168.1.5:3000/api/menu");
    let c = ApiClient::new("https://example.up.railway.app");
    assert_eq!(c.menu_url(), "https://example.up.railway.app/api/menu");
    let c = ApiClient::new("///");
    assert_eq!(c.menu_url(), "/api/menu");
}

#[test]
fn endpoints() {
    let c = ApiClient::new("http://host:3000/");
    assert_eq!(c.session_url(), "http://host:3000/api/session");
    assert_eq!(c.status_url("abc-123"), "http://host:3000/api/session/abc-123/status");
}

#[test]
fn only_2xx_is_success() {
    assert_eq!(check_status(200), Ok(()));
    assert_eq!(check_status(204), Ok(()));
    assert_eq!(check_status(299), Ok(()));
    assert_eq!(check_status(300), Err(ApiError::Status(300)));
    assert_eq!(check_status(199), Err(ApiError::Status(199)));
    assert_eq!(check_status(404), Err(ApiError::Status(404)));
    assert_eq!(check_status(500), Err(ApiError::Status(500)));
}

#[test]
fn body_is_assembled_from_chunks() {
    let mut body = Vec::new();
    let buf = [1u8, 2, 3, 4, 5];
    assert!(!append_chunk(&mut body, &buf, 3));
    assert!(!append_chunk(&mut body, &buf, 5));
    assert!(append_chunk(&mut body, &buf, 0));
    assert_eq!(body, vec![1, 2, 3, 1, 2, 3, 4, 5]);
}

#[test]
fn session_request_body_is_json() {
    assert_eq!(session_body("1").unwrap(), br#"{"item_id":"1"}"#.to_vec());
    assert_eq!(session_body("a\"b").unwrap(), br#"{"item_id":"a\"b"}"#.to_vec());
}
