use uplay_auth::config::UplayConfig;
use uplay_auth::error::AuthError;
use uplay_auth::http::{header_line, parse_unsigned, status_code_of, trim_bytes, HeaderLine};
use uplay_auth::login::{check_login_status, credentials_from_response, login_request, LoginResponse};

fn response(ticket: Option<&str>, session: Option<&str>, two_factor: Option<&str>) -> LoginResponse {
    LoginResponse {
        ticket: ticket.map(|s| s.to_string()),
        session_id: session.map(|s| s.to_string()),
        user_id: None,
        profile_id: None,
        name_on_platform: Some("someone".to_string()),
        remember_me_ticket: None,
        two_factor_authentication_ticket: two_factor.map(|s| s.to_string()),
    }
}

#[test]
fn credentials_read_from_body() {
    let c = credentials_from_response(response(Some("t"), Some("s"), None)).unwrap();
    assert_eq!(c.ticket, "t");
    assert_eq!(c.session_id, "s");
    let c = credentials_from_response(response(Some("t"), Some("s"), Some("2fa"))).unwrap();
    assert_eq!(c.ticket, "t");
}

#[test]
fn two_factor_required() {
    assert!(matches!(
        credentials_from_response(response(None, Some("s"), Some("2fa"))),
        Err(AuthError::TwoFactorRequired)
    ));
    assert!(matches!(
        credentials_from_response(response(None, None, Some("2fa"))),
        Err(AuthError::TwoFactorRequired)
    ));
}

#[test]
fn missing_ticket_or_session() {
    assert!(matches!(
        credentials_from_response(response(None, Some("s"), None)),
        Err(AuthError::MissingTicket)
    ));
    assert!(matches!(
        credentials_from_response(response(Some("t"), None, None)),
        Err(AuthError::MissingSessionId)
    ));
}

#[test]
fn login_status_range() {
    assert_eq!(check_login_status(200), Ok(()));
    assert_eq!(check_login_status(299), Ok(()));
    assert_eq!(check_login_status(199), Err(AuthError::LoginStatus(199)));
    assert_eq!(check_login_status(300), Err(AuthError::LoginStatus(300)));
    assert_eq!(check_login_status(0), Err(AuthError::LoginStatus(0)));
}

#[test]
fn login_request_text() {
    let body = "{\"rememberMe\":true}";
    let r = login_request("a@b.c", "pw", body);
    let expected = "POST /v3/profiles/sessions HTTP/1.1\r\n\
         Host: public-ubiservices.ubi.com\r\n\
         User-Agent: Massgate\r\n\
         Authorization: Basic YUBiLmM6cHc=\r\n\
         Ubi-AppId: f68a4bb5-608a-4ff2-8123-be8ef797e0a6\r\n\
         Ubi-RequestedPlatformType: uplay\r\n\
         Content-Type: application/json\r\n\
         Content-Length: 19\r\n\
         Connection: close\r\n\
         \r\n\
         {\"rememberMe\":true}";
    assert_eq!(String::from_utf8(r).unwrap(), expected);
}

#[test]
fn status_line_code() {
    assert_eq!(status_code_of(b"HTTP/1.1 200 OK\r\n"), 200);
    assert_eq!(status_code_of(b"  HTTP/1.1\t401 Unauthorized"), 401);
    assert_eq!(status_code_of(b"HTTP/1.1 +204 No Content"), 204);
    assert_eq!(status_code_of(b"HTTP/1.1"), 0);
    assert_eq!(status_code_of(b""), 0);
    assert_eq!(status_code_of(b"HTTP/1.1 70000 Big"), 0);
    assert_eq!(status_code_of(b"HTTP/1.1 2x0 Bad"), 0);
}

#[test]
fn unsigned_parsing() {
    assert_eq!(parse_unsigned(b"65535", 65535), Some(65535));
    assert_eq!(parse_unsigned(b"65536", 65535), None);
    assert_eq!(parse_unsigned(b"+", 10), None);
    assert_eq!(parse_unsigned(b"", 10), None);
    assert_eq!(parse_unsigned(b"007", 10), Some(7));
    assert_eq!(parse_unsigned(b"18446744073709551615", u64::MAX), Some(u64::MAX));
    assert_eq!(parse_unsigned(b"18446744073709551616", u64::MAX), None);
}

#[test]
fn header_lines() {
    assert_eq!(header_line(b"\r\n"), HeaderLine::End);
    assert_eq!(header_line(b""), HeaderLine::End);
    assert_eq!(header_line(b"Content-Length: 42\r\n"), HeaderLine::ContentLength(42));
    assert_eq!(header_line(b"  CONTENT-LENGTH:7"), HeaderLine::ContentLength(7));
    assert_eq!(header_line(b"content-length: x"), HeaderLine::ContentLength(0));
    assert_eq!(header_line(b"Content-Type: application/json"), HeaderLine::Other);
    assert_eq!(header_line(b"Content-Len"), HeaderLine::Other);
    assert_eq!(trim_bytes(b" \t ab c \r\n"), b"ab c".to_vec());
}

#[test]
fn configured_credentials() {
    let cfg = |e: &str, p: &str| UplayConfig { app_id: 1, email: e.to_string(), password: p.to_string() };
    assert!(cfg("me@x.y", "secret").has_credentials());
    assert!(!cfg("", "secret").has_credentials());
    assert!(!cfg("me@x.y", "").has_credentials());
    assert!(!cfg("UplayEmu@rat43.com", "secret").has_credentials());
    assert!(!cfg("me@x.y", "UplayPassword74").has_credentials());
}
