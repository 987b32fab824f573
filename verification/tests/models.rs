use floydns::errors::{
    bad_request, conflict, internal_server_error, not_found, unauthorized, Catcher, ErrorKind,
    JWTCError,
};
use floydns::models::DnsRecord;
use floydns::text::decimal_text;

#[test]
fn dns_record_is_written_as_json() {
    let record = DnsRecord::new(
        "A".to_owned(),
        "acme.example.com".to_owned(),
        1,
        "203.0.113.5".to_owned(),
        true,
    );
    assert_eq!(
        record.to_string(),
        "{\"type\":\"A\",\"name\":\"acme.example.com\",\"ttl\":1,\"content\":\"203.0.113.5\",\"proxied\":true}"
    );
    let record = DnsRecord::new("AAAA".to_owned(), "x".to_owned(), 3600, "::1".to_owned(), false);
    assert_eq!(
        record.to_string(),
        "{\"type\":\"AAAA\",\"name\":\"x\",\"ttl\":3600,\"content\":\"::1\",\"proxied\":false}"
    );
}

#[test]
fn numbers_are_written_in_base_ten() {
    assert_eq!(decimal_text(0), "0");
    assert_eq!(decimal_text(7), "7");
    assert_eq!(decimal_text(10), "10");
    assert_eq!(decimal_text(1234567890), "1234567890");
    assert_eq!(decimal_text(u32::MAX), "4294967295");
}

#[test]
fn errors_have_messages() {
    assert_eq!(ErrorKind::NotFound.to_string(), "Not found");
    assert_eq!(ErrorKind::InvalidValue.to_string(), "Invalid value");
    assert_eq!(ErrorKind::EmailAlreadyExists.to_string(), "Email already exists");
    assert_eq!(ErrorKind::UsernameAlreadyExists.to_string(), "Username already exists");
    assert_eq!(ErrorKind::JWTCreationError(JWTCError::TokenExpired).to_string(), "Token expired");
    assert_eq!(ErrorKind::AlreadyExists.to_string(), "Subdomain already exists");
    assert_eq!(ErrorKind::MarkerNotFound.to_string(), "Slug page tidak ditemukan");
    assert_eq!(ErrorKind::MalformedFile.to_string(), "Format file konfigurasi tidak valid");
    assert_eq!(ErrorKind::Error("boom".to_string()).to_string(), "boom");
    assert_eq!(ErrorKind::Transport("timed out".to_string()).to_string(), "timed out");
    assert_eq!(ErrorKind::IOFailure("disk full".to_string()).to_string(), "disk full");
    assert_eq!(ErrorKind::JWTError("bad signature".to_string()).to_string(), "bad signature");
    assert_eq!(ErrorKind::LettreError("no sender".to_string()).to_string(), "no sender");
    assert_eq!(ErrorKind::LettreTransportError("refused".to_string()).to_string(), "refused");
    assert_eq!(
        ErrorKind::RemoteRejected(403, "forbidden".to_string()).to_string(),
        "Remote rejected (403): forbidden"
    );
}

#[test]
fn errors_map_to_statuses() {
    assert_eq!(ErrorKind::NotFound.status(), 404);
    assert_eq!(ErrorKind::MarkerNotFound.status(), 404);
    assert_eq!(ErrorKind::AlreadyExists.status(), 409);
    assert_eq!(ErrorKind::EmailAlreadyExists.status(), 409);
    assert_eq!(ErrorKind::UsernameAlreadyExists.status(), 409);
    assert_eq!(ErrorKind::InvalidValue.status(), 400);
    assert_eq!(ErrorKind::JWTCreationError(JWTCError::TokenExpired).status(), 401);
    assert_eq!(ErrorKind::JWTError(String::new()).status(), 401);
    assert_eq!(ErrorKind::Transport(String::new()).status(), 500);
    assert_eq!(ErrorKind::RemoteRejected(404, String::new()).status(), 500);
    assert_eq!(ErrorKind::IOFailure(String::new()).status(), 500);
    assert_eq!(ErrorKind::MalformedFile.status(), 500);
}

#[test]
fn token_error_converts_into_error_kind() {
    assert_eq!(
        ErrorKind::from(JWTCError::TokenExpired),
        ErrorKind::JWTCreationError(JWTCError::TokenExpired)
    );
}

#[test]
fn catchers_name_their_status() {
    assert_eq!(bad_request(), Catcher { status: 400, message: "Bad request".to_string() });
    assert_eq!(unauthorized(), Catcher { status: 401, message: "Unauthorized".to_string() });
    assert_eq!(not_found(), Catcher { status: 404, message: "Not found".to_string() });
    assert_eq!(conflict(), Catcher { status: 409, message: "Conflict".to_string() });
    assert_eq!(
        internal_server_error(),
        Catcher { status: 500, message: "Internal server error".to_string() }
    );
}
