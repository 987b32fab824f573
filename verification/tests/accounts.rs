use floydns::accounts::{
    auth, check_registration, find_subdomain_claim, find_user, password_verdict, register,
    registration_line, verify_account, whoami,
};
use floydns::errors::{ErrorKind, JWTCError};
use floydns::jwt::{api_key, claims_by, generate_claims, read_claims, ApiKey, Claims};
use floydns::models::{Login, User, WhoAmI};
use floydns::text::{piece_text, to_chars, trim_range};

const STORE: &str = "acme:ann@example.org:$2b$04$EGdrhbKUv8Oc9vGiXX0HQOxSg445d458Muh7DAHskb6QbtCvdxcie\rshop:bob@example.org:hash2\r";

fn user(claim: &str, email: &str, password: &str) -> User {
    User {
        email: email.to_string(),
        password: password.to_string(),
        subdomain_claim: claim.to_string(),
    }
}

#[test]
fn user_is_found_by_subdomain_or_address() {
    let ann = user(
        "acme",
        "ann@example.org",
        "$2b$04$EGdrhbKUv8Oc9vGiXX0HQOxSg445d458Muh7DAHskb6QbtCvdxcie",
    );
    assert_eq!(find_user(STORE, "acme"), Ok(Some(ann.clone())));
    assert_eq!(find_user(STORE, "ann@example.org"), Ok(Some(ann)));
    assert_eq!(find_user(STORE, "bob@example.org"), Ok(Some(user("shop", "bob@example.org", "hash2"))));
    assert_eq!(find_user(STORE, "hash2"), Ok(None));
    assert_eq!(find_user(STORE, "carol"), Ok(None));
    assert_eq!(find_user("", "acme"), Ok(None));
}

#[test]
fn records_are_trimmed_and_blank_ones_passed_over() {
    let store = "\r\n  \r :x:y\r\n acme:ann@example.org:h:extra \r\n";
    assert_eq!(find_user(store, "acme"), Ok(Some(user("acme", "ann@example.org", "h"))));
    assert_eq!(find_user(store, "x"), Ok(None));
    let store = "a:b:\rc:d:e";
    assert_eq!(find_user(store, "b"), Ok(Some(user("a", "b", ""))));
    assert_eq!(find_user(store, "c"), Ok(Some(user("c", "d", "e"))));
}

#[test]
fn record_that_lacks_a_field_is_invalid() {
    assert_eq!(find_user("acme\r", "acme"), Err(ErrorKind::InvalidValue));
    assert_eq!(find_user("acme\rshop:b:c\r", "shop"), Err(ErrorKind::InvalidValue));
    assert_eq!(find_user("acme:ann\r", "ann"), Err(ErrorKind::InvalidValue));
    assert_eq!(find_user("acme:ann\rshop:b:c\r", "shop"), Ok(Some(user("shop", "b", "c"))));
    assert_eq!(find_user("shop:b:c\racme\r", "shop"), Ok(Some(user("shop", "b", "c"))));
}

#[test]
fn claim_that_nobody_holds_is_not_found() {
    assert_eq!(
        find_subdomain_claim(STORE, &"shop".to_string()),
        Ok(Some(user("shop", "bob@example.org", "hash2")))
    );
    assert_eq!(find_subdomain_claim(STORE, &"carol".to_string()), Err(ErrorKind::NotFound));
    assert_eq!(find_subdomain_claim("x\r", &"carol".to_string()), Err(ErrorKind::InvalidValue));
}

#[test]
fn registration_is_checked_in_order() {
    assert_eq!(
        check_registration(STORE, &user("acme", "ann@example.org", "pw")),
        Err(ErrorKind::UsernameAlreadyExists)
    );
    assert_eq!(
        check_registration(STORE, &user("new", "ann@example.org", "pw")),
        Err(ErrorKind::EmailAlreadyExists)
    );
    assert_eq!(
        check_registration(STORE, &user("new name", "new@example.org", "pw")),
        Err(ErrorKind::InvalidValue)
    );
    assert_eq!(
        check_registration(STORE, &user("new", "new.example.org", "pw")),
        Err(ErrorKind::InvalidValue)
    );
    assert_eq!(check_registration(STORE, &user("new", "new@example.org", "pw")), Ok(()));
    assert_eq!(
        check_registration(STORE, &user("a b", "ann@example.org", "pw")),
        Err(ErrorKind::EmailAlreadyExists)
    );
}

#[test]
fn registration_gives_the_record_with_the_hash() {
    let new = user("new", "new@example.org", "pw");
    let line = register(STORE, &new).unwrap();
    assert!(line.starts_with("new:new@example.org:$2b$12$"));
    assert!(line.ends_with('\r'));
    let hash = &line["new:new@example.org:".len()..line.len() - 1];
    assert!(bcrypt::verify("pw", hash).unwrap());
    let store = format!("{}{}", STORE, line);
    assert_eq!(find_user(&store, "new").unwrap().unwrap().password, hash);
    assert_eq!(register(&store, &new), Err(ErrorKind::UsernameAlreadyExists));
    assert_eq!(
        registration_line(&new, &"h".to_string()),
        "new:new@example.org:h\r"
    );
}

#[test]
fn login_compares_the_password_with_the_stored_hash() {
    let login = |email: &str, password: &str| Login {
        email: email.to_string(),
        password: password.to_string(),
    };
    assert_eq!(
        auth(STORE, &login("ann@example.org", "correctbatteryhorsestapler")),
        Ok("ann@example.org".to_string())
    );
    assert_eq!(auth(STORE, &login("ann@example.org", "password")), Err(ErrorKind::WrongPassword));
    assert_eq!(auth(STORE, &login("carol@example.org", "password")), Err(ErrorKind::NotFound));
    match auth(STORE, &login("bob@example.org", "password")) {
        Err(ErrorKind::Error(_)) => {}
        other => panic!("expected an error, got {:?}", other),
    }
    assert_eq!(auth("broken\r", &login("broken", "password")), Err(ErrorKind::InvalidValue));
}

#[test]
fn password_verdicts() {
    let email = "ann@example.org".to_string();
    assert_eq!(password_verdict(&email, Ok(true)), Ok(email.clone()));
    assert_eq!(password_verdict(&email, Ok(false)), Err(ErrorKind::WrongPassword));
    assert_eq!(
        password_verdict(&email, Err(ErrorKind::Error("x".to_string()))),
        Err(ErrorKind::Error("x".to_string()))
    );
}

#[test]
fn whoami_names_the_account() {
    assert_eq!(
        whoami(STORE, &ApiKey("bob@example.org".to_string())),
        Ok(WhoAmI { email: "bob@example.org".to_string(), subdomain_claim: "shop".to_string() })
    );
    assert_eq!(whoami(STORE, &ApiKey("nobody".to_string())), Err(ErrorKind::NotFound));
}

#[test]
fn verification_adds_only_new_addresses() {
    assert_eq!(verify_account(STORE, "new:new@example.org:hash\r"), Ok(()));
    assert_eq!(
        verify_account(STORE, "new:ann@example.org:hash\r"),
        Err(ErrorKind::EmailAlreadyExists)
    );
    assert_eq!(verify_account(STORE, "acme:new@example.org:hash\r"), Ok(()));
    assert_eq!(verify_account(STORE, "no colon"), Err(ErrorKind::InvalidValue));
    assert_eq!(verify_account("x\r", "a:b:c"), Err(ErrorKind::InvalidValue));
}

#[test]
fn claims_are_good_for_seven_days() {
    let claims = Claims::issue(&"ann".to_string(), 1_000, 604_800_000_000_000).unwrap();
    assert_eq!(
        claims,
        Claims { sub: "ann".to_string(), iat: 1_000, exp: 604_800_000_001_000 }
    );
    assert_eq!(Claims::issue(&"ann".to_string(), -1, 5), None);
    assert_eq!(Claims::issue(&"ann".to_string(), 5, -1), None);
    assert_eq!(
        Claims::issue(&"ann".to_string(), 0, 0),
        Some(Claims { sub: "ann".to_string(), iat: 0, exp: 0 })
    );
    let fresh = generate_claims(&"ann@example.org".to_string()).unwrap();
    assert_eq!(fresh.sub, "ann@example.org");
    assert_eq!(fresh.exp - fresh.iat, 604_800_000_000_000);
    assert!(fresh.iat > 1_600_000_000_000_000_000);
}

#[test]
fn token_expires_after_its_expiry() {
    let claims = Claims { sub: "ann".to_string(), iat: 10, exp: 20 };
    assert_eq!(claims.subject_at(20), Ok("ann".to_string()));
    assert_eq!(claims.subject_at(0), Ok("ann".to_string()));
    assert_eq!(
        claims.subject_at(21),
        Err(ErrorKind::JWTCreationError(JWTCError::TokenExpired))
    );
    assert_eq!(claims.subject_by(Some(20)), Ok("ann".to_string()));
    assert_eq!(
        claims.subject_by(Some(21)),
        Err(ErrorKind::JWTCreationError(JWTCError::TokenExpired))
    );
    assert_eq!(
        claims.subject_by(Some(-1)),
        Err(ErrorKind::JWTCreationError(JWTCError::TokenExpired))
    );
    assert_eq!(claims.subject_by(None), Err(ErrorKind::JWTCreationError(JWTCError::TokenExpired)));
    assert_eq!(read_claims(&claims), Err(ErrorKind::JWTCreationError(JWTCError::TokenExpired)));
    let fresh = generate_claims(&"ann".to_string()).unwrap();
    assert_eq!(read_claims(&fresh), Ok("ann".to_string()));
}

#[test]
fn bearer_header_is_read() {
    assert_eq!(api_key(Some("Bearer abc.def")), Ok("abc.def".to_string()));
    assert_eq!(api_key(Some("abc.def")), Ok("abc.def".to_string()));
    assert_eq!(api_key(Some("  Bearer   abc  ")), Ok("abc".to_string()));
    assert_eq!(api_key(Some("Bearer a Bearer b")), Ok("ab".to_string()));
    assert_eq!(api_key(Some("BearerBearer")), Ok(String::new()));
    assert_eq!(api_key(Some("bearer abc")), Ok("bearer abc".to_string()));
    assert_eq!(api_key(Some("")), Ok(String::new()));
    assert_eq!(api_key(None), Err(ErrorKind::InvalidValue));
}

#[test]
fn text_is_cut_into_pieces_and_trimmed() {
    let chars = to_chars("a::b:");
    assert_eq!(piece_text(&chars, ':', 0), Some("a".to_string()));
    assert_eq!(piece_text(&chars, ':', 1), Some(String::new()));
    assert_eq!(piece_text(&chars, ':', 2), Some("b".to_string()));
    assert_eq!(piece_text(&chars, ':', 3), Some(String::new()));
    assert_eq!(piece_text(&chars, ':', 4), None);
    assert_eq!(piece_text(&to_chars(""), ':', 0), Some(String::new()));
    assert_eq!(piece_text(&to_chars(""), ':', 1), None);
    let chars = to_chars(" \t\u{a0}x y\n ");
    assert_eq!(trim_range(&chars, 0, chars.len()), (3, 6));
    assert_eq!(trim_range(&chars, 0, 3), (3, 3));
    assert_eq!(trim_range(&chars, 4, 5), (5, 5));
}

#[test]
fn claims_are_issued_by_the_clock() {
    assert_eq!(
        claims_by(&"ann".to_string(), Some(1_000)),
        Some(Claims { sub: "ann".to_string(), iat: 1_000, exp: 604_800_000_001_000 })
    );
    assert_eq!(
        claims_by(&"ann".to_string(), Some(0)),
        Some(Claims { sub: "ann".to_string(), iat: 0, exp: 604_800_000_000_000 })
    );
    assert_eq!(claims_by(&"ann".to_string(), Some(-1)), None);
    assert_eq!(claims_by(&"ann".to_string(), None), None);
}
