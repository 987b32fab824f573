use floydns::utils::{validate_email, validate_username};

#[test]
fn test_validate_username() {
    let username_success = "username123".to_string();
    let username_fail = "username 123".to_string();

    assert_eq!(true, validate_username(&username_success));
    assert_eq!(false, validate_username(&username_fail));
}

#[test]
fn utils_test_validate_username() {
    let username_success = "username123".to_string();
    let username_fail = "username 123".to_string();

    assert_eq!(true, validate_username(&username_success));
    assert_eq!(false, validate_username(&username_fail));
}

#[test]
fn username_may_be_empty_or_in_any_script() {
    assert!(validate_username(&String::new()));
    assert!(validate_username(&"émile٣藏".to_string()));
    assert!(!validate_username(&"a-b".to_string()));
    assert!(!validate_username(&"ab:".to_string()));
}

#[test]
fn email_needs_an_at_sign() {
    assert!(validate_email(&"a@b".to_string()));
    assert!(validate_email(&"@".to_string()));
    assert!(!validate_email(&"a.b.example".to_string()));
    assert!(!validate_email(&String::new()));
}

#[test]
fn test_hash_password() {
    let password = "password".to_string();
    let hashed_password = floydns::utils::hash_password(&password).unwrap();

    assert_ne!(password, hashed_password);
    assert_eq!(true, bcrypt::verify(&password, &hashed_password).unwrap());
}

#[test]
fn utils_test_hash_password() {
    let password = "password".to_string();
    let hashed_password = floydns::utils::hash_password(&password).unwrap();

    assert_ne!(password, hashed_password);
    assert_eq!(true, bcrypt::verify(&password, &hashed_password).unwrap());
}

#[test]
fn hashed_password_verifies_and_others_do_not() {
    let password = "correct horse".to_string();
    let hash = floydns::utils::hash_password(&password).unwrap();
    assert_eq!(floydns::utils::verify_password("correct horse", &hash), Ok(true));
    assert_eq!(floydns::utils::verify_password("wrong horse", &hash), Ok(false));
    let again = floydns::utils::hash_password(&password).unwrap();
    assert_ne!(hash, again);
}

#[test]
fn verify_against_a_known_hash() {
    let hash = "$2b$04$EGdrhbKUv8Oc9vGiXX0HQOxSg445d458Muh7DAHskb6QbtCvdxcie";
    assert_eq!(floydns::utils::verify_password("correctbatteryhorsestapler", hash), Ok(true));
    assert_eq!(floydns::utils::verify_password("password", hash), Ok(false));
}

#[test]
fn verify_against_what_is_no_hash_fails() {
    match floydns::utils::verify_password("password", "not a hash") {
        Err(floydns::errors::ErrorKind::Error(message)) => assert!(!message.is_empty()),
        other => panic!("expected an error, got {:?}", other),
    }
}

#[test]
fn verification_mail_carries_the_link() {
    let config = floydns::config::Config {
        jwt_secret: String::new(),
        smtp_host: "smtp.example.com".to_string(),
        smtp_username: String::new(),
        smtp_password: String::new(),
        smtp_from_email: "noreply@example.com".to_string(),
        smtp_from_name: "FloyDNS".to_string(),
        base_url: "https://floy.example.com".to_string(),
        prefix: String::new(),
        cf_email: String::new(),
        cf_api_key: String::new(),
        cf_zone_id: String::new(),
        dns_suffix: String::new(),
        database_path: String::new(),
        ip: String::new(),
    };
    let mail = floydns::utils::verification_email(
        &config,
        &"ann@example.org".to_string(),
        &"tok.en".to_string(),
    );
    assert_eq!(mail.from, "FloyDNS <noreply@example.com>");
    assert_eq!(mail.to, "ann@example.org");
    assert_eq!(mail.subject, "Verifikasi FloyDNS");
    assert_eq!(
        mail.body,
        "Klik link berikut untuk memverifikasikan akun FloyDNS-mu:    https://floy.example.com/api/verify?token=tok.en"
    );
}
