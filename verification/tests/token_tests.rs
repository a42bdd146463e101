use token_record::token::TokenData;

#[test]
fn scenario_positive_lifetime() {
    let t0 = chrono::Utc::now().timestamp();
    let r = TokenData::new("tok1".to_string(), None, Some(3600), None, None, None);
    let t1 = chrono::Utc::now().timestamp();
    assert_eq!(r.access_token, "tok1");
    assert_eq!(r.expires_in, 3600);
    assert_eq!(r.token_type, "Bearer");
    assert!(r.expiry_timestamp >= t0 + 3600);
    assert!(r.expiry_timestamp <= t1 + 3600);
}

#[test]
fn scenario_absent_lifetime() {
    let r = TokenData::new("tok".to_string(), None, None, None, None, None);
    assert_eq!(r.expires_in, 0);
    assert_eq!(r.expiry_timestamp, 0);
}

#[test]
fn zero_lifetime_has_no_expiry() {
    let r = TokenData::new("tok".to_string(), None, Some(0), None, None, None);
    assert_eq!(r.expires_in, 0);
    assert_eq!(r.expiry_timestamp, 0);
}

#[test]
fn negative_lifetime_has_no_expiry() {
    let r = TokenData::new("tok".to_string(), None, Some(-5), None, None, None);
    assert_eq!(r.expires_in, -5);
    assert_eq!(r.expiry_timestamp, 0);
}

#[test]
fn token_type_always_bearer() {
    let a = TokenData::new("x".to_string(), None, None, None, None, None);
    let b = TokenData::new(
        String::new(),
        Some("refresh".to_string()),
        Some(-1),
        Some("a@b.c".to_string()),
        Some("proj".to_string()),
        Some("sess".to_string()),
    );
    let c = TokenData::new_at("y".to_string(), None, Some(10), None, None, None, -50);
    assert_eq!(a.token_type, "Bearer");
    assert_eq!(b.token_type, "Bearer");
    assert_eq!(c.token_type, "Bearer");
}

#[test]
fn fields_passed_verbatim() {
    let r = TokenData::new(
        "at".to_string(),
        Some("rt".to_string()),
        Some(60),
        Some("who@example.com".to_string()),
        Some("project-7".to_string()),
        Some("s1".to_string()),
    );
    assert_eq!(r.access_token, "at");
    assert_eq!(r.refresh_token, Some("rt".to_string()));
    assert_eq!(r.email, Some("who@example.com".to_string()));
    assert_eq!(r.project_id, Some("project-7".to_string()));
    assert_eq!(r.session_id, Some("s1".to_string()));
}

#[test]
fn explicit_clock_exact_expiry() {
    let r = TokenData::new_at("tok".to_string(), None, Some(50), None, None, None, 1000);
    assert_eq!(r.expires_in, 50);
    assert_eq!(r.expiry_timestamp, 1050);
    assert_eq!(r.expiry_timestamp - r.expires_in, 1000);
}

#[test]
fn explicit_clock_scenario() {
    let r = TokenData::new_at(
        "tok1".to_string(),
        None,
        Some(3600),
        None,
        None,
        None,
        1_700_000_000,
    );
    assert_eq!(r.expiry_timestamp, 1_700_003_600);
    assert_eq!(r.token_type, "Bearer");
}

#[test]
fn expiry_saturates_at_representable_maximum() {
    let r = TokenData::new("tok".to_string(), None, Some(i64::MAX), None, None, None);
    assert_eq!(r.expires_in, i64::MAX);
    assert_eq!(r.expiry_timestamp, i64::MAX);
}
