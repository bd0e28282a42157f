use blitzi::auth::{authorize, generate_bearer_token};

#[test]
fn test_generate_bearer_token() {
    let token = generate_bearer_token();
    assert_eq!(token.len(), 32);
    assert!(token.chars().all(|c| c.is_alphanumeric()));
}

#[test]
fn test_generate_bearer_token_uniqueness() {
    let token1 = generate_bearer_token();
    let token2 = generate_bearer_token();
    assert_ne!(token1, token2, "Generated tokens should be unique");
}

#[test]
fn authorize_accepts_exact_bearer_line() {
    let token = String::from("sesame42");
    let header = String::from("Bearer sesame42");
    assert!(authorize(Some(&header), &token));
}

#[test]
fn authorize_rejects_missing_header() {
    let token = String::from("sesame42");
    assert!(!authorize(None, &token));
}

#[test]
fn authorize_rejects_wrong_token() {
    let token = String::from("sesame42");
    let header = String::from("Bearer sesame43");
    assert!(!authorize(Some(&header), &token));
}

#[test]
fn authorize_rejects_malformed_scheme() {
    let token = String::from("sesame42");
    assert!(!authorize(Some(&String::from("bearer sesame42")), &token));
    assert!(!authorize(Some(&String::from("Bearersesame42")), &token));
    assert!(!authorize(Some(&String::from("sesame42")), &token));
    assert!(!authorize(Some(&String::from("Bearer sesame42 ")), &token));
}

#[test]
fn generated_token_authorizes_itself() {
    let token = generate_bearer_token();
    let header = format!("Bearer {}", token);
    assert!(authorize(Some(&header), &token));
}
