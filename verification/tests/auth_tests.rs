use shared::auth::{
    AuthConfig, AuthError, AuthService, Claims, PasswordTraits, PasswordValidator, RateLimiter,
};
use shared::models::{CreateUserInput, LoginInput, OrderStatus};

#[test]
fn a_strong_password_passes() {
    assert!(PasswordValidator::validate("TestPassword123!").is_ok());
    assert!(PasswordValidator::validate("BenchmarkPass123!").is_ok());
    assert!(PasswordValidator::validate("aB3$aaaa").is_ok());
}

#[test]
fn an_empty_password_breaks_every_rule() {
    let errors = PasswordValidator::validate("").unwrap_err();
    assert_eq!(
        errors,
        vec![
            "Password must be at least 8 characters long".to_string(),
            "Password must contain at least one uppercase letter".to_string(),
            "Password must contain at least one lowercase letter".to_string(),
            "Password must contain at least one number".to_string(),
            "Password must contain at least one special character".to_string(),
        ]
    );
}

#[test]
fn each_rule_is_reported_on_its_own() {
    assert_eq!(
        PasswordValidator::validate("aB3$aaa").unwrap_err(),
        vec!["Password must be at least 8 characters long".to_string()]
    );
    assert_eq!(
        PasswordValidator::validate("ab3$aaaa").unwrap_err(),
        vec!["Password must contain at least one uppercase letter".to_string()]
    );
    assert_eq!(
        PasswordValidator::validate("AB3$AAAA").unwrap_err(),
        vec!["Password must contain at least one lowercase letter".to_string()]
    );
    assert_eq!(
        PasswordValidator::validate("aBc$aaaa").unwrap_err(),
        vec!["Password must contain at least one number".to_string()]
    );
    assert_eq!(
        PasswordValidator::validate("aB3caaaa").unwrap_err(),
        vec!["Password must contain at least one special character".to_string()]
    );
}

#[test]
fn every_special_character_counts() {
    for c in "!@#$%^&*()_+-=[]{}|;:,.<>?".chars() {
        let password = format!("aB3aaaaa{}", c);
        assert!(PasswordValidator::validate(&password).is_ok(), "{}", password);
    }
    for c in ['/', '\\', '"', '\'', '~', '`', ' '] {
        let password = format!("aB3aaaaa{}", c);
        assert!(PasswordValidator::validate(&password).is_err(), "{}", password);
    }
}

#[test]
fn length_counts_bytes_and_letters_are_unicode() {
    // Seven characters, eight bytes.
    let traits = PasswordValidator::inspect("aB3$aa\u{e9}");
    assert!(traits.long_enough);
    // Greek capital, Cyrillic small, Arabic-Indic digit.
    let traits = PasswordValidator::inspect("\u{394}\u{436}\u{663}");
    assert_eq!(
        traits,
        PasswordTraits {
            long_enough: false,
            has_uppercase: true,
            has_lowercase: true,
            has_number: true,
            has_special: false,
        }
    );
}

#[test]
fn the_verdict_follows_the_traits() {
    let all = PasswordTraits {
        long_enough: true,
        has_uppercase: true,
        has_lowercase: true,
        has_number: true,
        has_special: true,
    };
    assert!(PasswordValidator::judge(all).is_ok());
    let errors = PasswordValidator::judge(PasswordTraits { has_number: false, long_enough: false, ..all })
        .unwrap_err();
    assert_eq!(
        errors,
        vec![
            "Password must be at least 8 characters long".to_string(),
            "Password must contain at least one number".to_string(),
        ]
    );
}

#[test]
fn the_rate_limiter_allows_everything() {
    let limiter = RateLimiter::new(5, 15);
    assert_eq!(limiter.max_attempts(), 5);
    assert_eq!(limiter.window_minutes(), 15);
    assert!(limiter.check_rate_limit("user@example.com"));
    limiter.record_attempt("user@example.com");
    limiter.record_attempt("user@example.com");
    assert!(limiter.check_rate_limit("user@example.com"));
    assert!(limiter.check_rate_limit(""));
}

#[test]
fn the_service_keeps_its_secret() {
    let service = AuthService::new("s3cret".to_string());
    assert_eq!(service.jwt_secret(), "s3cret");
}

#[test]
fn the_default_settings() {
    let config = AuthConfig::default();
    assert_eq!(config.jwt_secret, "your-secret-key-change-in-production");
    assert_eq!(config.token_expiry_hours, 24);
    assert_eq!(config.refresh_token_expiry_days, 30);
}

#[test]
fn claims_expire_after_their_lifetime() {
    let claims = Claims::issued_at(
        "user-1".to_string(),
        "test@example.com".to_string(),
        "Test User".to_string(),
        1_000,
        24,
    )
    .unwrap();
    assert_eq!(claims.sub, "user-1");
    assert_eq!(claims.email, "test@example.com");
    assert_eq!(claims.name, "Test User");
    assert_eq!(claims.iat, 1_000);
    assert_eq!(claims.exp, 1_000 + 24 * 3600);
    assert!(!claims.is_expired_at(1_000));
    assert!(!claims.is_expired_at(1_000 + 24 * 3600));
    assert!(claims.is_expired_at(1_000 + 24 * 3600 + 1));
}

#[test]
fn claims_with_a_negative_lifetime_are_born_expired() {
    let claims =
        Claims::issued_at(String::new(), String::new(), String::new(), 1_000_000, -1).unwrap();
    assert_eq!(claims.exp, 1_000_000 - 3600);
    assert!(claims.is_expired_at(1_000_000));
    assert!(claims.is_expired());
}

#[test]
fn claims_are_judged_by_the_clock() {
    let expired_long_ago = Claims {
        sub: String::new(),
        email: String::new(),
        name: String::new(),
        exp: -1,
        iat: -10,
    };
    assert!(expired_long_ago.is_expired());
    let never_expiring = Claims { exp: i64::MAX, ..expired_long_ago.clone() };
    assert!(!never_expiring.is_expired());
    let far_future = Claims { exp: 0xffff_ffff_ffff, ..expired_long_ago.clone() };
    assert!(!far_future.is_expired());
    // Issued in 2020 for a day: expired by now.
    let stale = Claims { exp: 1_577_836_800 + 86_400, ..expired_long_ago };
    assert!(stale.is_expired());
}

#[test]
fn claims_that_cannot_be_held_are_refused() {
    assert!(Claims::issued_at(String::new(), String::new(), String::new(), i64::MAX, 1).is_none());
    assert!(Claims::issued_at(String::new(), String::new(), String::new(), 0, i64::MAX).is_none());
    assert!(Claims::issued_at(String::new(), String::new(), String::new(), i64::MIN, -1).is_none());
    let claims =
        Claims::issued_at(String::new(), String::new(), String::new(), i64::MAX - 3600, 1).unwrap();
    assert_eq!(claims.exp, i64::MAX);
    assert!(!claims.is_expired());
}

#[test]
fn errors_say_what_went_wrong() {
    assert_eq!(AuthError::InvalidCredentials.message(), "Invalid credentials");
    assert_eq!(AuthError::TokenExpired.message(), "Token expired");
    assert_eq!(AuthError::InvalidToken.message(), "Invalid token");
    assert_eq!(AuthError::UserNotFound.message(), "User not found");
    assert_eq!(AuthError::EmailAlreadyExists.message(), "Email already exists");
    assert_eq!(AuthError::PasswordHashingFailed.message(), "Password hashing failed");
    assert_eq!(AuthError::JwtError("bad header".to_string()).message(), "JWT error: bad header");
}

#[test]
fn inputs_and_statuses_are_plain_data() {
    let input = CreateUserInput {
        email: "test@example.com".to_string(),
        name: "Test User".to_string(),
        password: "TestPassword123!".to_string(),
    };
    assert!(PasswordValidator::validate(&input.password).is_ok());
    let login = LoginInput { email: input.email.clone(), password: "short".to_string() };
    assert_eq!(PasswordValidator::validate(&login.password).unwrap_err().len(), 4);
    assert_ne!(OrderStatus::Pending, OrderStatus::Shipped);
    assert_eq!(OrderStatus::Delivered, OrderStatus::Delivered);
}
