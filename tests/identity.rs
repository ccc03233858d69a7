use nolatabs_accounts::environment::Environment;
use nolatabs_accounts::handlers::check_identity;
use nolatabs_accounts::identity::verify_email;
use nolatabs_accounts::text::{ends_with, same_text};

#[test]
fn middleware_verify_email_tests() {
    assert!(!verify_email(Environment::Production, "fake@outlook.com", false));
    assert!(!verify_email(Environment::Production, "fake@test.account", false));
    assert!(verify_email(Environment::Production, "fake@outlook.com", true));
    assert!(verify_email(Environment::Production, "fake@test.account", true));
    assert!(verify_email(Environment::Testing, "fake@test.account", true));
    assert!(!verify_email(Environment::Testing, "fake@outlook.com", false));
    assert!(verify_email(Environment::Staging, "fake@test.account", true));
}

#[test]
fn user_verify_email_tests() {
    assert!(!verify_email(Environment::Production, "fake@outlook.com", false));
    assert!(!verify_email(Environment::Production, "fake@test.account", false));
    assert!(verify_email(Environment::Production, "fake@outlook.com", true));
    assert!(verify_email(Environment::Production, "fake@test.account", true));
    assert!(verify_email(Environment::Testing, "fake@test.account", true));
    assert!(!verify_email(Environment::Testing, "fake@outlook.com", false));
    assert!(verify_email(Environment::Staging, "fake@test.account", true));
}

#[test]
fn unverified_test_accounts_are_trusted_outside_production() {
    assert!(verify_email(Environment::Testing, "fake@test.account", false));
    assert!(verify_email(Environment::Staging, "fake@test.account", false));
    assert!(!verify_email(Environment::Staging, "fake@outlook.com", false));
    assert!(verify_email(Environment::Staging, "fake@outlook.com", true));
}

#[test]
fn suffix_must_end_the_address() {
    assert!(!verify_email(Environment::Testing, "fake@test.account.com", false));
    assert!(!verify_email(Environment::Testing, "test.account", false));
    assert!(verify_email(Environment::Testing, "@test.account", false));
    assert!(!verify_email(Environment::Testing, "", false));
}

#[test]
fn text_helpers() {
    assert!(ends_with("abc", "bc"));
    assert!(ends_with("abc", ""));
    assert!(!ends_with("bc", "abc"));
    assert!(!ends_with("abd", "bc"));
    assert!(same_text("é-x", "é-x"));
    assert!(!same_text("ab", "abc"));
    assert!(!same_text("abc", "abd"));
}

#[test]
fn identity_gate() {
    assert_eq!(check_identity(Environment::Production, None, Some(true)), Err(401));
    assert_eq!(
        check_identity(Environment::Production, Some("a@b.com".to_string()), Some(false)),
        Err(403)
    );
    assert_eq!(check_identity(Environment::Production, Some("a@b.com".to_string()), None), Err(403));
    assert_eq!(
        check_identity(Environment::Production, Some("a@b.com".to_string()), Some(true)),
        Ok("a@b.com".to_string())
    );
    assert_eq!(
        check_identity(Environment::Testing, Some("x@test.account".to_string()), None),
        Ok("x@test.account".to_string())
    );
}
