use employee_hub::config::AppConfig;
use employee_hub::errors::AppError;

#[test]
fn error_statuses_and_bodies() {
    let r = AppError::NotFound("Employee 3".to_string()).into_response();
    assert_eq!((r.status, r.body.as_str()), (404, "{\"error\":\"Employee 3\"}"));
    let r = AppError::Unauthorized("Invalid OTP".to_string()).into_response();
    assert_eq!((r.status, r.body.as_str()), (401, "{\"error\":\"Invalid OTP\"}"));
    let r = AppError::Email("Brevo rejected the email: x".to_string()).into_response();
    assert_eq!((r.status, r.body.as_str()), (500, "{\"error\":\"Brevo rejected the email: x\"}"));
    let r = AppError::Internal("No file uploaded".to_string()).into_response();
    assert_eq!((r.status, r.body.as_str()), (500, "{\"error\":\"No file uploaded\"}"));
}

#[test]
fn database_error_text_is_hidden() {
    let r = AppError::Database("no such table: employees".to_string()).into_response();
    assert_eq!(r.status, 500);
    assert_eq!(r.body, "{\"error\":\"A database error occurred\"}");
}

#[test]
fn error_body_escapes_message() {
    let r = AppError::Internal("Invalid CSV format: \"x\"\n".to_string()).into_response();
    assert_eq!(r.body, "{\"error\":\"Invalid CSV format: \\\"x\\\"\\n\"}");
}

#[test]
fn fallback_config() {
    let c = AppConfig::fallback();
    assert_eq!(c.port, 3000);
    assert_eq!(c.database_url, "sqlite://sqlite.db?mode=rwc");
    assert_eq!(c.email_provider, "smtp");
    assert_eq!(c.brevo_api_key, "");
    assert_eq!(c.brevo_sender_email, "no-reply@enterprise.com");
    assert_eq!(c.jwt_secret, "super_secret");
    assert!(!c.uses_brevo());
    assert_eq!(c.listen_address(), "0.0.0.0:3000");
}

#[test]
fn provider_choice_and_address() {
    let mut c = AppConfig::fallback();
    c.email_provider = "brevo".to_string();
    assert!(c.uses_brevo());
    c.email_provider = "Brevo".to_string();
    assert!(!c.uses_brevo());
    c.port = 0;
    assert_eq!(c.listen_address(), "0.0.0.0:0");
    c.port = 65535;
    assert_eq!(c.listen_address(), "0.0.0.0:65535");
}

#[test]
fn error_body_escapes_like_serde_json() {
    let samples = ["plain", "tab\there", "bell\u{7}", "\u{1f}\u{8}\u{c}\r", "back\\slash", "é ü 漢字 /", "\u{7f}"];
    for s in samples {
        let r = AppError::Internal(s.to_string()).into_response();
        let mut expected = String::from("{\"error\":");
        expected.push_str(&serde_json::Value::from(s).to_string());
        expected.push('}');
        assert_eq!(r.body, expected);
    }
    let r = AppError::Internal("\u{1}".to_string()).into_response();
    assert_eq!(r.body, "{\"error\":\"\\u0001\"}");
}
