use employee_hub::email::{
    brevo_rejection, brevo_request_body, brevo_transport_failure, otp_email_html, smtp_otp_body,
    status_is_success, SmtpSender, MAX_DATE_SECS,
};
use employee_hub::errors::AppError;

#[test]
fn message_texts() {
    assert_eq!(smtp_otp_body("123456"), "Your OTP is: 123456");
    assert_eq!(otp_email_html("123456"), "<html><body><h1>Your OTP is: 123456</h1></body></html>");
}

#[test]
fn brevo_body_is_compact_json_with_sorted_keys() {
    let body = brevo_request_body("no-reply@enterprise.com", "admin@mailinator.com", "123456");
    assert_eq!(
        body,
        "{\"htmlContent\":\"<html><body><h1>Your OTP is: 123456</h1></body></html>\",\"sender\":{\"email\":\"no-reply@enterprise.com\",\"name\":\"Enterprise API\"},\"subject\":\"Your Login OTP\",\"to\":[{\"email\":\"admin@mailinator.com\"}]}"
    );
    let parsed: serde_json::Value = serde_json::from_str(&body).unwrap();
    assert_eq!(parsed["to"][0]["email"], "admin@mailinator.com");
}

#[test]
fn brevo_body_escapes_quotes() {
    let body = brevo_request_body("s@x.com", "a\"b@x.com", "1");
    let parsed: serde_json::Value = serde_json::from_str(&body).unwrap();
    assert_eq!(parsed["to"][0]["email"], "a\"b@x.com");
}

#[test]
fn success_statuses() {
    assert!(!status_is_success(199));
    assert!(status_is_success(200));
    assert!(status_is_success(201));
    assert!(status_is_success(299));
    assert!(!status_is_success(300));
    assert!(!status_is_success(401));
}

#[test]
fn brevo_errors() {
    assert_eq!(brevo_rejection("bad key"), AppError::Email("Brevo rejected the email: bad key".to_string()));
    assert_eq!(brevo_transport_failure("timeout"), AppError::Email("Reqwest error: timeout".to_string()));
}

#[test]
fn smtp_accepts_valid_address() {
    let sender = SmtpSender::new();
    assert_eq!(sender.send_otp("admin@mailinator.com", "123456"), Ok(()));
    assert_eq!(sender.send_otp("Admin <admin@mailinator.com>", "123456"), Ok(()));
}

#[test]
fn smtp_refuses_invalid_address() {
    let sender = SmtpSender::new();
    assert_eq!(sender.send_otp("not-an-email", "123456"), Err(AppError::Internal("Invalid email".to_string())));
    assert_eq!(sender.send_otp("", "123456"), Err(AppError::Internal("Invalid email".to_string())));
}

#[test]
fn smtp_message_dated_by_clock_reading() {
    let sender = SmtpSender::new();
    let out_of_range = Err(AppError::Internal("system clock is out of range".to_string()));
    assert!(sender.send_otp_at("admin@mailinator.com", "123456", Some(1_700_000_000)).is_ok());
    assert!(sender.send_otp_at("admin@mailinator.com", "123456", Some(0)).is_ok());
    assert!(sender.send_otp_at("admin@mailinator.com", "123456", Some(MAX_DATE_SECS - 1)).is_ok());
    assert_eq!(sender.send_otp_at("admin@mailinator.com", "123456", Some(MAX_DATE_SECS)), out_of_range);
    assert_eq!(sender.send_otp_at("admin@mailinator.com", "123456", None), out_of_range);
    assert_eq!(
        sender.send_otp_at("not-an-email", "123456", None),
        Err(AppError::Internal("Invalid email".to_string()))
    );
}

#[test]
fn smtp_message_content() {
    let sender = SmtpSender::new();
    let bytes = sender.send_otp_at("admin@mailinator.com", "654321", Some(1_700_000_000)).unwrap();
    let text = String::from_utf8(bytes).unwrap();
    assert!(text.contains("From: no-reply@enterprise.com\r\n"), "{}", text);
    assert!(text.contains("To: admin@mailinator.com\r\n"), "{}", text);
    assert!(text.contains("Subject: Your Login OTP\r\n"), "{}", text);
    assert!(text.contains("Date: Tue, 14 Nov 2023 22:13:20 +0000\r\n"), "{}", text);
    assert!(text.ends_with("\r\n\r\nYour OTP is: 654321"), "{}", text);
    let again = sender.send_otp_at("admin@mailinator.com", "654321", Some(1_700_000_000)).unwrap();
    assert_eq!(again, text.into_bytes());
}
