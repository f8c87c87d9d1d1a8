//! Service configuration.
use vstd::prelude::*;
use crate::decimal::{decimal, push_decimal};

verus! {

/// The service's settings.
#[derive(Debug, Clone, PartialEq, Eq)]
pub struct AppConfig {
    pub port: u16,
    pub database_url: String,
    pub email_provider: String,
    pub brevo_api_key: String,
    pub brevo_sender_email: String,
    pub jwt_secret: String,
}

impl AppConfig {
    /// The settings used when the environment cannot be read: port 3000, the
    /// local SQLite file, the SMTP provider, no Brevo key, the no-reply
    /// sender and the development secret.
    pub fn fallback() -> (c: AppConfig)
        ensures
            c.port == 3000,
            c.database_url@ == "sqlite://sqlite.db?mode=rwc"@,
            c.email_provider@ == "smtp"@,
            c.brevo_api_key@ == ""@,
            c.brevo_sender_email@ == "no-reply@enterprise.com"@,
            c.jwt_secret@ == "super_secret"@,
    {
        AppConfig {
            port: 3000,
            database_url: String::from_str("sqlite://sqlite.db?mode=rwc"),
            email_provider: String::from_str("smtp"),
            brevo_api_key: String::from_str(""),
            brevo_sender_email: String::from_str("no-reply@enterprise.com"),
            jwt_secret: String::from_str("super_secret"),
        }
    }

    /// Whether e-mail goes through Brevo: exactly when the provider is
    /// `brevo`; any other value selects SMTP.
    pub fn uses_brevo(&self) -> (b: bool)
        ensures
            b == (self.email_provider@ == "brevo"@),
    {
        let brevo = String::from_str("brevo");
        self.email_provider == brevo
    }

    /// The address the server listens on: all interfaces, at the port.
    pub fn listen_address(&self) -> (a: String)
        ensures
            a@ == "0.0.0.0:"@ + decimal(self.port as nat),
    {
        let mut a = String::from_str("0.0.0.0:");
        push_decimal(&mut a, self.port as u64);
        a
    }
}

} // verus!
