# employee_hub

An employee management service (HTTP API over SQLite, e-mailed one-time
passwords, JSON Web Tokens, bulk CSV import), built around a library whose
behaviour is proved with Verus.

- `src/` — the verified library:
  - `otp_store` — the expiring store of pending one-time passwords (a `moka` cache);
  - `auth` — issuing six-digit codes, accepting a code once, signing the one-day token;
  - `bulk` — the upload check, cutting records into chunks of 500, tallying chunk outcomes;
  - `email` — the OTP e-mail texts, the Brevo request body and answer, the SMTP message;
  - `errors` — application errors and their HTTP status and JSON body;
  - `config`, `models` — settings and domain entities;
  - `decimal`, `json`, `clock` — number spelling, JSON string escaping, the system clock.
- `app/` — the server: Axum routes, SQLx queries, the Brevo HTTP call, the
  environment, and the serde/utoipa/sqlx forms of the library's types.
- `tests/` — tests of the library.
