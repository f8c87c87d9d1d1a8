//! The one-time-password e-mail: its texts, the Brevo API request body and
//! answer, and the SMTP message.
use vstd::prelude::*;
use lettre::message::Mailbox;
use lettre::Message;
use crate::clock::unix_seconds_now;
use crate::errors::AppError;
use crate::json::{json_string_literal, push_quoted};

verus! {

/// Whether `lettre` reads `s` as a mailbox (an address, optionally with a
/// display name), by its RFC 5322 grammar.
pub uninterp spec fn mailbox_parses(s: Seq<char>) -> bool;

/// `<Mailbox as FromStr>::from_str` of `lettre`, asked only whether `s`
/// spells a mailbox; that is named by `mailbox_parses`.
#[verifier::external_body]
fn is_mailbox(s: &str) -> (r: bool)
    ensures
        r == mailbox_parses(s@),
{
    s.parse::<Mailbox>().is_ok()
}

/// The first second (since the Unix epoch) that an e-mail `Date` header
/// cannot carry: 10000-01-01T00:00:00Z.
pub const MAX_DATE_SECS: u64 = 253_402_300_800;

/// The bytes of the e-mail that `lettre` formats from the sender `from`,
/// the recipient `to`, the subject, the text body and the date `unix_secs`
/// seconds after the Unix epoch: its headers (`From`, `To`, `Subject`,
/// `Date`, the body's transfer encoding) and the encoded body.
pub uninterp spec fn smtp_message(
    from: Seq<char>,
    to: Seq<char>,
    subject: Seq<char>,
    body: Seq<char>,
    unix_secs: nat,
) -> Seq<u8>;

/// `Message::builder().from(..).to(..).subject(..).date(..).body(..)` of
/// `lettre`, then `Message::formatted`: the two addresses are read as
/// mailboxes and the seconds turned into a `SystemTime`. The `requires`
/// leaves out what makes this fail or panic: an address that is no mailbox,
/// and a date from the year 10000 on (formatting it panics). With one `From`
/// mailbox, one `To` mailbox and a date the builder's checks (a sender, a
/// single `From`, at least one recipient) all pass, as its source shows; no
/// header is added from the clock or at random, so the bytes depend on the
/// arguments alone and are named by `smtp_message`.
#[verifier::external_body]
fn format_message(from: &str, to: &str, subject: &str, body: &str, unix_secs: u64) -> (r: Option<Vec<u8>>)
    requires
        mailbox_parses(from@),
        mailbox_parses(to@),
        unix_secs < MAX_DATE_SECS,
    ensures
        r is Some,
        r matches Some(bytes) ==> bytes@ == smtp_message(from@, to@, subject@, body@, unix_secs as nat),
{
    let from = from.parse::<Mailbox>().ok()?;
    let to = to.parse::<Mailbox>().ok()?;
    let date = std::time::UNIX_EPOCH + std::time::Duration::from_secs(unix_secs);
    let message = Message::builder().from(from).to(to).subject(subject).date(date).body(
        body.to_string(),
    ).ok()?;
    Some(message.formatted())
}

/// The address that SMTP messages are sent from.
pub open spec fn smtp_sender() -> Seq<char> {
    "no-reply@enterprise.com"@
}

/// The text of the SMTP message carrying `otp`.
pub open spec fn smtp_otp_text(otp: Seq<char>) -> Seq<char> {
    "Your OTP is: "@ + otp
}

/// The HTML content of the Brevo message carrying `otp`.
pub open spec fn otp_html(otp: Seq<char>) -> Seq<char> {
    "<html><body><h1>Your OTP is: "@ + otp + "</h1></body></html>"@
}

/// The JSON body of the Brevo request that sends `otp` to `to` from
/// `sender`, keys in the order in which `serde_json` writes an object.
pub open spec fn brevo_payload(sender: Seq<char>, to: Seq<char>, otp: Seq<char>) -> Seq<char> {
    "{\"htmlContent\":"@ + json_string_literal(otp_html(otp)) + ",\"sender\":{\"email\":"@
        + json_string_literal(sender) + ",\"name\":\"Enterprise API\"},\"subject\":\"Your Login OTP\",\"to\":[{\"email\":"@
        + json_string_literal(to) + "}]}"@
}

/// Whether an HTTP status code is a success (200 to 299).
pub open spec fn is_success_status(status: u16) -> bool {
    200 <= status <= 299
}

/// The mailed text carries the code unchanged: it is the 13 characters
/// "Your OTP is: " followed by exactly the code.
pub proof fn lemma_smtp_text_carries_code(otp: Seq<char>)
    ensures
        smtp_otp_text(otp).len() == 13 + otp.len(),
        smtp_otp_text(otp).take(13) == "Your OTP is: "@,
        smtp_otp_text(otp).skip(13) == otp,
{
    reveal_strlit("Your OTP is: ");
    assert(smtp_otp_text(otp).take(13) =~= "Your OTP is: "@);
    assert(smtp_otp_text(otp).skip(13) =~= otp);
}

/// The HTML content carries the code unchanged: the 29 characters
/// "<html><body><h1>Your OTP is: ", exactly the code, then the 19
/// characters "</h1></body></html>".
pub proof fn lemma_html_carries_code(otp: Seq<char>)
    ensures
        otp_html(otp).len() == 48 + otp.len(),
        otp_html(otp).take(29) == "<html><body><h1>Your OTP is: "@,
        otp_html(otp).subrange(29, 29 + otp.len() as int) == otp,
        otp_html(otp).skip(29 + otp.len() as int) == "</h1></body></html>"@,
{
    reveal_strlit("<html><body><h1>Your OTP is: ");
    reveal_strlit("</h1></body></html>");
    assert(otp_html(otp).take(29) =~= "<html><body><h1>Your OTP is: "@);
    assert(otp_html(otp).subrange(29, 29 + otp.len() as int) =~= otp);
    assert(otp_html(otp).skip(29 + otp.len() as int) =~= "</h1></body></html>"@);
}

/// The text of the SMTP message carrying `otp`: "Your OTP is: " and the code.
pub fn smtp_otp_body(otp: &str) -> (s: String)
    ensures
        s@ == smtp_otp_text(otp@),
{
    let mut s = String::from_str("Your OTP is: ");
    s.append(otp);
    s
}

/// The HTML content of the Brevo message carrying `otp`.
pub fn otp_email_html(otp: &str) -> (s: String)
    ensures
        s@ == otp_html(otp@),
{
    let mut s = String::from_str("<html><body><h1>Your OTP is: ");
    s.append(otp);
    s.append("</h1></body></html>");
    s
}

/// The JSON body of the Brevo request that sends `otp` to `to`, from the
/// sender `sender` named "Enterprise API", with the subject "Your Login OTP".
pub fn brevo_request_body(sender: &str, to: &str, otp: &str) -> (s: String)
    ensures
        s@ == brevo_payload(sender@, to@, otp@),
{
    let html = otp_email_html(otp);
    let mut s = String::from_str("{\"htmlContent\":");
    push_quoted(&mut s, html.as_str());
    s.append(",\"sender\":{\"email\":");
    push_quoted(&mut s, sender);
    s.append(",\"name\":\"Enterprise API\"},\"subject\":\"Your Login OTP\",\"to\":[{\"email\":");
    push_quoted(&mut s, to);
    s.append("}]}");
    assert(s@ =~= brevo_payload(sender@, to@, otp@));
    s
}

/// Whether Brevo's answer status means the message was accepted.
pub fn status_is_success(status: u16) -> (b: bool)
    ensures
        b == is_success_status(status),
{
    200 <= status && status <= 299
}

/// The error for a message that Brevo refused, with the text of its answer.
pub fn brevo_rejection(response_text: &str) -> (e: AppError)
    ensures
        e matches AppError::Email(m) && m@ == "Brevo rejected the email: "@ + response_text@,
{
    let mut m = String::from_str("Brevo rejected the email: ");
    m.append(response_text);
    AppError::Email(m)
}

/// The error for a request to Brevo that could not be made or answered.
pub fn brevo_transport_failure(detail: &str) -> (e: AppError)
    ensures
        e matches AppError::Email(m) && m@ == "Reqwest error: "@ + detail@,
{
    let mut m = String::from_str("Reqwest error: ");
    m.append(detail);
    AppError::Email(m)
}

/// Sends one-time passwords over SMTP (the message is composed; the
/// delivery is simulated).
#[derive(Debug, Clone, Copy, PartialEq, Eq)]
pub struct SmtpSender;

impl SmtpSender {
    /// A new SMTP sender.
    pub fn new() -> (s: Self)
        ensures
            s == SmtpSender,
    {
        SmtpSender
    }

    /// Composes the message that carries `otp` to `email`, from
    /// no-reply@enterprise.com with the subject "Your Login OTP" and the text
    /// "Your OTP is: " and the code, dated by the clock reading `unix_secs`
    /// (seconds since the Unix epoch; `None` when the clock reads before it);
    /// returns the formatted message. Succeeds exactly when `email` is a
    /// mailbox and the reading is a date before the year 10000; otherwise the
    /// error is "Invalid email" or, for an address that parses, "system clock
    /// is out of range". (Should the fixed sender address not parse, this
    /// fails too.)
    pub fn send_otp_at(&self, email: &str, otp: &str, unix_secs: Option<u64>) -> (r: Result<
        Vec<u8>,
        AppError,
    >)
        ensures
            mailbox_parses(smtp_sender()) ==> (r is Ok <==> (mailbox_parses(email@) && (unix_secs
                matches Some(t) && t < MAX_DATE_SECS))),
            r matches Ok(message) ==> (unix_secs matches Some(t) && message@ == smtp_message(
                smtp_sender(),
                email@,
                "Your Login OTP"@,
                smtp_otp_text(otp@),
                t as nat,
            )),
            mailbox_parses(smtp_sender()) && !mailbox_parses(email@) ==> (r matches Err(
                AppError::Internal(m),
            ) && m@ == "Invalid email"@),
            mailbox_parses(smtp_sender()) && mailbox_parses(email@) && r is Err ==> (r matches Err(
                AppError::Internal(m),
            ) && m@ == "system clock is out of range"@),
            !mailbox_parses(smtp_sender()) ==> r is Err,
    {
        if !is_mailbox("no-reply@enterprise.com") {
            return Err(AppError::Internal(String::from_str("Invalid sender address")));
        }
        if !is_mailbox(email) {
            return Err(AppError::Internal(String::from_str("Invalid email")));
        }
        let secs: u64 = match unix_secs {
            Some(t) if t < MAX_DATE_SECS => t,
            _ => {
                return Err(AppError::Internal(String::from_str("system clock is out of range")));
            },
        };
        let body = smtp_otp_body(otp);
        match format_message("no-reply@enterprise.com", email, "Your Login OTP", body.as_str(), secs) {
            Some(message) => Ok(message),
            None => Err(AppError::Internal(String::from_str("message could not be composed"))),
        }
    }

    /// Composes the message that carries `otp` to `email` as `send_otp_at`
    /// does, dated by the system clock. An address that is no mailbox gives
    /// "Invalid email"; an address that is one gives success, unless the
    /// clock reads before the Unix epoch or from the year 10000 on.
    pub fn send_otp(&self, email: &str, otp: &str) -> (r: Result<(), AppError>)
        ensures
            mailbox_parses(smtp_sender()) && !mailbox_parses(email@) ==> (r matches Err(
                AppError::Internal(m),
            ) && m@ == "Invalid email"@),
            r is Ok ==> mailbox_parses(email@),
            mailbox_parses(smtp_sender()) && mailbox_parses(email@) && r is Err ==> (r matches Err(
                AppError::Internal(m),
            ) && m@ == "system clock is out of range"@),
            !mailbox_parses(smtp_sender()) ==> r is Err,
    {
        let now = unix_seconds_now();
        match self.send_otp_at(email, otp, now) {
            Ok(_message) => Ok(()),
            Err(e) => Err(e),
        }
    }
}

} // verus!
