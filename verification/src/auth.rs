//! One-time-password login: issuing codes, checking them once, and signing
//! the token that a correct code earns.
use vstd::prelude::*;
use crate::clock::{since_unix_epoch, unix_seconds_now};
use crate::decimal::{
    decimal, digits_value, fixed_digits, is_ascii_digit, lemma_decimal, lemma_fixed_digits, lemma_fixed_digits_of_value, pow10,
    push_decimal, push_fixed_digits,
};
use crate::errors::AppError;
use crate::json::{
    json_escaped, json_string_literal, json_unescape, lemma_json_unescape_escaped, push_quoted,
};
use crate::models::{AuthResponse, OtpRequestPayload, OtpVerifyPayload};
use crate::otp_store::{read_allowed, OtpStore};

verus! {

/// How long a code stays valid: five minutes.
pub const OTP_TTL_SECS: u64 = 300;

/// How long a token stays valid: one day.
pub const TOKEN_LIFETIME_SECS: u64 = 86400;

/// The code derived from the sub-second part of the clock: its last six
/// decimal digits, zero-padded.
pub open spec fn otp_code(subsec_nanos: nat) -> Seq<char> {
    fixed_digits(subsec_nanos % 1_000_000, 6)
}

/// Six ASCII digits.
pub open spec fn is_otp_code(s: Seq<char>) -> bool {
    &&& s.len() == 6
    &&& forall|i: int| 0 <= i < 6 ==> is_ascii_digit(#[trigger] s[i])
}

/// Whether a read of the pending code found one, equal to `submitted`.
pub open spec fn otp_matches(pending: Option<String>, submitted: Seq<char>) -> bool {
    pending matches Some(c) && c@ == submitted
}

/// The claims of a token for subject `sub` expiring at `exp` (seconds since
/// the Unix epoch), as JSON: `{"sub":<sub>,"exp":<exp>}`.
pub open spec fn token_claims(sub: Seq<char>, exp: nat) -> Seq<char> {
    "{\"sub\":"@ + json_string_literal(sub) + ",\"exp\":"@ + decimal(exp) + "}"@
}

/// The HS256 JSON Web Token that `jsonwebtoken` produces for the claims
/// `claims_json` under the default header and the secret `secret`.
pub uninterp spec fn hs256_jwt(claims_json: Seq<char>, secret: Seq<char>) -> Seq<char>;

/// A token's claims carry exactly the subject and expiry they are made for:
/// the text is `{"sub":"`, then a JSON string body that reads back as `sub`
/// itself (no character lost or changed), then `","exp":`, then decimal
/// digits denoting `exp`, then `}`.
pub proof fn lemma_token_claims_carry_subject_and_expiry(sub: Seq<char>, exp: nat)
    ensures
        token_claims(sub, exp) == "{\"sub\":\""@ + json_escaped(sub) + "\",\"exp\":"@ + decimal(exp)
            + "}"@,
        json_unescape(json_escaped(sub)) == Some(sub),
        digits_value(decimal(exp)) == exp,
        forall|i: int| 0 <= i < decimal(exp).len() ==> is_ascii_digit(#[trigger] decimal(exp)[i]),
{
    reveal_strlit("{\"sub\":");
    reveal_strlit("{\"sub\":\"");
    reveal_strlit(",\"exp\":");
    reveal_strlit("\",\"exp\":");
    reveal_strlit("}");
    assert(token_claims(sub, exp) =~= "{\"sub\":\""@ + json_escaped(sub) + "\",\"exp\":"@ + decimal(
        exp,
    ) + "}"@);
    lemma_json_unescape_escaped(sub);
    lemma_decimal(exp);
}

/// The refusal of a code: the store is left as it was, and the answer is
/// 401 with either "OTP expired or not requested" or, when a different code
/// is pending, "Invalid OTP".
pub open spec fn otp_refused(
    before: Map<Seq<char>, Seq<char>>,
    after: Map<Seq<char>, Seq<char>>,
    email: Seq<char>,
    submitted: Seq<char>,
    e: AppError,
) -> bool {
    &&& after == before
    &&& e matches AppError::Unauthorized(m)
    &&& (m@ == "OTP expired or not requested"@ || (m@ == "Invalid OTP"@ && before.contains_key(
        email,
    ) && before[email] != submitted))
}

/// The acceptance of a code: it was the pending code of the address, and it
/// is gone from the store.
pub open spec fn otp_consumed(
    before: Map<Seq<char>, Seq<char>>,
    after: Map<Seq<char>, Seq<char>>,
    email: Seq<char>,
    submitted: Seq<char>,
) -> bool {
    &&& before.contains_key(email)
    &&& before[email] == submitted
    &&& after == before.remove(email)
}

/// Every code is six ASCII digits denoting the clock's nanoseconds modulo
/// one million.
pub proof fn lemma_otp_code(subsec_nanos: nat)
    ensures
        is_otp_code(otp_code(subsec_nanos)),
        digits_value(otp_code(subsec_nanos)) == subsec_nanos % 1_000_000,
{
    let n: nat = subsec_nanos % 1_000_000;
    lemma_fixed_digits(n, 6);
    reveal_with_fuel(pow10, 7);
    assert(pow10(6) == 1_000_000);
}

/// Codes are spread over all six-digit strings: every string of six ASCII
/// digits is the code for the clock readings whose nanoseconds it spells
/// modulo one million, and two readings give the same code exactly when
/// their nanoseconds agree modulo one million.
pub proof fn lemma_every_code_issuable(code: Seq<char>, n1: nat, n2: nat)
    ensures
        is_otp_code(code) ==> otp_code(digits_value(code)) == code && digits_value(code)
            < 1_000_000,
        otp_code(n1) == otp_code(n2) <==> n1 % 1_000_000 == n2 % 1_000_000,
{
    reveal_with_fuel(pow10, 7);
    assert(pow10(6) == 1_000_000);
    if is_otp_code(code) {
        lemma_fixed_digits_of_value(code, 6);
    }
    lemma_otp_code(n1);
    lemma_otp_code(n2);
}

/// The code just issued for an address is accepted when the store still
/// finds it.
pub proof fn lemma_issued_code_accepted(
    entries: Map<Seq<char>, Seq<char>>,
    email: Seq<char>,
    code: Seq<char>,
    read: Option<String>,
)
    requires
        read_allowed(entries.insert(email, code), email, read),
        read is Some,
    ensures
        otp_matches(read, code),
{
}

/// A code that was accepted cannot be accepted again: once consumed, the
/// store finds no code for the address.
pub proof fn lemma_consumed_code_refused(
    entries: Map<Seq<char>, Seq<char>>,
    email: Seq<char>,
    submitted: Seq<char>,
    read: Option<String>,
)
    requires
        read_allowed(entries.remove(email), email, read),
    ensures
        read is None,
        !otp_matches(read, submitted),
{
}

/// Issuing a new code for an address voids the one issued before it.
pub proof fn lemma_reissue_voids_earlier_code(
    entries: Map<Seq<char>, Seq<char>>,
    email: Seq<char>,
    earlier: Seq<char>,
    later: Seq<char>,
    read: Option<String>,
)
    requires
        earlier != later,
        read_allowed(entries.insert(email, earlier).insert(email, later), email, read),
    ensures
        !otp_matches(read, earlier),
{
}

/// Issuing or consuming the code of one address changes nothing that a read
/// of another address may find.
pub proof fn lemma_other_addresses_unaffected(
    entries: Map<Seq<char>, Seq<char>>,
    email: Seq<char>,
    code: Seq<char>,
    other: Seq<char>,
    read: Option<String>,
)
    requires
        other != email,
    ensures
        read_allowed(entries.insert(email, code), other, read) == read_allowed(entries, other, read),
        read_allowed(entries.remove(email), other, read) == read_allowed(entries, other, read),
{
}

/// The code for a clock reading with `subsec_nanos` nanoseconds past the
/// second, as `format!("{:06}", subsec_nanos % 1000000)` writes it.
pub fn format_otp(subsec_nanos: u32) -> (code: String)
    ensures
        code@ == otp_code(subsec_nanos as nat),
{
    let mut code = String::new();
    push_fixed_digits(&mut code, (subsec_nanos % 1_000_000) as u64, 6);
    assert(code@ =~= otp_code(subsec_nanos as nat));
    code
}

/// Issues the code for `subsec_nanos` to the address of `payload` and
/// records it as pending, replacing any earlier code; returns the code to
/// send.
pub fn request_otp_at(store: &mut OtpStore, payload: &OtpRequestPayload, subsec_nanos: u32) -> (code:
    String)
    ensures
        code@ == otp_code(subsec_nanos as nat),
        final(store)@ == old(store)@.insert(payload.email@, code@),
        final(store).ttl_secs() == old(store).ttl_secs(),
{
    let code = format_otp(subsec_nanos);
    store.put(payload.email.clone(), code.clone());
    code
}

/// Issues a code from the clock to the address of `payload` and records it
/// as pending; returns the code to send. Fails, leaving the store as it was,
/// only when the clock reads before the Unix epoch.
pub fn request_otp(store: &mut OtpStore, payload: &OtpRequestPayload) -> (r: Result<
    String,
    AppError,
>)
    ensures
        r matches Ok(code) ==> is_otp_code(code@) && final(store)@ == old(store)@.insert(
            payload.email@,
            code@,
        ),
        r is Err ==> final(store)@ == old(store)@ && (r matches Err(AppError::Internal(m)) && m@
            == "system clock is before the Unix epoch"@),
        final(store).ttl_secs() == old(store).ttl_secs(),
{
    match since_unix_epoch() {
        Some(elapsed) => {
            let nanos: u32 = elapsed.subsec_nanos();
            proof {
                lemma_otp_code(nanos as nat);
            }
            Ok(request_otp_at(store, payload, nanos))
        },
        None => Err(AppError::Internal(String::from_str("system clock is before the Unix epoch"))),
    }
}

/// Checks a submitted code against what the store found pending: nothing
/// pending is "OTP expired or not requested", a different code is
/// "Invalid OTP", both 401; an equal code passes.
pub fn check_otp(pending: Option<String>, submitted: &String) -> (r: Result<(), AppError>)
    ensures
        r is Ok <==> otp_matches(pending, submitted@),
        pending is None ==> (r matches Err(AppError::Unauthorized(m)) && m@
            == "OTP expired or not requested"@),
        (pending matches Some(c) && c@ != submitted@) ==> (r matches Err(AppError::Unauthorized(m))
            && m@ == "Invalid OTP"@),
{
    match pending {
        None => Err(AppError::Unauthorized(String::from_str("OTP expired or not requested"))),
        Some(c) => {
            if *submitted != c {
                Err(AppError::Unauthorized(String::from_str("Invalid OTP")))
            } else {
                Ok(())
            }
        },
    }
}

/// Settles a submitted code once the store has been read: `pending` is what
/// the read of the address found. Nothing found answers "OTP expired or not
/// requested", a different code "Invalid OTP" (both 401, the store left as
/// it was); the pending code itself is accepted and removed from the store,
/// so that it cannot be used again.
pub fn accept_otp(store: &mut OtpStore, payload: &OtpVerifyPayload, pending: Option<String>) -> (r:
    Result<(), AppError>)
    requires
        read_allowed(old(store)@, payload.email@, pending),
    ensures
        r is Ok <==> otp_matches(pending, payload.otp@),
        r is Ok ==> otp_consumed(old(store)@, final(store)@, payload.email@, payload.otp@),
        r is Err ==> final(store)@ == old(store)@,
        pending is None ==> (r matches Err(AppError::Unauthorized(m)) && m@
            == "OTP expired or not requested"@),
        (pending matches Some(c) && c@ != payload.otp@) ==> (r matches Err(
            AppError::Unauthorized(m),
        ) && m@ == "Invalid OTP"@),
        final(store).ttl_secs() == old(store).ttl_secs(),
{
    let checked = check_otp(pending, &payload.otp);
    match checked {
        Ok(()) => {
            store.discard(payload.email.as_str());
            Ok(())
        },
        Err(e) => Err(e),
    }
}

/// Reads the pending code of the address and settles the submission.
fn consume_otp(store: &mut OtpStore, payload: &OtpVerifyPayload) -> (r: Result<(), AppError>)
    ensures
        r is Ok ==> otp_consumed(old(store)@, final(store)@, payload.email@, payload.otp@),
        r matches Err(e) ==> otp_refused(
            old(store)@,
            final(store)@,
            payload.email@,
            payload.otp@,
            e,
        ),
        !old(store)@.contains_key(payload.email@) ==> (r matches Err(AppError::Unauthorized(m))
            && m@ == "OTP expired or not requested"@),
        final(store).ttl_secs() == old(store).ttl_secs(),
{
    let pending = store.pending(payload.email.as_str());
    accept_otp(store, payload, pending)
}

/// `jsonwebtoken::encode` with the default header (HS256), the claims given
/// as JSON text (carried as a `serde_json` raw value, so written unchanged)
/// and the HMAC key made of the secret's bytes. The token is named by
/// `hs256_jwt`; it is `header.claims.signature`, never empty. The call
/// succeeds for claims of the form `token_claims(sub, exp)`: that text is a
/// JSON object of a string literal (escaped as `serde_json` escapes) and a
/// decimal number, so `RawValue::from_string` accepts it; `encode` fails only when the key's
/// family differs from the header's algorithm, or when serialising fails,
/// and neither happens for an HMAC key with HS256, a plain header and a raw
/// value. On a failure the error's text is returned.
#[verifier::external_body]
fn sign_hs256(claims_json: &str, secret: &str) -> (r: Result<String, String>)
    ensures
        (exists|sub: Seq<char>, exp: nat| claims_json@ == #[trigger] token_claims(sub, exp))
            ==> r is Ok,
        r matches Ok(token) ==> token@ == hs256_jwt(claims_json@, secret@) && token@.len() > 0,
{
    let claims = serde_json::value::RawValue::from_string(claims_json.to_string()).map_err(
        |e| e.to_string(),
    )?;
    let key = jsonwebtoken::EncodingKey::from_secret(secret.as_bytes());
    jsonwebtoken::encode(&jsonwebtoken::Header::default(), &claims, &key).map_err(|e| e.to_string())
}

/// The JSON claims of a token for `sub` expiring at `exp`.
pub fn token_claims_json(sub: &str, exp: u64) -> (s: String)
    ensures
        s@ == token_claims(sub@, exp as nat),
{
    let mut s = String::from_str("{\"sub\":");
    push_quoted(&mut s, sub);
    s.append(",\"exp\":");
    push_decimal(&mut s, exp);
    s.append("}");
    assert(s@ =~= token_claims(sub@, exp as nat));
    s
}

/// The token for `email`, issued at `now_secs` and valid for one day, signed
/// with `secret`. Succeeds exactly when the expiry fits in 64 bits;
/// otherwise the internal error "Failed to issue token: expiry out of
/// range".
pub fn issue_token(email: &str, now_secs: u64, secret: &str) -> (r: Result<AuthResponse, AppError>)
    ensures
        r is Ok <==> now_secs + TOKEN_LIFETIME_SECS <= u64::MAX,
        r matches Ok(resp) ==> resp.token@ == hs256_jwt(
            token_claims(email@, (now_secs + TOKEN_LIFETIME_SECS) as nat),
            secret@,
        ) && resp.token@.len() > 0,
        r matches Err(e) ==> (e matches AppError::Internal(m) && m@
            == "Failed to issue token: expiry out of range"@),
{
    if now_secs > u64::MAX - TOKEN_LIFETIME_SECS {
        return Err(
            AppError::Internal(String::from_str("Failed to issue token: expiry out of range")),
        );
    }
    let exp: u64 = now_secs + TOKEN_LIFETIME_SECS;
    let claims = token_claims_json(email, exp);
    assert(claims@ == token_claims(email@, exp as nat));
    match sign_hs256(claims.as_str(), secret) {
        Ok(token) => Ok(AuthResponse { token }),
        Err(detail) => {
            let mut m = String::from_str("Failed to issue token: ");
            m.append(detail.as_str());
            Err(AppError::Internal(m))
        },
    }
}

/// Verifies the code of `payload` at clock reading `now_secs`: a refused
/// code leaves the store unchanged and answers 401; an accepted code is
/// consumed and earns a token for the address that expires one day later,
/// signed with `secret`.
pub fn verify_otp_at(
    store: &mut OtpStore,
    payload: &OtpVerifyPayload,
    secret: &str,
    now_secs: u64,
) -> (r: Result<AuthResponse, AppError>)
    ensures
        (r is Ok || r matches Err(AppError::Internal(_))) ==> otp_consumed(
            old(store)@,
            final(store)@,
            payload.email@,
            payload.otp@,
        ),
        r matches Err(e) ==> (e is Internal || otp_refused(
            old(store)@,
            final(store)@,
            payload.email@,
            payload.otp@,
            e,
        )),
        !old(store)@.contains_key(payload.email@) ==> (r matches Err(AppError::Unauthorized(m))
            && m@ == "OTP expired or not requested"@),
        r is Ok <==> (otp_consumed(old(store)@, final(store)@, payload.email@, payload.otp@)
            && now_secs + TOKEN_LIFETIME_SECS <= u64::MAX),
        r matches Ok(resp) ==> resp.token@ == hs256_jwt(
            token_claims(payload.email@, (now_secs + TOKEN_LIFETIME_SECS) as nat),
            secret@,
        ) && resp.token@.len() > 0,
        r matches Err(AppError::Internal(m)) ==> m@ == "Failed to issue token: expiry out of range"@,
        final(store).ttl_secs() == old(store).ttl_secs(),
{
    match consume_otp(store, payload) {
        Ok(()) => issue_token(payload.email.as_str(), now_secs, secret),
        Err(e) => Err(e),
    }
}

/// Verifies the code of `payload` as `verify_otp_at` does, with the token's
/// lifetime counted from the clock: an accepted code earns the token, unless
/// the clock reads before the Unix epoch or so late that the expiry does not
/// fit in 64 bits; the code is consumed either way, and the answer is then
/// an internal error.
pub fn verify_otp(store: &mut OtpStore, payload: &OtpVerifyPayload, secret: &str) -> (r: Result<
    AuthResponse,
    AppError,
>)
    ensures
        (r is Ok || r matches Err(AppError::Internal(_))) ==> otp_consumed(
            old(store)@,
            final(store)@,
            payload.email@,
            payload.otp@,
        ),
        r matches Err(e) ==> (e is Internal || otp_refused(
            old(store)@,
            final(store)@,
            payload.email@,
            payload.otp@,
            e,
        )),
        !old(store)@.contains_key(payload.email@) ==> (r matches Err(AppError::Unauthorized(m))
            && m@ == "OTP expired or not requested"@),
        otp_consumed(old(store)@, final(store)@, payload.email@, payload.otp@) ==> (r is Ok || (r
            matches Err(AppError::Internal(m)) && (m@ == "system clock is before the Unix epoch"@
            || m@ == "Failed to issue token: expiry out of range"@))),
        r matches Ok(resp) ==> resp.token@.len() > 0 && exists|now: nat|
            resp.token@ == #[trigger] hs256_jwt(
                token_claims(payload.email@, (now + TOKEN_LIFETIME_SECS) as nat),
                secret@,
            ),
        final(store).ttl_secs() == old(store).ttl_secs(),
{
    match consume_otp(store, payload) {
        Ok(()) => match unix_seconds_now() {
            Some(now) => issue_token(payload.email.as_str(), now, secret),
            None => Err(AppError::Internal(String::from_str("system clock is before the Unix epoch"))),
        },
        Err(e) => Err(e),
    }
}

} // verus!
