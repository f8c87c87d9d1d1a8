//! The domain entities and the payloads that the HTTP API exchanges.
use vstd::prelude::*;

verus! {

/// An employee record.
#[derive(Debug, Clone, PartialEq, Eq)]
pub struct Employee {
    /// The unique identifier of the employee.
    pub id: i64,
    /// Full name of the employee.
    pub name: String,
    /// Department the employee works in.
    pub department: String,
    /// Whether the employee is currently active.
    pub active: bool,
}

/// What is needed to create an employee.
#[derive(Debug, Clone, PartialEq, Eq)]
pub struct CreateEmployeePayload {
    /// Full name of the employee.
    pub name: String,
    /// Department the employee works in.
    pub department: String,
}

/// A request for a one-time password sent by e-mail.
#[derive(Debug, Clone, PartialEq, Eq)]
pub struct OtpRequestPayload {
    /// The address to send the code to.
    pub email: String,
}

/// A one-time password submitted for verification.
#[derive(Debug, Clone, PartialEq, Eq)]
pub struct OtpVerifyPayload {
    /// The address the code was sent to.
    pub email: String,
    /// The six-digit code.
    pub otp: String,
}

/// The answer to a successful verification.
#[derive(Debug, Clone, PartialEq, Eq)]
pub struct AuthResponse {
    /// The JSON Web Token for subsequent authenticated requests.
    pub token: String,
}

} // verus!
