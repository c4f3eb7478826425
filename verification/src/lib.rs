//! One-time numeric authentication codes: counter-based (HOTP, RFC 4226)
//! and time-based (TOTP, RFC 6238) generation of 6-digit codes from a
//! shared secret key and a 64-bit moving factor.

pub mod clock;
pub mod hmac;
pub mod otp;
pub mod truncation;

pub use otp::{BaseOtp, Otp, Variant};
pub use truncation::derive_code;
