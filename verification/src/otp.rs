//! OTP instances: a secret key coupled with a 64-bit moving factor and a
//! variant tag that decides how the factor advances from code to code.

use vstd::prelude::*;
use vstd::arithmetic::div_mod::{
    lemma_div_is_ordered, lemma_fundamental_div_mod, lemma_fundamental_div_mod_converse,
};
use crate::clock::unix_time_seconds;
use crate::hmac::{hmac_sha1_bytes, hmac_sha1_of};
use crate::truncation::{be32_val, code_of_digest, dynamic_truncation, str_to_num, truncated_bytes};

verus! {

/// The 8-byte big-endian encoding of a 64-bit moving factor, as RFC 4226
/// mandates: most significant byte first.
pub open spec fn factor_bytes(f: u64) -> Seq<u8> {
    seq![
        ((f >> 56) & 0xff) as u8,
        ((f >> 48) & 0xff) as u8,
        ((f >> 40) & 0xff) as u8,
        ((f >> 32) & 0xff) as u8,
        ((f >> 24) & 0xff) as u8,
        ((f >> 16) & 0xff) as u8,
        ((f >> 8) & 0xff) as u8,
        (f & 0xff) as u8,
    ]
}

/// The code an instance with key `key` and moving factor `factor` yields:
/// the HMAC-SHA1 digest of the big-endian factor, reduced to six digits.
pub open spec fn otp_code(key: Seq<u8>, factor: u64) -> int {
    code_of_digest(hmac_sha1_of(key, factor_bytes(factor)))
}

/// The TOTP moving factor for a clock reading of `t` seconds past the Unix
/// epoch: the index of the 30-second window containing `t`.
pub open spec fn totp_factor_at(t: u64) -> u64 {
    (t as int / 30) as u64
}

/// The shared inner state of both variants: the secret key and the current
/// moving factor. The key is an opaque byte string; an empty key is legal.
pub struct BaseOtp {
    pub key: Vec<u8>,
    pub factor: u64,
}

impl BaseOtp {
    /// Replaces the secret key; the factor is untouched.
    pub fn key(&mut self, key: Vec<u8>)
        ensures
            final(self).key == key,
            final(self).factor == old(self).factor,
    {
        self.key = key;
    }

    /// Replaces the moving factor; the key is untouched.
    pub fn factor(&mut self, factor: u64)
        ensures
            final(self).key == old(self).key,
            final(self).factor == factor,
    {
        self.factor = factor;
    }

    /// The 20-byte HMAC-SHA1 digest of the 8-byte big-endian encoding of the
    /// current factor, keyed by the secret key.
    pub fn hmac_sha1(&self) -> (d: Vec<u8>)
        ensures
            d@ == hmac_sha1_of(self.key@, factor_bytes(self.factor)),
            d@.len() == 20,
    {
        let f = self.factor;
        proof {
            assert((f >> 56) & 0xff < 256 && (f >> 48) & 0xff < 256 && (f >> 40) & 0xff < 256
                && (f >> 32) & 0xff < 256 && (f >> 24) & 0xff < 256 && (f >> 16) & 0xff < 256
                && (f >> 8) & 0xff < 256 && f & 0xff < 256) by (bit_vector);
        }
        let mut data: Vec<u8> = Vec::new();
        data.push(((f >> 56) & 0xff) as u8);
        data.push(((f >> 48) & 0xff) as u8);
        data.push(((f >> 40) & 0xff) as u8);
        data.push(((f >> 32) & 0xff) as u8);
        data.push(((f >> 24) & 0xff) as u8);
        data.push(((f >> 16) & 0xff) as u8);
        data.push(((f >> 8) & 0xff) as u8);
        data.push((f & 0xff) as u8);
        proof {
            assert(data@ =~= factor_bytes(f));
        }
        hmac_sha1_bytes(&self.key, &data)
    }

    /// The four bytes dynamic truncation extracts from the current digest.
    pub fn dyn_trunc(&self) -> (w: Vec<u8>)
        ensures
            w@ == truncated_bytes(hmac_sha1_of(self.key@, factor_bytes(self.factor))),
            w@.len() == 4,
    {
        let hs = self.hmac_sha1();
        dynamic_truncation(&hs)
    }

    /// The truncated bytes read as one big-endian 32-bit integer.
    pub fn str2num(&self) -> (n: u32)
        ensures
            n == be32_val(truncated_bytes(hmac_sha1_of(self.key@, factor_bytes(self.factor)))),
    {
        let sbits = self.dyn_trunc();
        str_to_num(&sbits)
    }

    /// The 6-digit code for the current key and factor.
    pub fn code(&self) -> (c: u32)
        ensures
            c == otp_code(self.key@, self.factor),
            c <= 999999,
    {
        let num = self.str2num();
        num % 1000000
    }
}

/// How the moving factor advances: an explicit counter incremented once per
/// code (HOTP), or the index of the current 30-second window of Unix time,
/// resampled from the clock on each advance (TOTP).
#[derive(Clone, Copy, PartialEq, Eq, Structural)]
pub enum Variant {
    Hotp,
    Totp,
}

/// An OTP instance: a secret key, a moving factor, and the variant tag that
/// decides how the factor advances. The tag never changes after
/// construction, and a time-based instance's factor can only be overwritten
/// by resampling the clock.
pub struct Otp {
    variant: Variant,
    base: BaseOtp,
}

impl Otp {
    /// The variant the instance was constructed with.
    pub closed spec fn spec_variant(&self) -> Variant {
        self.variant
    }

    /// The stored secret key.
    pub closed spec fn spec_key(&self) -> Seq<u8> {
        self.base.key@
    }

    /// The stored moving factor.
    pub closed spec fn spec_factor(&self) -> u64 {
        self.base.factor
    }

    /// A counter-based (HOTP) instance with the given key and initial
    /// counter.
    pub fn new_hotp(key: Vec<u8>, factor: u64) -> (r: Otp)
        ensures
            r.spec_variant() == Variant::Hotp,
            r.spec_key() == key@,
            r.spec_factor() == factor,
    {
        Otp { variant: Variant::Hotp, base: BaseOtp { key, factor } }
    }

    /// A time-based (TOTP) instance with the given key; the factor is the
    /// index of the current 30-second window of Unix time. Returns None when
    /// the clock read failed (a reading before the epoch): the failure is
    /// surfaced rather than replaced by a default time.
    pub fn new_totp(key: Vec<u8>) -> (r: Option<Otp>)
        ensures
            (r matches Some(o) ==> o.spec_variant() == Variant::Totp && o.spec_key() == key@),
    {
        match Self::totp_factor() {
            Some(f) => Some(Otp { variant: Variant::Totp, base: BaseOtp { key, factor: f } }),
            None => None,
        }
    }

    /// The current TOTP moving factor: the window index of the current Unix
    /// time, or None when the clock read failed. The value depends on the
    /// wall clock; `totp_factor_from_seconds` carries the verified policy.
    pub fn totp_factor() -> (r: Option<u64>)
        ensures
            (r matches Some(f) ==> f <= u64::MAX / 30),
    {
        match unix_time_seconds() {
            Some(t) => {
                proof {
                    lemma_div_is_ordered(t as int, u64::MAX as int, 30);
                }
                Some(Self::totp_factor_from_seconds(t))
            },
            None => None,
        }
    }

    /// The TOTP moving factor for a given clock reading: integer division of
    /// the seconds by the fixed 30-second time step.
    pub fn totp_factor_from_seconds(t: u64) -> (f: u64)
        ensures
            f == totp_factor_at(t),
    {
        t / 30
    }

    /// The stored secret key, read through the variant wrapper.
    pub fn key(&self) -> (k: &Vec<u8>)
        ensures
            k@ == self.spec_key(),
    {
        &self.base.key
    }

    /// The stored moving factor, read through the variant wrapper.
    pub fn current_factor(&self) -> (f: u64)
        ensures
            f == self.spec_factor(),
    {
        self.base.factor
    }

    /// The variant tag.
    pub fn variant(&self) -> (v: Variant)
        ensures
            v == self.spec_variant(),
    {
        self.variant
    }

    /// The code for the stored key and factor; the state is not advanced.
    pub fn current_code(&self) -> (c: u32)
        ensures
            c == otp_code(self.spec_key(), self.spec_factor()),
            c <= 999999,
    {
        self.base.code()
    }

    /// Produces a code and advances the moving factor.
    ///
    /// A counter-based instance derives the code from the stored counter and
    /// then increments the counter by exactly one; it never reads the clock,
    /// so its result and next state are pinned by the prior state alone.
    /// Incrementing past u64::MAX is caller misuse and is excluded rather
    /// than wrapped, since wrapping would reuse earlier counter values.
    ///
    /// A time-based instance resamples the clock, stores the fresh window
    /// index, and derives the code from that fresh factor — never from a
    /// caller-supplied counter. Returns None when the clock read failed; the
    /// instance is then unchanged.
    pub fn update(&mut self) -> (r: Option<u32>)
        requires
            old(self).spec_variant() == Variant::Hotp ==> old(self).spec_factor() < u64::MAX,
        ensures
            final(self).spec_variant() == old(self).spec_variant(),
            final(self).spec_key() == old(self).spec_key(),
            old(self).spec_variant() == Variant::Hotp ==> {
                &&& (r matches Some(c) && c == otp_code(old(self).spec_key(),
                    old(self).spec_factor()))
                &&& final(self).spec_factor() == old(self).spec_factor() + 1
            },
            old(self).spec_variant() == Variant::Totp ==> match r {
                Some(c) => c == otp_code(final(self).spec_key(), final(self).spec_factor()),
                None => final(self).spec_factor() == old(self).spec_factor(),
            },
    {
        match self.variant {
            Variant::Hotp => {
                let code = self.base.code();
                self.base.factor = self.base.factor + 1;
                Some(code)
            },
            Variant::Totp => {
                match Self::totp_factor() {
                    Some(f) => {
                        self.base.factor = f;
                        Some(self.base.code())
                    },
                    None => None,
                }
            },
        }
    }
}

/// Two time-based reads less than 30 seconds apart with no intervening
/// window boundary fall in the same 30-second window, so they yield the same
/// moving factor and hence the same code.
pub proof fn lemma_same_window_same_code(key: Seq<u8>, t1: u64, t2: u64)
    requires
        t1 <= t2,
        t2 - t1 < 30,
        t1 % 30 + (t2 - t1) < 30,
    ensures
        totp_factor_at(t1) == totp_factor_at(t2),
        otp_code(key, totp_factor_at(t1)) == otp_code(key, totp_factor_at(t2)),
{
    lemma_fundamental_div_mod(t1 as int, 30);
    lemma_fundamental_div_mod_converse(
        t2 as int,
        30,
        t1 as int / 30,
        t1 as int % 30 + (t2 - t1),
    );
}

/// Round-trip stability: two instances holding the same key and the same
/// factor — for example, a fresh instance constructed from the key and
/// factor read back out of another — yield the same code, whatever either
/// instance's history.
pub proof fn lemma_same_state_same_code(a: Otp, b: Otp)
    requires
        a.spec_key() == b.spec_key(),
        a.spec_factor() == b.spec_factor(),
    ensures
        otp_code(a.spec_key(), a.spec_factor()) == otp_code(b.spec_key(), b.spec_factor()),
{
}

} // verus!
