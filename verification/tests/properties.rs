use otp::{BaseOtp, Otp, Variant};

const KEY: &str = "12345678901234567890";

// RFC 4226 Appendix D intermediate value: the HMAC-SHA1 digest for the
// standard test key and counter 0.
const DIGEST_COUNTER_0: [u8; 20] = [
    0xcc, 0x93, 0xcf, 0x18, 0x50, 0x8d, 0x94, 0x93, 0x4c, 0x64, 0xb6, 0x5d, 0x8b, 0xa7, 0x66,
    0x7f, 0xb7, 0xcd, 0xe4, 0xb0,
];

#[test]
fn derive_code_in_range_and_deterministic() {
    // Last byte 0x10: low nibble 0, so the window starts at index 0.
    let mut d = vec![0u8; 20];
    d[0] = 0x7f;
    d[1] = 0x01;
    d[2] = 0x02;
    d[3] = 0x03;
    d[19] = 0x10;
    let c = otp::derive_code(&d);
    // big-endian 0x7f010203 = 2130772483, modulo 1000000
    assert_eq!(c, 772483);
    assert!(c <= 999999);
    // Same digest, same code: the derivation is a pure function.
    assert_eq!(otp::derive_code(&d), c);
}

#[test]
fn derive_code_offset_fifteen_stays_in_bounds() {
    // Last byte 0xff: low nibble 15, the largest offset; the window is the
    // bytes at indices 15..=18 and never reads past index 19.
    let mut d = vec![0u8; 20];
    d[15] = 0x80; // high bit is cleared by truncation
    d[16] = 0x01;
    d[17] = 0x00;
    d[18] = 0x00;
    d[19] = 0xff;
    // window after masking: [0x00, 0x01, 0x00, 0x00] = 65536
    assert_eq!(otp::derive_code(&d), 65536);
}

#[test]
fn derive_code_of_rfc_digest() {
    let c = otp::derive_code(&DIGEST_COUNTER_0.to_vec());
    assert_eq!(c, 755224);
}

#[test]
fn hmac_digest_matches_rfc_vector() {
    // Would fail if the digest wrapper handed its message back unchanged.
    let base = BaseOtp { key: KEY.as_bytes().to_vec(), factor: 0 };
    assert_eq!(base.hmac_sha1(), DIGEST_COUNTER_0.to_vec());
}

#[test]
fn base_otp_pipeline_known_answer() {
    let base = BaseOtp { key: KEY.as_bytes().to_vec(), factor: 1 };
    let w = base.dyn_trunc();
    assert_eq!(w.len(), 4);
    assert!(w[0] < 0x80);
    let n = base.str2num();
    assert_eq!(n % 1000000, 287082);
    assert_eq!(base.code(), 287082);
}

#[test]
fn base_otp_setters() {
    let mut base = BaseOtp { key: vec![], factor: 0 };
    base.key(KEY.as_bytes().to_vec());
    assert_eq!(base.key.as_slice(), KEY.as_bytes());
    assert_eq!(base.factor, 0);
    base.factor(3);
    assert_eq!(base.factor, 3);
    assert_eq!(base.code(), 969429);
}

#[test]
fn empty_key_is_honored() {
    // HMAC with an empty key is well-defined and not special-cased.
    let hotp = Otp::new_hotp(Vec::new(), 0);
    let c = hotp.current_code();
    assert!(c <= 999999);
    // A fresh instance agrees.
    assert_eq!(Otp::new_hotp(Vec::new(), 0).current_code(), c);
}

#[test]
fn round_trip_fresh_instance_same_code() {
    // Read the factor and key back out of one instance, build a fresh one
    // from them, and the codes agree.
    let a = Otp::new_hotp(KEY.as_bytes().to_vec(), 41);
    let b = Otp::new_hotp(a.key().clone(), a.current_factor());
    assert_eq!(a.current_code(), b.current_code());
}

#[test]
fn current_code_does_not_advance() {
    let mut hotp = Otp::new_hotp(KEY.as_bytes().to_vec(), 0);
    assert_eq!(hotp.current_code(), 755224);
    assert_eq!(hotp.current_code(), 755224);
    assert_eq!(hotp.current_factor(), 0);
    assert_eq!(hotp.update(), Some(755224));
    assert_eq!(hotp.current_factor(), 1);
}

#[test]
fn variant_tag_never_changes() {
    let mut hotp = Otp::new_hotp(KEY.as_bytes().to_vec(), 0);
    assert!(matches!(hotp.variant(), Variant::Hotp));
    hotp.update();
    assert!(matches!(hotp.variant(), Variant::Hotp));

    let mut totp = Otp::new_totp(KEY.as_bytes().to_vec()).unwrap();
    assert!(matches!(totp.variant(), Variant::Totp));
    totp.update();
    assert!(matches!(totp.variant(), Variant::Totp));
}

#[test]
fn counter_advance_ignores_clock() {
    // A counter-based instance advances by exactly one per code, whatever
    // the wall clock does between calls.
    let mut hotp = Otp::new_hotp("foobar".as_bytes().to_vec(), 10);
    let c = hotp.update().unwrap();
    assert_eq!(hotp.current_factor(), 11);
    assert_eq!(c, Otp::new_hotp("foobar".as_bytes().to_vec(), 10).current_code());
}

#[test]
fn totp_factor_fixed_window() {
    assert_eq!(Otp::totp_factor_from_seconds(0), 0);
    assert_eq!(Otp::totp_factor_from_seconds(29), 0);
    assert_eq!(Otp::totp_factor_from_seconds(30), 1);
    assert_eq!(Otp::totp_factor_from_seconds(59), 1);
    assert_eq!(Otp::totp_factor_from_seconds(60), 2);
    assert_eq!(Otp::totp_factor_from_seconds(u64::MAX), u64::MAX / 30);
}

#[test]
fn same_window_same_code() {
    // Two clock readings inside one 30-second window give the same factor,
    // and instances holding that factor give the same code.
    let t1: u64 = 90; // window 3
    let t2: u64 = 115; // still window 3
    let f1 = Otp::totp_factor_from_seconds(t1);
    let f2 = Otp::totp_factor_from_seconds(t2);
    assert_eq!(f1, f2);
    let a = BaseOtp { key: KEY.as_bytes().to_vec(), factor: f1 };
    let b = BaseOtp { key: KEY.as_bytes().to_vec(), factor: f2 };
    assert_eq!(a.code(), b.code());
}

#[test]
fn totp_reads_in_one_window_agree() {
    // Resample until two consecutive clock windows agree, then the two
    // code reads in between must have been identical.
    loop {
        let before = Otp::totp_factor().unwrap();
        let mut totp = Otp::new_totp(KEY.as_bytes().to_vec()).unwrap();
        let c1 = totp.update().unwrap();
        let c2 = totp.update().unwrap();
        let after = Otp::totp_factor().unwrap();
        if before == after {
            assert_eq!(c1, c2);
            assert_eq!(totp.current_factor(), before);
            return;
        }
    }
}
