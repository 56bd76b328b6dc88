use fq::socks::{ecn_codepoint_from_byte, EcnCodepoint, OsError};

#[test]
fn is_unreachable_matches_unix_c_list() {
    for code in [libc::EAFNOSUPPORT, libc::ECONNRESET, libc::EHOSTUNREACH, libc::ENETDOWN, libc::ENETUNREACH, -1] {
        assert!(OsError(code).is_unreachable());
    }
    for code in [0, libc::EIO, libc::EACCES, libc::EADDRNOTAVAIL] {
        assert!(!OsError(code).is_unreachable());
    }
}

#[test]
fn unreachable_among_given_list() {
    assert!(OsError(-1).is_unreachable_among(&[]));
    assert!(OsError(7).is_unreachable_among(&[3, 7]));
    assert!(!OsError(8).is_unreachable_among(&[3, 7]));
}

#[test]
fn ecn_from_byte_keeps_low_bits() {
    assert_eq!(ecn_codepoint_from_byte(0), EcnCodepoint::NotEct);
    assert_eq!(ecn_codepoint_from_byte(1), EcnCodepoint::Ect1);
    assert_eq!(ecn_codepoint_from_byte(2), EcnCodepoint::Ect0);
    assert_eq!(ecn_codepoint_from_byte(3), EcnCodepoint::Ce);
    assert_eq!(ecn_codepoint_from_byte(0xb9), EcnCodepoint::Ect1);
    assert_eq!(ecn_codepoint_from_byte(0xfe), EcnCodepoint::Ect0);
}

#[test]
fn ecn_roundtrip() {
    for c in [EcnCodepoint::NotEct, EcnCodepoint::Ect1, EcnCodepoint::Ect0, EcnCodepoint::Ce] {
        assert_eq!(ecn_codepoint_from_byte(c.bits()), c);
    }
    assert_eq!(EcnCodepoint::default(), EcnCodepoint::NotEct);
    assert_eq!(EcnCodepoint::Ce.bits(), 3);
}
