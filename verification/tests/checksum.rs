use rustup_core::checksum::{candidate_matches, digest_matches};
use rustup_core::errors::Error;
use rustup_core::fileops::FileOp;
use rustup_core::installer::InstallEvent;
use rustup_core::self_update::{check_candidate, deferred_swap_ops, upgrade_ops};

const HELLO_WORLD: &str = "b94d27b9934d3e08a52e52d7da7dabfac484efe37a5380ee9088f7ace2efcde9";
const EMPTY: &str = "e3b0c44298fc1c149afbf4c8996fb92427ae41e4649b934ca495991b7852b855";
const ABC: &str = "ba7816bf8f01cfea414140de5dae2223b00361a396177a9cb410ff61f20015ad";

#[test]
fn digest_written_as_hex() {
    assert!(digest_matches(&[0x00, 0x0f, 0xa5, 0xff], "000fa5ff"));
    assert!(digest_matches(&[0x12, 0x34, 0x56, 0x78, 0x9a, 0xbc, 0xde, 0xf0], "123456789abcdef0"));
    assert!(digest_matches(&[], ""));
}

#[test]
fn hex_must_be_lower_case_and_complete() {
    assert!(!digest_matches(&[0xab], "AB"));
    assert!(!digest_matches(&[0xab], "aB"));
    assert!(!digest_matches(&[0xab], "a"));
    assert!(!digest_matches(&[0xab], "ab0"));
    assert!(!digest_matches(&[0xab], "abab"));
    assert!(!digest_matches(&[0xab], ""));
    assert!(!digest_matches(&[0xab], "ac"));
    assert!(!digest_matches(&[0xab], "bb"));
    assert!(!digest_matches(&[0xab], " ab"));
    assert!(!digest_matches(&[], "00"));
}

#[test]
fn every_byte_has_its_two_digits() {
    for byte in 0u16..256 {
        let byte = byte as u8;
        assert!(digest_matches(&[byte], &format!("{:02x}", byte)));
        assert!(!digest_matches(&[byte], &format!("{:02x}", byte.wrapping_add(1))));
    }
}

#[test]
fn known_sha256_digests() {
    assert!(candidate_matches(b"hello world", HELLO_WORLD));
    assert!(candidate_matches(b"", EMPTY));
    assert!(candidate_matches(b"abc", ABC));
}

#[test]
fn a_digest_is_not_its_input() {
    assert!(!candidate_matches(b"abc", "616263"));
    assert!(!candidate_matches(b"hello world", EMPTY));
    assert!(!candidate_matches(b"hello worle", HELLO_WORLD));
    assert!(!candidate_matches(b"", ""));
}

#[test]
fn checksum_in_upper_case_is_rejected() {
    assert!(!candidate_matches(b"abc", &ABC.to_uppercase()));
}

#[test]
fn candidate_check_reports_to_the_machine() {
    assert_eq!(check_candidate(b"hello world", HELLO_WORLD), InstallEvent::CandidateVerified);
    assert_eq!(check_candidate(b"hello world!", HELLO_WORLD), InstallEvent::CandidateRejected);
    assert_eq!(check_candidate(b"hello world", ""), InstallEvent::CandidateRejected);
}

#[test]
fn checksum_mismatch_hands_out_no_operation() {
    for can_replace in [true, false] {
        let ops = upgrade_ops(
            b"tampered",
            HELLO_WORLD,
            "/tmp/dl/rustup-init",
            "/home/alice/.cargo/bin/rustup",
            can_replace,
        );
        assert_eq!(ops, Err(Error::Integrity { expected: String::from(HELLO_WORLD) }));
        assert_eq!(
            ops.unwrap_err().message(),
            format!("checksum failed: expected {}", HELLO_WORLD)
        );
    }
}

#[test]
fn verified_candidate_is_staged_and_renamed() {
    let ops = upgrade_ops(
        b"hello world",
        HELLO_WORLD,
        "/tmp/dl/rustup-init",
        "/home/alice/.cargo/bin/rustup",
        true,
    );
    assert_eq!(
        ops,
        Ok(vec![
            FileOp::CopyToTemp {
                from: String::from("/tmp/dl/rustup-init"),
                temp: String::from("/home/alice/.cargo/bin/rustup.tmp"),
            },
            FileOp::Rename {
                from: String::from("/home/alice/.cargo/bin/rustup.tmp"),
                to: String::from("/home/alice/.cargo/bin/rustup"),
            },
        ])
    );
}

#[test]
fn locked_binary_is_only_staged() {
    let ops = upgrade_ops(
        b"hello world",
        HELLO_WORLD,
        "C:\\dl\\rustup-init.exe",
        "C:\\cargo\\bin\\rustup.exe",
        false,
    );
    assert_eq!(
        ops,
        Ok(vec![FileOp::CopyToTemp {
            from: String::from("C:\\dl\\rustup-init.exe"),
            temp: String::from("C:\\cargo\\bin\\rustup.exe.tmp"),
        }])
    );
    let swap = deferred_swap_ops("C:\\cargo\\bin\\rustup.exe", false);
    assert_eq!(
        swap,
        Ok(vec![FileOp::Rename {
            from: String::from("C:\\cargo\\bin\\rustup.exe.tmp"),
            to: String::from("C:\\cargo\\bin\\rustup.exe"),
        }])
    );
}

#[test]
fn deferred_swap_exists_only_where_binaries_are_locked() {
    let swap = deferred_swap_ops("/home/alice/.cargo/bin/rustup", true);
    assert_eq!(swap, Err(Error::PlatformUnsupportedOperation));
    assert_eq!(
        swap.unwrap_err().message(),
        "operation is not supported on this platform"
    );
}
