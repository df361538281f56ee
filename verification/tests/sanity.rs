use rustup_core::decimal::parse_i32;
use rustup_core::errors::{ConflictKind, Error};
use rustup_core::sanity::{
    detect, do_pre_install_sanity_checks, is_version_below_cutoff, ConflictReport,
    LegacyInstallSignal, MultirustHome, RustupShHome, CUTOFF_VERSION, MULTIRUST_MANIFEST_PATH,
    RUSTC_MANIFEST_PATH, UNINSTALLER_PATH,
};

fn clean_signal() -> LegacyInstallSignal {
    LegacyInstallSignal {
        multirust_manifest_exists: false,
        rustc_manifest_exists: false,
        uninstaller_exists: false,
        multirust_home: Some(MultirustHome {
            path: String::from("/home/alice/.multirust"),
            version: None,
        }),
        rustup_sh_home: Some(RustupShHome {
            path: String::from("/home/alice/.rustup"),
            has_version_marker: false,
        }),
    }
}

fn no_findings() -> ConflictReport {
    ConflictReport {
        multirust_installed: false,
        old_multirust_metadata: false,
        rust_installed: false,
        rustup_sh_installed: false,
    }
}

#[test]
fn well_known_paths() {
    assert_eq!(MULTIRUST_MANIFEST_PATH, "/usr/local/lib/rustlib/manifest-multirust");
    assert_eq!(RUSTC_MANIFEST_PATH, "/usr/local/lib/rustlib/manifest-rustc");
    assert_eq!(UNINSTALLER_PATH, "/usr/local/lib/rustlib/uninstall.sh");
    assert_eq!(CUTOFF_VERSION, 12);
}

#[test]
fn parse_plain_numbers() {
    assert_eq!(parse_i32("0"), Some(0));
    assert_eq!(parse_i32("12"), Some(12));
    assert_eq!(parse_i32("007"), Some(7));
    assert_eq!(parse_i32("+12"), Some(12));
    assert_eq!(parse_i32("-12"), Some(-12));
    assert_eq!(parse_i32("-0"), Some(0));
}

#[test]
fn parse_limits_of_32_bits() {
    assert_eq!(parse_i32("2147483647"), Some(i32::MAX));
    assert_eq!(parse_i32("2147483648"), None);
    assert_eq!(parse_i32("-2147483648"), Some(i32::MIN));
    assert_eq!(parse_i32("-2147483649"), None);
    assert_eq!(parse_i32("99999999999999999999999999"), None);
    assert_eq!(parse_i32("000000000000000000000002147483647"), Some(i32::MAX));
}

#[test]
fn parse_rejects_what_is_no_integer() {
    assert_eq!(parse_i32(""), None);
    assert_eq!(parse_i32("+"), None);
    assert_eq!(parse_i32("-"), None);
    assert_eq!(parse_i32("12\n"), None);
    assert_eq!(parse_i32(" 12"), None);
    assert_eq!(parse_i32("1_000"), None);
    assert_eq!(parse_i32("12a"), None);
    assert_eq!(parse_i32("--1"), None);
    assert_eq!(parse_i32("1.5"), None);
    assert_eq!(parse_i32("١٢"), None);
}

#[test]
fn parse_agrees_with_std() {
    let samples = [
        "0", "1", "-1", "+5", "11", "12", "13", "2147483647", "2147483648", "-2147483648",
        "-2147483649", "", "-", "+", "x", "1x", "x1", " 1", "1 ", "0012", "+-1", "4294967296",
    ];
    for text in samples.iter() {
        assert_eq!(parse_i32(text), text.parse::<i32>().ok(), "for {:?}", text);
    }
}

#[test]
fn version_cutoff() {
    assert!(is_version_below_cutoff("11"));
    assert!(is_version_below_cutoff("0"));
    assert!(is_version_below_cutoff("-3"));
    assert!(!is_version_below_cutoff("12"));
    assert!(!is_version_below_cutoff("13"));
    assert!(!is_version_below_cutoff("2147483647"));
}

#[test]
fn unreadable_version_counts_as_old() {
    assert!(is_version_below_cutoff(""));
    assert!(is_version_below_cutoff("twelve"));
    assert!(is_version_below_cutoff("12\n"));
    assert!(is_version_below_cutoff("2147483648"));
}

#[test]
fn nothing_found_passes() {
    let signal = clean_signal();
    assert_eq!(detect(&signal), no_findings());
    assert!(!detect(&signal).any());
    assert_eq!(detect(&signal).first_kind(), None);
    assert_eq!(do_pre_install_sanity_checks(&signal), Ok(()));
}

#[test]
fn no_home_directory_passes() {
    let mut signal = clean_signal();
    signal.multirust_home = None;
    signal.rustup_sh_home = None;
    assert_eq!(detect(&signal), no_findings());
    assert_eq!(do_pre_install_sanity_checks(&signal), Ok(()));
}

#[test]
fn a_manifest_without_uninstaller_is_no_finding() {
    let mut signal = clean_signal();
    signal.multirust_manifest_exists = true;
    signal.rustc_manifest_exists = true;
    assert_eq!(detect(&signal), no_findings());
    assert_eq!(do_pre_install_sanity_checks(&signal), Ok(()));
}

#[test]
fn an_uninstaller_alone_is_no_finding() {
    let mut signal = clean_signal();
    signal.uninstaller_exists = true;
    assert_eq!(detect(&signal), no_findings());
    assert_eq!(do_pre_install_sanity_checks(&signal), Ok(()));
}

#[test]
fn multirust_installation_is_refused() {
    let mut signal = clean_signal();
    signal.multirust_manifest_exists = true;
    signal.uninstaller_exists = true;
    let report = detect(&signal);
    assert!(report.multirust_installed);
    assert!(!report.old_multirust_metadata);
    assert!(!report.rust_installed);
    assert!(report.any());
    assert_eq!(report.first_kind(), Some(ConflictKind::Multirust));
    let err = do_pre_install_sanity_checks(&signal).unwrap_err();
    assert_eq!(
        err,
        Error::Conflict {
            kind: ConflictKind::Multirust,
            advice: String::from(
                "run `/usr/local/lib/rustlib/uninstall.sh` as root to uninstall multirust before installing rustup"
            ),
        }
    );
    assert_eq!(err.message(), "cannot install while multirust is installed");
}

#[test]
fn old_multirust_metadata_is_refused() {
    let mut signal = clean_signal();
    signal.multirust_home = Some(MultirustHome {
        path: String::from("/home/alice/.multirust"),
        version: Some(String::from("2")),
    });
    let report = detect(&signal);
    assert!(!report.multirust_installed);
    assert!(report.old_multirust_metadata);
    assert_eq!(
        do_pre_install_sanity_checks(&signal),
        Err(Error::Conflict {
            kind: ConflictKind::Multirust,
            advice: String::from("delete `/home/alice/.multirust` before installing rustup"),
        })
    );
}

#[test]
fn current_metadata_is_accepted() {
    let mut signal = clean_signal();
    signal.multirust_home = Some(MultirustHome {
        path: String::from("/home/alice/.multirust"),
        version: Some(String::from("12")),
    });
    assert!(!detect(&signal).old_multirust_metadata);
    assert_eq!(do_pre_install_sanity_checks(&signal), Ok(()));
}

#[test]
fn unreadable_metadata_is_refused() {
    let mut signal = clean_signal();
    signal.multirust_home = Some(MultirustHome {
        path: String::from("/home/alice/.multirust"),
        version: Some(String::new()),
    });
    assert!(detect(&signal).old_multirust_metadata);
    assert!(do_pre_install_sanity_checks(&signal).is_err());
}

#[test]
fn installation_and_metadata_together_give_one_error() {
    let mut signal = clean_signal();
    signal.multirust_manifest_exists = true;
    signal.uninstaller_exists = true;
    signal.multirust_home = Some(MultirustHome {
        path: String::from("/home/alice/.multirust"),
        version: Some(String::from("3")),
    });
    assert_eq!(
        do_pre_install_sanity_checks(&signal),
        Err(Error::Conflict {
            kind: ConflictKind::Multirust,
            advice: String::from(
                "run `/usr/local/lib/rustlib/uninstall.sh` as root and delete `/home/alice/.multirust` before installing rustup"
            ),
        })
    );
}

#[test]
fn system_rust_is_refused() {
    let mut signal = clean_signal();
    signal.rustc_manifest_exists = true;
    signal.uninstaller_exists = true;
    let report = detect(&signal);
    assert!(report.rust_installed);
    assert_eq!(report.first_kind(), Some(ConflictKind::Rust));
    let err = do_pre_install_sanity_checks(&signal).unwrap_err();
    assert_eq!(
        err,
        Error::Conflict {
            kind: ConflictKind::Rust,
            advice: String::from(
                "run `/usr/local/lib/rustlib/uninstall.sh` as root to uninstall Rust"
            ),
        }
    );
    assert_eq!(err.message(), "cannot install while Rust is installed");
}

#[test]
fn rustup_sh_is_refused_with_its_own_error() {
    let mut signal = clean_signal();
    signal.rustup_sh_home = Some(RustupShHome {
        path: String::from("/home/alice/.rustup"),
        has_version_marker: true,
    });
    let report = detect(&signal);
    assert!(report.rustup_sh_installed);
    assert_eq!(report.first_kind(), Some(ConflictKind::RustupSh));
    let err = do_pre_install_sanity_checks(&signal).unwrap_err();
    assert_eq!(
        err,
        Error::Conflict {
            kind: ConflictKind::RustupSh,
            advice: String::from("delete `/home/alice/.rustup` to remove rustup.sh"),
        }
    );
    assert_eq!(err.message(), "cannot install while rustup.sh is installed");
}

#[test]
fn multirust_is_reported_before_the_others() {
    let mut signal = clean_signal();
    signal.multirust_manifest_exists = true;
    signal.rustc_manifest_exists = true;
    signal.uninstaller_exists = true;
    signal.rustup_sh_home = Some(RustupShHome {
        path: String::from("/home/alice/.rustup"),
        has_version_marker: true,
    });
    let report = detect(&signal);
    assert!(report.multirust_installed && report.rust_installed && report.rustup_sh_installed);
    assert_eq!(report.first_kind(), Some(ConflictKind::Multirust));
    match do_pre_install_sanity_checks(&signal) {
        Err(Error::Conflict { kind, .. }) => assert_eq!(kind, ConflictKind::Multirust),
        other => panic!("unexpected {:?}", other),
    }
}

#[test]
fn system_rust_is_reported_before_rustup_sh() {
    let mut signal = clean_signal();
    signal.rustc_manifest_exists = true;
    signal.uninstaller_exists = true;
    signal.rustup_sh_home = Some(RustupShHome {
        path: String::from("/home/alice/.rustup"),
        has_version_marker: true,
    });
    match do_pre_install_sanity_checks(&signal) {
        Err(Error::Conflict { kind, .. }) => assert_eq!(kind, ConflictKind::Rust),
        other => panic!("unexpected {:?}", other),
    }
}

#[test]
fn every_combination_of_facts_is_refused_exactly_on_a_finding() {
    for bits in 0u32..32 {
        let signal = LegacyInstallSignal {
            multirust_manifest_exists: bits & 1 != 0,
            rustc_manifest_exists: bits & 2 != 0,
            uninstaller_exists: bits & 4 != 0,
            multirust_home: Some(MultirustHome {
                path: String::from("/h/.multirust"),
                version: if bits & 8 != 0 { Some(String::from("1")) } else { None },
            }),
            rustup_sh_home: Some(RustupShHome {
                path: String::from("/h/.rustup"),
                has_version_marker: bits & 16 != 0,
            }),
        };
        let report = detect(&signal);
        assert_eq!(report.multirust_installed, bits & 1 != 0 && bits & 4 != 0);
        assert_eq!(report.rust_installed, bits & 2 != 0 && bits & 4 != 0);
        assert_eq!(report.old_multirust_metadata, bits & 8 != 0);
        assert_eq!(report.rustup_sh_installed, bits & 16 != 0);
        assert_eq!(do_pre_install_sanity_checks(&signal).is_err(), report.any());
        assert_eq!(report.first_kind().is_some(), report.any());
    }
}
