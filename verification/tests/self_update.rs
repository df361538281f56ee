use rustup_core::errors::{ConflictKind, Error};
use rustup_core::installer::{BinarySource, InstallAction, InstallEvent, InstallState, Installer};
use rustup_core::sanity::{detect, LegacyInstallSignal, MultirustHome, RustupShHome};
use rustup_core::self_update::{
    canonical_cargo_home, checksum_url, display_cargo_home, download_url, install, tool_names,
    uninstall_steps, InstallOpts, UninstallStep, UPDATE_ROOT,
};
use rustup_core::setup_mode::{
    default_opts, run_multirust, setup_mode_main, DEFAULT_HOST_TRIPLE, DEFAULT_TOOLCHAIN,
};
use rustup_core::sudo::{IdentityProbe, SudoCheck};

fn clean_signal() -> LegacyInstallSignal {
    LegacyInstallSignal {
        multirust_manifest_exists: false,
        rustc_manifest_exists: false,
        uninstaller_exists: false,
        multirust_home: Some(MultirustHome {
            path: String::from("/home/alice/.multirust"),
            version: None,
        }),
        rustup_sh_home: Some(RustupShHome {
            path: String::from("/home/alice/.rustup"),
            has_version_marker: false,
        }),
    }
}

fn rust_installed() -> LegacyInstallSignal {
    let mut signal = clean_signal();
    signal.rustc_manifest_exists = true;
    signal.uninstaller_exists = true;
    signal
}

fn identity(env_home: &str, user_home: &str) -> IdentityProbe {
    IdentityProbe {
        skip_check: None,
        env_home: Some(String::from(env_home)),
        user_home: Some(String::from(user_home)),
    }
}

fn opts(no_modify_path: bool) -> InstallOpts {
    InstallOpts {
        default_host_triple: String::from("i686-pc-windows-msvc"),
        default_toolchain: String::from("nightly"),
        no_modify_path,
    }
}

#[test]
fn install_passes_both_checks() {
    let started = install(true, true, opts(true), &clean_signal(), &identity("/home/alice", "/home/alice"))
        .unwrap();
    assert_eq!(started.installer.state, InstallState::SudoChecked);
    assert_eq!(started.installer.source, BinarySource::RunningExecutable);
    assert!(started.installer.no_prompt);
    assert!(started.installer.no_modify_path);
    assert_eq!(started.installer.action(), InstallAction::PlaceBinary);
    assert_eq!(started.opts, opts(true));
    assert!(started.verbose);
    assert_eq!(started.sudo, SudoCheck::Clear);
}

#[test]
fn install_arrives_where_the_machine_arrives() {
    let legacy = clean_signal();
    let who = identity("/home/alice", "/root");
    let started = install(false, false, opts(false), &legacy, &who).unwrap();
    let by_machine = Installer::begin(false, false)
        .step(InstallEvent::ConflictsProbed(detect(&legacy)))
        .step(InstallEvent::IdentityProbed { mismatch: who.home_mismatch() });
    assert_eq!(started.installer, by_machine);
    assert_eq!(started.sudo, SudoCheck::Warned);
}

#[test]
fn install_refuses_on_a_conflict() {
    let refused = install(false, false, opts(false), &rust_installed(), &identity("/home/alice", "/home/alice"));
    match refused {
        Err(Error::Conflict { kind, advice }) => {
            assert_eq!(kind, ConflictKind::Rust);
            assert_eq!(advice, "run `/usr/local/lib/rustlib/uninstall.sh` as root to uninstall Rust");
        }
        other => panic!("unexpected {:?}", other),
    }
}

#[test]
fn a_conflict_is_reported_before_a_mismatch() {
    let refused = install(true, false, opts(false), &rust_installed(), &identity("/home/alice", "/root"));
    assert!(matches!(refused, Err(Error::Conflict { kind: ConflictKind::Rust, .. })));
}

#[test]
fn install_refuses_an_unattended_run_under_sudo() {
    let refused = install(true, false, opts(false), &clean_signal(), &identity("/home/alice", "/root"));
    assert_eq!(
        refused,
        Err(Error::PrivilegeMismatch {
            env_home: String::from("/home/alice"),
            user_home: String::from("/root"),
        })
    );
}

#[test]
fn install_warns_an_attended_run_under_sudo() {
    let started = install(false, false, opts(false), &clean_signal(), &identity("/home/alice", "/root"))
        .unwrap();
    assert_eq!(started.sudo, SudoCheck::Warned);
    assert_eq!(started.installer.state, InstallState::SudoChecked);
}

#[test]
fn setup_mode_uses_the_default_settings() {
    assert_eq!(DEFAULT_HOST_TRIPLE, "x86_64-unknown-linux-gnu");
    assert_eq!(DEFAULT_TOOLCHAIN, "stable-x86_64-unknown-linux-gnu");
    let defaults = default_opts();
    assert_eq!(defaults.default_host_triple, "x86_64-unknown-linux-gnu");
    assert_eq!(defaults.default_toolchain, "stable-x86_64-unknown-linux-gnu");
    assert!(!defaults.no_modify_path);
    let started = setup_mode_main(&clean_signal(), &identity("/home/alice", "/home/alice")).unwrap();
    assert_eq!(started.opts, defaults);
    assert!(!started.verbose);
    assert!(!started.installer.no_prompt);
    assert!(!started.installer.no_modify_path);
    assert_eq!(started.installer.state, InstallState::SudoChecked);
}

#[test]
fn setup_mode_is_attended() {
    let started = setup_mode_main(&clean_signal(), &identity("/home/alice", "/root")).unwrap();
    assert_eq!(started.sudo, SudoCheck::Warned);
    let refused = setup_mode_main(&rust_installed(), &identity("/home/alice", "/root"));
    assert!(matches!(refused, Err(Error::Conflict { kind: ConflictKind::Rust, .. })));
}

#[test]
fn the_binary_runs_as_installer() {
    let who = identity("/home/alice", "/home/alice");
    assert_eq!(run_multirust(&clean_signal(), &who), setup_mode_main(&clean_signal(), &who));
    assert_eq!(run_multirust(&rust_installed(), &who), setup_mode_main(&rust_installed(), &who));
    assert!(run_multirust(&clean_signal(), &who).is_ok());
    assert!(run_multirust(&rust_installed(), &who).is_err());
}

#[test]
fn cargo_home_for_display() {
    assert_eq!(canonical_cargo_home("/home/alice/.cargo", "/home/alice/.cargo"), "$HOME/.cargo");
    assert_eq!(canonical_cargo_home("/opt/cargo", "/home/alice/.cargo"), "/opt/cargo");
    assert_eq!(canonical_cargo_home("/home/alice/.cargo-old", "/home/alice/.cargo"), "/home/alice/.cargo-old");
    assert_eq!(canonical_cargo_home("", "./.cargo"), "");
    assert_eq!(canonical_cargo_home("", ""), "$HOME/.cargo");
}

#[test]
fn cargo_home_is_compared_as_a_path() {
    let default = std::path::Path::new("/home/alice/.cargo");
    for written in ["/home/alice/.cargo/", "/home/alice//.cargo", "/home/alice/./.cargo"] {
        let expected = if std::path::Path::new(written) == default {
            "$HOME/.cargo"
        } else {
            written
        };
        assert_eq!(canonical_cargo_home(written, "/home/alice/.cargo"), expected);
    }
    assert_eq!(
        std::path::Path::new("/home/alice/.cargo/") == default,
        canonical_cargo_home("/home/alice/.cargo/", "/home/alice/.cargo") == "$HOME/.cargo"
    );
}

#[test]
fn the_default_cargo_home_is_shown_with_home() {
    assert_eq!(display_cargo_home("/home/alice/.cargo/", true), "$HOME/.cargo");
    assert_eq!(display_cargo_home("/home/alice/.cargo/", false), "/home/alice/.cargo/");
    assert_eq!(display_cargo_home("", false), "");
    assert_eq!(display_cargo_home("", true), "$HOME/.cargo");
}

#[test]
fn names_of_the_tools() {
    assert_eq!(tool_names(), vec!["rustc", "rustdoc", "cargo", "rust-lldb", "rust-gdb"]);
}

#[test]
fn addresses_of_a_release() {
    assert_eq!(UPDATE_ROOT, "https://static.rust-lang.org/rustup/dist");
    assert_eq!(
        download_url(UPDATE_ROOT, "x86_64-unknown-linux-gnu", ""),
        "https://static.rust-lang.org/rustup/dist/x86_64-unknown-linux-gnu/rustup-init"
    );
    assert_eq!(
        download_url("http://localhost:8000/0.1.12", "i686-pc-windows-msvc", ".exe"),
        "http://localhost:8000/0.1.12/i686-pc-windows-msvc/rustup-init.exe"
    );
    assert_eq!(
        checksum_url(UPDATE_ROOT, "x86_64-apple-darwin", ""),
        "https://static.rust-lang.org/rustup/dist/x86_64-apple-darwin/rustup-init.sha256"
    );
}

#[test]
fn uninstalling_deletes_settings_then_binaries() {
    assert_eq!(
        uninstall_steps(true),
        vec![UninstallStep::DeleteSettingsRoot, UninstallStep::DeleteBinDir]
    );
}

#[test]
fn a_locked_binary_is_deleted_by_a_helper() {
    assert_eq!(
        uninstall_steps(false),
        vec![UninstallStep::DeleteSettingsRoot, UninstallStep::SpawnBinDirRemover]
    );
}
