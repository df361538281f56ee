//! Self-installation, self-upgrade and uninstallation.
//!
//! The manager is one binary. Installing it means putting that binary
//! into the managed binary directory, linking each tool name to it, putting
//! the directory on `PATH` and installing a default toolchain. An upgrade
//! downloads a new binary, checks it against its published checksum and
//! puts it in place of the old one. Uninstalling deletes the settings and
//! the binary directory.
//!
//! On platforms that lock a file while it runs, the running binary can be
//! neither replaced nor deleted. There the last move is left to another
//! process: a copy of the new binary, or a helper, that goes to work once
//! this process has exited.

use std::path::Path;
use vstd::prelude::*;
use vstd::string::*;
use crate::checksum::{candidate_matches, hex_lower, sha256};
use crate::errors::{Error, ErrorView};
use crate::fileops::{
    replace_all_ops,
    replace_ops,
    spec_replace_all,
    spec_replace_ops,
    spec_temp_path,
    temp_path,
    FileOp,
    FileOpView,
    Staging,
};
use crate::installer::{InstallEvent, Installer};
use crate::sanity::{do_pre_install_sanity_checks, detect, LegacyInstallSignal};
use crate::sudo::{do_anti_sudo_check, IdentityProbe, SudoCheck};

verus! {

/// Where new versions of the manager are published.
pub const UPDATE_ROOT: &'static str = "https://static.rust-lang.org/rustup/dist";

/// The name of the installer binary, without the platform's suffix.
pub const INIT_NAME: &'static str = "rustup-init";

/// What is shown for the default location of the cargo home.
pub const DEFAULT_CARGO_HOME_SHOWN: &'static str = "$HOME/.cargo";

/// The settings of one installation. They are not kept after it.
#[derive(Clone, Debug, PartialEq, Eq)]
pub struct InstallOpts {
    pub default_host_triple: String,
    pub default_toolchain: String,
    pub no_modify_path: bool,
}

/// An installation that has passed both checks and may start to write.
#[derive(Clone, Debug, PartialEq, Eq)]
pub struct Installation {
    /// The state machine, in state `SudoChecked`.
    pub installer: Installer,
    /// The settings that were asked for.
    pub opts: InstallOpts,
    pub verbose: bool,
    /// Whether the user is to be warned about the home directories.
    pub sudo: SudoCheck,
}

/// The names under which the binary is linked, one for each tool.
pub open spec fn spec_tool_names() -> Seq<Seq<char>> {
    seq!["rustc"@, "rustdoc"@, "cargo"@, "rust-lldb"@, "rust-gdb"@]
}

/// The names under which the binary is linked, one for each tool.
pub fn tool_names() -> (names: Vec<&'static str>)
    ensures
        names.deep_view() == spec_tool_names(),
{
    let names: Vec<&'static str> = vec!["rustc", "rustdoc", "cargo", "rust-lldb", "rust-gdb"];
    assert(names.deep_view() =~= spec_tool_names());
    names
}

/// Calls `std::path::Path::eq` on the two texts, each taken as a path by
/// `Path::new`. Paths are compared component by component, and what the
/// components of a text are depends on the platform. All that is claimed
/// is that a text names the same path as itself.
#[verifier::external_body]
fn same_path(a: &str, b: &str) -> (same: bool)
    ensures
        a@ == b@ ==> same,
{
    Path::new(a) == Path::new(b)
}

/// The cargo home as it is shown to the user, once it is known whether it
/// is the default location: the default location is shown with `$HOME` in
/// place of the home directory, any other as it is.
pub fn display_cargo_home(cargo_home: &str, is_default: bool) -> (shown: String)
    ensures
        shown@ == if is_default {
            DEFAULT_CARGO_HOME_SHOWN@
        } else {
            cargo_home@
        },
{
    if is_default {
        String::from_str(DEFAULT_CARGO_HOME_SHOWN)
    } else {
        String::from_str(cargo_home)
    }
}

/// The cargo home as it is shown to the user. It is the default location
/// when it names the same path as `default_cargo_home`; the platform
/// decides which texts name the same path, and the same text always does.
pub fn canonical_cargo_home(cargo_home: &str, default_cargo_home: &str) -> (shown: String)
    ensures
        shown@ == DEFAULT_CARGO_HOME_SHOWN@ || shown@ == cargo_home@,
        cargo_home@ == default_cargo_home@ ==> shown@ == DEFAULT_CARGO_HOME_SHOWN@,
{
    display_cargo_home(cargo_home, same_path(cargo_home, default_cargo_home))
}

/// The two events that the checks of `install` amount to.
pub open spec fn preflight_events(
    legacy: LegacyInstallSignal,
    identity: IdentityProbe,
) -> Seq<InstallEvent> {
    seq![
        InstallEvent::ConflictsProbed(legacy.report()),
        InstallEvent::IdentityProbed { mismatch: identity.home_mismatch() },
    ]
}

/// Starts an installation: looks for other installers, then for a home
/// directory that belongs to another user. Nothing has been written when
/// this returns, whatever it returns.
///
/// Fails with `Conflict` when `legacy` holds any finding, and else with
/// `PrivilegeMismatch` when the home directories differ and the run is
/// unattended. Otherwise the installation stands in `SudoChecked`, where
/// the state machine arrives on the same two reports.
pub fn install(
    no_prompt: bool,
    verbose: bool,
    opts: InstallOpts,
    legacy: &LegacyInstallSignal,
    identity: &IdentityProbe,
) -> (started: Result<Installation, Error>)
    ensures
        started is Ok <==> !legacy.report().any() && !(identity.home_mismatch() && no_prompt),
        match started {
            Ok(installation) => {
                &&& installation.installer == Installer::spec_begin(
                    no_prompt,
                    opts.no_modify_path,
                ).run(preflight_events(*legacy, *identity))
                &&& installation.installer.state is SudoChecked
                &&& installation.opts == opts
                &&& installation.verbose == verbose
                &&& installation.sudo == if identity.home_mismatch() {
                    SudoCheck::Warned
                } else {
                    SudoCheck::Clear
                }
            },
            Err(e) => if legacy.report().any() {
                legacy.conflict() == Some(e@)
            } else {
                e@ == identity.mismatch_error()
            },
        },
{
    match do_pre_install_sanity_checks(legacy) {
        Ok(_) => {},
        Err(e) => {
            return Err(e);
        },
    }
    let sudo = match do_anti_sudo_check(identity, no_prompt) {
        Ok(sudo) => sudo,
        Err(e) => {
            return Err(e);
        },
    };
    let first = InstallEvent::ConflictsProbed(detect(legacy));
    let second = InstallEvent::IdentityProbed { mismatch: identity.home_mismatch() };
    let start = Installer::begin(no_prompt, opts.no_modify_path);
    let installer = start.step(first).step(second);
    proof {
        let events = preflight_events(*legacy, *identity);
        assert(events.drop_last() =~= seq![first]);
        assert(events.drop_last().drop_last() =~= Seq::<InstallEvent>::empty());
        reveal_with_fuel(Installer::run, 3);
        assert(start.run(events) == installer);
    }
    Ok(Installation { installer, opts, verbose, sudo })
}

/// The operations that put the binary at `source` in place at `target`.
pub fn placement_ops(source: &str, target: &str) -> (ops: Vec<FileOp>)
    ensures
        ops.deep_view() == spec_replace_ops(Staging::Copy, source@, target@),
{
    replace_ops(Staging::Copy, source, target)
}

/// The operations that link each of `aliases` to the binary at `binary`.
/// An alias that exists is replaced like any other file: by a rename.
/// What they achieve on disk is stated by
/// [`crate::fileops::law_replace_all_reaches_every_target`].
pub fn link_ops(binary: &str, aliases: &Vec<String>) -> (ops: Vec<FileOp>)
    ensures
        ops.deep_view() == spec_replace_all(Staging::Link, binary@, aliases.deep_view()),
{
    replace_all_ops(Staging::Link, binary, aliases)
}

/// The address of the installer binary for `host_triple` below `update_root`.
pub open spec fn spec_download_url(
    update_root: Seq<char>,
    host_triple: Seq<char>,
    exe_suffix: Seq<char>,
) -> Seq<char> {
    update_root + "/"@ + host_triple + "/"@ + INIT_NAME@ + exe_suffix
}

/// The address of the installer binary for `host_triple` below `update_root`.
pub fn download_url(update_root: &str, host_triple: &str, exe_suffix: &str) -> (url: String)
    ensures
        url@ == spec_download_url(update_root@, host_triple@, exe_suffix@),
{
    let url = String::from_str(update_root);
    let url = url.concat("/");
    let url = url.concat(host_triple);
    let url = url.concat("/");
    let url = url.concat(INIT_NAME);
    url.concat(exe_suffix)
}

/// The address of the published checksum of that binary.
pub fn checksum_url(update_root: &str, host_triple: &str, exe_suffix: &str) -> (url: String)
    ensures
        url@ == spec_download_url(update_root@, host_triple@, exe_suffix@) + ".sha256"@,
{
    download_url(update_root, host_triple, exe_suffix).concat(".sha256")
}

/// Whether `candidate` has the published checksum `expected`.
pub open spec fn candidate_verified(candidate: Seq<u8>, expected: Seq<char>) -> bool {
    expected == hex_lower(sha256(candidate))
}

/// Checks a downloaded binary against its published checksum and says
/// what is to be reported to the state machine.
pub fn check_candidate(candidate: &[u8], expected: &str) -> (event: InstallEvent)
    ensures
        event == if candidate_verified(candidate@, expected@) {
            InstallEvent::CandidateVerified
        } else {
            InstallEvent::CandidateRejected
        },
{
    if candidate_matches(candidate, expected) {
        InstallEvent::CandidateVerified
    } else {
        InstallEvent::CandidateRejected
    }
}

/// The operations that put a downloaded binary in place, or none at all.
///
/// A candidate without the published checksum is refused with
/// `Integrity`: no operation is handed out for it, so the installed binary
/// stays as it is. A verified candidate is staged beside the target and,
/// where a running binary may be replaced, renamed onto it. Where it may
/// not, the rename is left out: it is for the new binary to make, once
/// this process has exited (see [`deferred_swap_ops`]).
pub fn upgrade_ops(
    candidate: &[u8],
    expected: &str,
    candidate_path: &str,
    target: &str,
    can_replace_self_while_running: bool,
) -> (ops: Result<Vec<FileOp>, Error>)
    ensures
        ops is Ok <==> candidate_verified(candidate@, expected@),
        match ops {
            Ok(ops) => ops.deep_view() == if can_replace_self_while_running {
                spec_replace_ops(Staging::Copy, candidate_path@, target@)
            } else {
                spec_replace_ops(Staging::Copy, candidate_path@, target@).take(1)
            },
            Err(e) => e@ == (ErrorView::Integrity { expected: expected@ }),
        },
{
    if !candidate_matches(candidate, expected) {
        return Err(Error::Integrity { expected: String::from_str(expected) });
    }
    let mut ops = replace_ops(Staging::Copy, candidate_path, target);
    if !can_replace_self_while_running {
        let ghost both = ops.deep_view();
        assert(ops@.len() == both.len());
        ops.pop();
        assert(ops.deep_view() =~= both.take(1));
    }
    Ok(ops)
}

/// The rename that ends an upgrade on a platform that locks a running
/// binary. It is made by the new binary after the old process has exited.
/// On any other platform there is no such step.
pub fn deferred_swap_ops(target: &str, can_replace_self_while_running: bool) -> (ops: Result<
    Vec<FileOp>,
    Error,
>)
    ensures
        ops is Ok <==> !can_replace_self_while_running,
        match ops {
            Ok(ops) => ops.deep_view() == seq![
                FileOpView::Rename { from: spec_temp_path(target@), to: target@ },
            ],
            Err(e) => e@ == ErrorView::PlatformUnsupportedOperation,
        },
{
    if can_replace_self_while_running {
        return Err(Error::PlatformUnsupportedOperation);
    }
    let mut ops: Vec<FileOp> = Vec::new();
    ops.push(FileOp::Rename { from: temp_path(target), to: String::from_str(target) });
    assert(ops.deep_view() =~= seq![
        FileOpView::Rename { from: spec_temp_path(target@), to: target@ },
    ]);
    Ok(ops)
}

/// Staging now and swapping later is replacing: the operations of an
/// upgrade on a platform that locks a running binary, followed by those of
/// the deferred swap, are the operations of an upgrade elsewhere.
pub proof fn law_deferred_swap_completes(source: Seq<char>, target: Seq<char>)
    ensures
        spec_replace_ops(Staging::Copy, source, target).take(1) + seq![
            FileOpView::Rename { from: spec_temp_path(target), to: target },
        ] == spec_replace_ops(Staging::Copy, source, target),
{
    assert(spec_replace_ops(Staging::Copy, source, target).take(1) + seq![
        FileOpView::Rename { from: spec_temp_path(target), to: target },
    ] =~= spec_replace_ops(Staging::Copy, source, target));
}

/// One step of uninstalling.
#[derive(Clone, Copy, Debug, PartialEq, Eq, Structural)]
pub enum UninstallStep {
    /// Delete the settings root with all that is in it.
    DeleteSettingsRoot,
    /// Delete the binary directory, the running binary and its aliases.
    DeleteBinDir,
    /// Start a helper that outlives this process and deletes the binary
    /// directory once the running binary is no longer in use.
    SpawnBinDirRemover,
}

/// The steps of uninstalling, in order: the settings first, then the
/// binaries. Where a running binary cannot be deleted, the second step is
/// handed to a helper.
pub fn uninstall_steps(can_replace_self_while_running: bool) -> (steps: Vec<UninstallStep>)
    ensures
        steps@ == seq![
            UninstallStep::DeleteSettingsRoot,
            if can_replace_self_while_running {
                UninstallStep::DeleteBinDir
            } else {
                UninstallStep::SpawnBinDirRemover
            },
        ],
{
    let mut steps: Vec<UninstallStep> = Vec::new();
    steps.push(UninstallStep::DeleteSettingsRoot);
    if can_replace_self_while_running {
        steps.push(UninstallStep::DeleteBinDir);
    } else {
        steps.push(UninstallStep::SpawnBinDirRemover);
    }
    assert(steps@ =~= seq![
        UninstallStep::DeleteSettingsRoot,
        if can_replace_self_while_running {
            UninstallStep::DeleteBinDir
        } else {
            UninstallStep::SpawnBinDirRemover
        },
    ]);
    steps
}

} // verus!
