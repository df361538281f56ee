//! The entry of the installer binary: an installation with the settings
//! that apply when the user gave none.

use vstd::prelude::*;
use vstd::string::*;
use crate::errors::Error;
use crate::installer::Installer;
use crate::sanity::LegacyInstallSignal;
use crate::self_update::{install, preflight_events, InstallOpts, Installation};
use crate::sudo::{IdentityProbe, SudoCheck};

verus! {

/// The host that toolchains are installed for by default.
pub const DEFAULT_HOST_TRIPLE: &'static str = "x86_64-unknown-linux-gnu";

/// The toolchain that is installed by default.
pub const DEFAULT_TOOLCHAIN: &'static str = "stable-x86_64-unknown-linux-gnu";

/// Whether `opts` are the settings that apply when the user gave none.
pub open spec fn is_default_opts(opts: InstallOpts) -> bool {
    &&& opts.default_host_triple@ == DEFAULT_HOST_TRIPLE@
    &&& opts.default_toolchain@ == DEFAULT_TOOLCHAIN@
    &&& !opts.no_modify_path
}

/// The settings that apply when the user gave none.
pub fn default_opts() -> (opts: InstallOpts)
    ensures
        is_default_opts(opts),
{
    InstallOpts {
        default_host_triple: String::from_str(DEFAULT_HOST_TRIPLE),
        default_toolchain: String::from_str(DEFAULT_TOOLCHAIN),
        no_modify_path: false,
    }
}

/// Starts an attended, quiet installation with the default settings.
///
/// Fails with `Conflict` when `legacy` holds any finding. A mismatch of
/// the home directories does not stop it: the run is attended, so the
/// user is warned.
pub fn setup_mode_main(legacy: &LegacyInstallSignal, identity: &IdentityProbe) -> (started: Result<
    Installation,
    Error,
>)
    ensures
        started is Ok <==> !legacy.report().any(),
        match started {
            Ok(installation) => {
                &&& installation.installer == Installer::spec_begin(false, false).run(
                    preflight_events(*legacy, *identity),
                )
                &&& installation.installer.state is SudoChecked
                &&& is_default_opts(installation.opts)
                &&& !installation.verbose
                &&& installation.sudo == if identity.home_mismatch() {
                    SudoCheck::Warned
                } else {
                    SudoCheck::Clear
                }
            },
            Err(e) => legacy.conflict() == Some(e@),
        },
{
    let no_prompt = false;
    let verbose = false;
    let opts = default_opts();
    install(no_prompt, verbose, opts, legacy, identity)
}

/// Runs the binary in the mode that its name asks for. Every name stands
/// for the installer, so that a copy which a browser has renamed still
/// installs.
pub fn run_multirust(legacy: &LegacyInstallSignal, identity: &IdentityProbe) -> (started: Result<
    Installation,
    Error,
>)
    ensures
        started is Ok <==> !legacy.report().any(),
        match started {
            Ok(installation) => {
                &&& installation.installer == Installer::spec_begin(false, false).run(
                    preflight_events(*legacy, *identity),
                )
                &&& installation.installer.state is SudoChecked
                &&& is_default_opts(installation.opts)
                &&& !installation.verbose
                &&& installation.sudo == if identity.home_mismatch() {
                    SudoCheck::Warned
                } else {
                    SudoCheck::Clear
                }
            },
            Err(e) => legacy.conflict() == Some(e@),
        },
{
    setup_mode_main(legacy, identity)
}

} // verus!
