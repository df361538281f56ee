//! Detection of earlier installers whose artifacts would fight with ours.
//!
//! The caller probes a handful of well-known paths and reports what it saw
//! as a [`LegacyInstallSignal`]. Everything here is a pure function of that
//! report: a probe that failed counts as "absent".

use vstd::prelude::*;
use vstd::string::*;
use crate::decimal::{parse_i32, spec_parse_i32};
use crate::errors::{ConflictKind, Error, ErrorView};

verus! {

/// Manifest written by a multirust installation.
pub const MULTIRUST_MANIFEST_PATH: &'static str = "/usr/local/lib/rustlib/manifest-multirust";

/// Manifest written by a system-wide Rust installation.
pub const RUSTC_MANIFEST_PATH: &'static str = "/usr/local/lib/rustlib/manifest-rustc";

/// Uninstaller script shared by both of the above.
pub const UNINSTALLER_PATH: &'static str = "/usr/local/lib/rustlib/uninstall.sh";

/// Name, below the user's home, of the directory that holds multirust's metadata.
pub const MULTIRUST_HOME_NAME: &'static str = ".multirust";

/// Name, inside that directory, of the file that holds the metadata version.
pub const MULTIRUST_VERSION_FILE: &'static str = "version";

/// Name, below the user's home, of the directory that rustup.sh writes to.
pub const RUSTUP_SH_HOME_NAME: &'static str = ".rustup";

/// Name, inside that directory, of the version marker of rustup.sh.
pub const RUSTUP_SH_VERSION_FILE: &'static str = "rustup-version";

/// The first metadata version written by this tool family. Metadata with a
/// lower version belongs to multirust.
pub const CUTOFF_VERSION: i32 = 12;

/// What was seen of multirust's metadata directory.
#[derive(Clone, Debug, PartialEq, Eq)]
pub struct MultirustHome {
    /// The directory itself, for messages.
    pub path: String,
    /// The contents of its version file when that file exists; the empty
    /// string when the file exists and could not be read.
    pub version: Option<String>,
}

/// What was seen of the directory of rustup.sh.
#[derive(Clone, Debug, PartialEq, Eq)]
pub struct RustupShHome {
    /// The directory itself, for messages.
    pub path: String,
    /// Whether its version marker exists.
    pub has_version_marker: bool,
}

/// The facts gathered for one installation attempt.
#[derive(Clone, Debug, PartialEq, Eq)]
pub struct LegacyInstallSignal {
    /// Whether [`MULTIRUST_MANIFEST_PATH`] exists.
    pub multirust_manifest_exists: bool,
    /// Whether [`RUSTC_MANIFEST_PATH`] exists.
    pub rustc_manifest_exists: bool,
    /// Whether [`UNINSTALLER_PATH`] exists.
    pub uninstaller_exists: bool,
    /// The metadata directory of multirust; `None` when the user has no home.
    pub multirust_home: Option<MultirustHome>,
    /// The directory of rustup.sh; `None` when the user has no home.
    pub rustup_sh_home: Option<RustupShHome>,
}

/// The four findings of the detector, each independent of the others.
#[derive(Clone, Copy, Debug, PartialEq, Eq, Structural)]
pub struct ConflictReport {
    /// multirust's manifest and the uninstaller are both there.
    pub multirust_installed: bool,
    /// multirust's metadata is there, with a version below the cutoff.
    pub old_multirust_metadata: bool,
    /// The system manifest and the uninstaller are both there.
    pub rust_installed: bool,
    /// The version marker of rustup.sh is there.
    pub rustup_sh_installed: bool,
}

/// Whether a version file with these contents was written by multirust.
/// Contents that are not an integer count as version 0.
pub open spec fn version_below_cutoff(contents: Seq<char>) -> bool {
    match spec_parse_i32(contents) {
        Some(version) => version < CUTOFF_VERSION,
        None => true,
    }
}

impl LegacyInstallSignal {
    pub open spec fn multirust_installed(&self) -> bool {
        self.multirust_manifest_exists && self.uninstaller_exists
    }

    pub open spec fn old_multirust_metadata(&self) -> bool {
        match self.multirust_home {
            Some(home) => match home.version {
                Some(contents) => version_below_cutoff(contents@),
                None => false,
            },
            None => false,
        }
    }

    pub open spec fn rust_installed(&self) -> bool {
        self.rustc_manifest_exists && self.uninstaller_exists
    }

    pub open spec fn rustup_sh_installed(&self) -> bool {
        match self.rustup_sh_home {
            Some(home) => home.has_version_marker,
            None => false,
        }
    }

    /// The report that [`detect`] makes of this signal.
    pub open spec fn report(&self) -> ConflictReport {
        ConflictReport {
            multirust_installed: self.multirust_installed(),
            old_multirust_metadata: self.old_multirust_metadata(),
            rust_installed: self.rust_installed(),
            rustup_sh_installed: self.rustup_sh_installed(),
        }
    }

    /// The path of multirust's metadata directory, empty when there is none.
    pub open spec fn multirust_home_path(&self) -> Seq<char> {
        match self.multirust_home {
            Some(home) => home.path@,
            None => Seq::empty(),
        }
    }

    /// The path of the directory of rustup.sh, empty when there is none.
    pub open spec fn rustup_sh_home_path(&self) -> Seq<char> {
        match self.rustup_sh_home {
            Some(home) => home.path@,
            None => Seq::empty(),
        }
    }

    /// The conflict that stops an installation, with the advice given to
    /// the user; `None` when the installation may go on. multirust is
    /// reported before a system-wide Rust, and that before rustup.sh.
    pub open spec fn conflict(&self) -> Option<ErrorView> {
        if self.multirust_installed() && self.old_multirust_metadata() {
            Some(
                ErrorView::Conflict {
                    kind: ConflictKind::Multirust,
                    advice: "run `"@ + UNINSTALLER_PATH@ + "` as root and delete `"@
                        + self.multirust_home_path() + "` before installing rustup"@,
                },
            )
        } else if self.multirust_installed() {
            Some(
                ErrorView::Conflict {
                    kind: ConflictKind::Multirust,
                    advice: "run `"@ + UNINSTALLER_PATH@
                        + "` as root to uninstall multirust before installing rustup"@,
                },
            )
        } else if self.old_multirust_metadata() {
            Some(
                ErrorView::Conflict {
                    kind: ConflictKind::Multirust,
                    advice: "delete `"@ + self.multirust_home_path()
                        + "` before installing rustup"@,
                },
            )
        } else if self.rust_installed() {
            Some(
                ErrorView::Conflict {
                    kind: ConflictKind::Rust,
                    advice: "run `"@ + UNINSTALLER_PATH@ + "` as root to uninstall Rust"@,
                },
            )
        } else if self.rustup_sh_installed() {
            Some(
                ErrorView::Conflict {
                    kind: ConflictKind::RustupSh,
                    advice: "delete `"@ + self.rustup_sh_home_path() + "` to remove rustup.sh"@,
                },
            )
        } else {
            None
        }
    }
}

impl ConflictReport {
    /// Whether any of the four findings is positive.
    pub open spec fn spec_any(&self) -> bool {
        self.multirust_installed || self.old_multirust_metadata || self.rust_installed
            || self.rustup_sh_installed
    }

    /// The family that an installation is refused for: multirust before a
    /// system-wide Rust, and that before rustup.sh. `None` without a finding.
    pub open spec fn spec_first_kind(&self) -> Option<ConflictKind> {
        if self.multirust_installed || self.old_multirust_metadata {
            Some(ConflictKind::Multirust)
        } else if self.rust_installed {
            Some(ConflictKind::Rust)
        } else if self.rustup_sh_installed {
            Some(ConflictKind::RustupSh)
        } else {
            None
        }
    }

    /// The family that an installation is refused for, if any.
    #[verifier::when_used_as_spec(spec_first_kind)]
    pub fn first_kind(&self) -> (kind: Option<ConflictKind>)
        ensures
            kind == self.spec_first_kind(),
            kind is Some <==> self.any(),
    {
        if self.multirust_installed || self.old_multirust_metadata {
            Some(ConflictKind::Multirust)
        } else if self.rust_installed {
            Some(ConflictKind::Rust)
        } else if self.rustup_sh_installed {
            Some(ConflictKind::RustupSh)
        } else {
            None
        }
    }

    /// Whether any of the four findings is positive.
    #[verifier::when_used_as_spec(spec_any)]
    pub fn any(&self) -> (found: bool)
        ensures
            found == self.spec_any(),
    {
        self.multirust_installed || self.old_multirust_metadata || self.rust_installed
            || self.rustup_sh_installed
    }
}

/// Whether a version file with these contents was written by multirust.
pub fn is_version_below_cutoff(contents: &str) -> (below: bool)
    ensures
        below == version_below_cutoff(contents@),
{
    match parse_i32(contents) {
        Some(version) => version < CUTOFF_VERSION,
        None => true,
    }
}

/// Evaluates the four findings. Reads nothing and never fails.
pub fn detect(signal: &LegacyInstallSignal) -> (report: ConflictReport)
    ensures
        report == signal.report(),
{
    let old_multirust_metadata = match &signal.multirust_home {
        Some(home) => match &home.version {
            Some(contents) => is_version_below_cutoff(contents.as_str()),
            None => false,
        },
        None => false,
    };
    let rustup_sh_installed = match &signal.rustup_sh_home {
        Some(home) => home.has_version_marker,
        None => false,
    };
    ConflictReport {
        multirust_installed: signal.multirust_manifest_exists && signal.uninstaller_exists,
        old_multirust_metadata,
        rust_installed: signal.rustc_manifest_exists && signal.uninstaller_exists,
        rustup_sh_installed,
    }
}

/// The path held by an optional metadata directory of multirust.
fn multirust_path_of(home: &Option<MultirustHome>) -> (path: String)
    ensures
        path@ == match *home {
            Some(h) => h.path@,
            None => Seq::empty(),
        },
{
    match home {
        Some(h) => h.path.clone(),
        None => String::new(),
    }
}

/// The path held by an optional directory of rustup.sh.
fn rustup_sh_path_of(home: &Option<RustupShHome>) -> (path: String)
    ensures
        path@ == match *home {
            Some(h) => h.path@,
            None => Seq::empty(),
        },
{
    match home {
        Some(h) => h.path.clone(),
        None => String::new(),
    }
}

/// Refuses to install next to another installer.
///
/// Succeeds exactly when none of the four findings is positive. Otherwise
/// the error tells which family was found and what to run or delete.
pub fn do_pre_install_sanity_checks(signal: &LegacyInstallSignal) -> (checked: Result<(), Error>)
    ensures
        checked is Ok <==> !signal.report().any(),
        match checked {
            Ok(_) => signal.conflict() is None,
            Err(e) => signal.conflict() == Some(e@),
        },
{
    let report = detect(signal);
    if report.multirust_installed && report.old_multirust_metadata {
        let advice = String::from_str("run `");
        let advice = advice.concat(UNINSTALLER_PATH);
        let advice = advice.concat("` as root and delete `");
        let advice = advice.concat(multirust_path_of(&signal.multirust_home).as_str());
        let advice = advice.concat("` before installing rustup");
        Err(Error::Conflict { kind: ConflictKind::Multirust, advice })
    } else if report.multirust_installed {
        let advice = String::from_str("run `");
        let advice = advice.concat(UNINSTALLER_PATH);
        let advice = advice.concat("` as root to uninstall multirust before installing rustup");
        Err(Error::Conflict { kind: ConflictKind::Multirust, advice })
    } else if report.old_multirust_metadata {
        let advice = String::from_str("delete `");
        let advice = advice.concat(multirust_path_of(&signal.multirust_home).as_str());
        let advice = advice.concat("` before installing rustup");
        Err(Error::Conflict { kind: ConflictKind::Multirust, advice })
    } else if report.rust_installed {
        let advice = String::from_str("run `");
        let advice = advice.concat(UNINSTALLER_PATH);
        let advice = advice.concat("` as root to uninstall Rust");
        Err(Error::Conflict { kind: ConflictKind::Rust, advice })
    } else if report.rustup_sh_installed {
        let advice = String::from_str("delete `");
        let advice = advice.concat(rustup_sh_path_of(&signal.rustup_sh_home).as_str());
        let advice = advice.concat("` to remove rustup.sh");
        Err(Error::Conflict { kind: ConflictKind::RustupSh, advice })
    } else {
        Ok(())
    }
}

} // verus!
