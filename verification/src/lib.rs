//! The safety-critical core of a toolchain manager: pre-flight checks,
//! self-installation, directory overrides and self-check diagnostics.
//!
//! Nothing in this crate touches the disk, the environment or the network.
//! The caller probes the machine, hands the facts over as plain values and
//! carries out the actions that the functions here decide on.
//!
//! * [`sanity`] and [`sudo`] decide whether an installation may start.
//! * [`installer`] is the installation as a state machine; [`self_update`]
//!   starts it and names the file operations of each step, which
//!   [`fileops`] models; [`checksum`] guards a self-upgrade; [`path_env`]
//!   registers the binary directory on `PATH`.
//! * [`overrides`] holds the per-directory overrides and their settings
//!   file, whose fields [`escape`] writes and reads.
//! * [`toolchain`] reads toolchain names, [`toolchain_laws`] says what the
//!   reading amounts to, and [`selfcheck`] finds directories with names of
//!   an old scheme.
//! * [`telemetry`] collects events.

pub mod checksum;
pub mod decimal;
pub mod errors;
pub mod escape;
pub mod fileops;
pub mod installer;
pub mod overrides;
pub mod path_env;
pub mod sanity;
pub mod self_update;
pub mod selfcheck;
pub mod setup_mode;
pub mod sudo;
pub mod telemetry;
pub mod text;
pub mod toolchain;
pub mod toolchain_laws;
