//! The installer as a state machine.
//!
//! The machine itself does nothing to the machine it runs on. It tells
//! its caller which action comes next; the caller performs the action and
//! reports what came of it as an event; the machine moves on. States are
//! passed in this order:
//!
//! ```text
//! Idle -> ConflictChecked -> SudoChecked -> Placed -> Linked -> PathRegistered -> Done
//! ```
//!
//! `Aborted` is reached only from the first three, before the binary is in
//! place. A self-upgrade runs through the same states; it places a
//! downloaded binary, and only after its checksum has been verified.

use vstd::prelude::*;
use crate::errors::ConflictKind;
use crate::sanity::ConflictReport;

verus! {

/// Why an installation was given up before the binary was in place.
#[derive(Clone, Copy, Debug, PartialEq, Eq, Structural)]
pub enum AbortReason {
    /// Artifacts of another installer were found.
    Conflict(ConflictKind),
    /// `$HOME` belongs to another user and nobody can be asked.
    PrivilegeMismatch,
    /// The downloaded binary does not have the published checksum.
    ChecksumMismatch,
    /// The binary could not be downloaded or put in place.
    Io,
}

/// How far an installation has come.
#[derive(Clone, Copy, Debug, PartialEq, Eq, Structural)]
pub enum InstallState {
    Idle,
    ConflictChecked,
    SudoChecked,
    Placed,
    Linked,
    PathRegistered,
    /// The manager is installed. `toolchain_installed` tells whether the
    /// default toolchain is installed too; if not, the run ends with a
    /// warning and the toolchain can be installed later.
    Done { toolchain_installed: bool },
    Aborted(AbortReason),
}

/// Where the binary that is put in place comes from.
#[derive(Clone, Copy, Debug, PartialEq, Eq, Structural)]
pub enum BinarySource {
    /// The executable that is running: a first installation.
    RunningExecutable,
    /// A download whose checksum has not been verified yet.
    UnverifiedCandidate,
    /// A download with the published checksum.
    VerifiedCandidate,
}

/// What the caller reports to the machine.
#[derive(Clone, Copy, Debug, PartialEq, Eq, Structural)]
pub enum InstallEvent {
    /// The well-known paths of other installers have been probed.
    ConflictsProbed(ConflictReport),
    /// The home directories have been compared.
    IdentityProbed { mismatch: bool },
    /// The candidate has been downloaded and has the published checksum.
    CandidateVerified,
    /// The candidate has been downloaded and has another checksum.
    CandidateRejected,
    /// The action asked for has been carried out.
    Succeeded,
    /// The action asked for has failed.
    Failed,
}

/// What the machine asks its caller to do next.
#[derive(Clone, Copy, Debug, PartialEq, Eq, Structural)]
pub enum InstallAction {
    /// Probe the well-known paths of other installers.
    ProbeConflicts,
    /// Compare `$HOME` with the home of the effective user.
    ProbeIdentity,
    /// Download the candidate to a private place and check its checksum.
    VerifyCandidate,
    /// Put the binary into the managed binary directory.
    PlaceBinary,
    /// Link each tool name to the binary.
    LinkTools,
    /// Put the managed binary directory on `PATH`.
    RegisterPath,
    /// Nothing is to be done for this step; report `Succeeded`.
    Proceed,
    /// Install the default toolchain and make it the default.
    InstallDefaultToolchain,
    /// The run is over.
    Stop,
}

impl InstallAction {
    /// Whether the action creates or changes anything on disk.
    pub open spec fn spec_mutates(self) -> bool {
        self is PlaceBinary || self is LinkTools || self is RegisterPath
            || self is InstallDefaultToolchain
    }

    /// Whether the action creates or changes anything on disk.
    #[verifier::when_used_as_spec(spec_mutates)]
    pub fn mutates(self) -> (mutates: bool)
        ensures
            mutates == self.spec_mutates(),
    {
        match self {
            InstallAction::PlaceBinary => true,
            InstallAction::LinkTools => true,
            InstallAction::RegisterPath => true,
            InstallAction::InstallDefaultToolchain => true,
            _ => false,
        }
    }
}

/// The state machine: its state, and the settings of this run.
#[derive(Clone, Copy, Debug, PartialEq, Eq, Structural)]
pub struct Installer {
    pub state: InstallState,
    pub source: BinarySource,
    /// Whether the run is unattended.
    pub no_prompt: bool,
    /// Whether `PATH` is to be left alone.
    pub no_modify_path: bool,
}

impl Installer {
    /// The machine before a first installation.
    pub open spec fn spec_begin(no_prompt: bool, no_modify_path: bool) -> Installer {
        Installer {
            state: InstallState::Idle,
            source: BinarySource::RunningExecutable,
            no_prompt,
            no_modify_path,
        }
    }

    /// The machine before a self-upgrade.
    pub open spec fn spec_begin_upgrade(no_prompt: bool, no_modify_path: bool) -> Installer {
        Installer {
            state: InstallState::Idle,
            source: BinarySource::UnverifiedCandidate,
            no_prompt,
            no_modify_path,
        }
    }

    /// This machine in another state.
    pub open spec fn at(self, state: InstallState) -> Installer {
        Installer { state, ..self }
    }

    /// The machine after `event`. An event that does not answer the
    /// action asked for leaves the machine as it is.
    pub open spec fn spec_step(self, event: InstallEvent) -> Installer {
        match self.state {
            InstallState::Idle => match event {
                InstallEvent::ConflictsProbed(report) => match report.first_kind() {
                    Some(kind) => self.at(InstallState::Aborted(AbortReason::Conflict(kind))),
                    None => self.at(InstallState::ConflictChecked),
                },
                _ => self,
            },
            InstallState::ConflictChecked => match event {
                InstallEvent::IdentityProbed { mismatch } => if mismatch && self.no_prompt {
                    self.at(InstallState::Aborted(AbortReason::PrivilegeMismatch))
                } else {
                    self.at(InstallState::SudoChecked)
                },
                _ => self,
            },
            InstallState::SudoChecked => if self.source is UnverifiedCandidate {
                match event {
                    InstallEvent::CandidateVerified => Installer {
                        source: BinarySource::VerifiedCandidate,
                        ..self
                    },
                    InstallEvent::CandidateRejected => self.at(
                        InstallState::Aborted(AbortReason::ChecksumMismatch),
                    ),
                    InstallEvent::Failed => self.at(InstallState::Aborted(AbortReason::Io)),
                    _ => self,
                }
            } else {
                match event {
                    InstallEvent::Succeeded => self.at(InstallState::Placed),
                    InstallEvent::Failed => self.at(InstallState::Aborted(AbortReason::Io)),
                    _ => self,
                }
            },
            InstallState::Placed => match event {
                InstallEvent::Succeeded => self.at(InstallState::Linked),
                _ => self,
            },
            InstallState::Linked => match event {
                InstallEvent::Succeeded => self.at(InstallState::PathRegistered),
                _ => self,
            },
            InstallState::PathRegistered => match event {
                InstallEvent::Succeeded => self.at(
                    InstallState::Done { toolchain_installed: true },
                ),
                InstallEvent::Failed => self.at(InstallState::Done { toolchain_installed: false }),
                _ => self,
            },
            InstallState::Done { .. } => self,
            InstallState::Aborted(_) => self,
        }
    }

    /// The action that the machine asks for in its state.
    pub open spec fn spec_action(self) -> InstallAction {
        match self.state {
            InstallState::Idle => InstallAction::ProbeConflicts,
            InstallState::ConflictChecked => InstallAction::ProbeIdentity,
            InstallState::SudoChecked => if self.source is UnverifiedCandidate {
                InstallAction::VerifyCandidate
            } else {
                InstallAction::PlaceBinary
            },
            InstallState::Placed => InstallAction::LinkTools,
            InstallState::Linked => if self.no_modify_path {
                InstallAction::Proceed
            } else {
                InstallAction::RegisterPath
            },
            InstallState::PathRegistered => InstallAction::InstallDefaultToolchain,
            InstallState::Done { .. } => InstallAction::Stop,
            InstallState::Aborted(_) => InstallAction::Stop,
        }
    }

    /// The machine after a sequence of events.
    pub open spec fn run(self, events: Seq<InstallEvent>) -> Installer
        decreases events.len(),
    {
        if events.len() == 0 {
            self
        } else {
            self.run(events.drop_last()).spec_step(events.last())
        }
    }

    /// The action that the machine asks for once `event` has been reported.
    /// A failure ends the run: it is reported, and nothing is tried again.
    pub open spec fn spec_next_action(self, event: InstallEvent) -> InstallAction {
        if event is Failed {
            InstallAction::Stop
        } else {
            self.spec_step(event).spec_action()
        }
    }

    /// Whether both checks have been passed and the work is not finished.
    pub open spec fn may_write(self) -> bool {
        self.state is SudoChecked || self.state is Placed || self.state is Linked
            || self.state is PathRegistered
    }

    /// The machine before a first installation.
    pub fn begin(no_prompt: bool, no_modify_path: bool) -> (installer: Installer)
        ensures
            installer == Installer::spec_begin(no_prompt, no_modify_path),
    {
        Installer {
            state: InstallState::Idle,
            source: BinarySource::RunningExecutable,
            no_prompt,
            no_modify_path,
        }
    }

    /// The machine before a self-upgrade.
    pub fn begin_upgrade(no_prompt: bool, no_modify_path: bool) -> (installer: Installer)
        ensures
            installer == Installer::spec_begin_upgrade(no_prompt, no_modify_path),
    {
        Installer {
            state: InstallState::Idle,
            source: BinarySource::UnverifiedCandidate,
            no_prompt,
            no_modify_path,
        }
    }

    /// This machine in another state.
    fn moved_to(self, state: InstallState) -> (moved: Installer)
        ensures
            moved == self.at(state),
    {
        Installer {
            state,
            source: self.source,
            no_prompt: self.no_prompt,
            no_modify_path: self.no_modify_path,
        }
    }

    /// Moves the machine on by one event.
    #[verifier::when_used_as_spec(spec_step)]
    pub fn step(self, event: InstallEvent) -> (next: Installer)
        ensures
            next == self.spec_step(event),
    {
        match self.state {
            InstallState::Idle => match event {
                InstallEvent::ConflictsProbed(report) => match report.first_kind() {
                    Some(kind) => self.moved_to(InstallState::Aborted(AbortReason::Conflict(kind))),
                    None => self.moved_to(InstallState::ConflictChecked),
                },
                _ => self,
            },
            InstallState::ConflictChecked => match event {
                InstallEvent::IdentityProbed { mismatch } => if mismatch && self.no_prompt {
                    self.moved_to(InstallState::Aborted(AbortReason::PrivilegeMismatch))
                } else {
                    self.moved_to(InstallState::SudoChecked)
                },
                _ => self,
            },
            InstallState::SudoChecked => match self.source {
                BinarySource::UnverifiedCandidate => match event {
                    InstallEvent::CandidateVerified => Installer {
                        state: self.state,
                        source: BinarySource::VerifiedCandidate,
                        no_prompt: self.no_prompt,
                        no_modify_path: self.no_modify_path,
                    },
                    InstallEvent::CandidateRejected => self.moved_to(
                        InstallState::Aborted(AbortReason::ChecksumMismatch),
                    ),
                    InstallEvent::Failed => self.moved_to(InstallState::Aborted(AbortReason::Io)),
                    _ => self,
                },
                _ => match event {
                    InstallEvent::Succeeded => self.moved_to(InstallState::Placed),
                    InstallEvent::Failed => self.moved_to(InstallState::Aborted(AbortReason::Io)),
                    _ => self,
                },
            },
            InstallState::Placed => match event {
                InstallEvent::Succeeded => self.moved_to(InstallState::Linked),
                _ => self,
            },
            InstallState::Linked => match event {
                InstallEvent::Succeeded => self.moved_to(InstallState::PathRegistered),
                _ => self,
            },
            InstallState::PathRegistered => match event {
                InstallEvent::Succeeded => self.moved_to(
                    InstallState::Done { toolchain_installed: true },
                ),
                InstallEvent::Failed => self.moved_to(
                    InstallState::Done { toolchain_installed: false },
                ),
                _ => self,
            },
            InstallState::Done { .. } => self,
            InstallState::Aborted(_) => self,
        }
    }

    /// The action that the machine asks for. An action that writes is
    /// asked for only after both checks have been passed.
    #[verifier::when_used_as_spec(spec_action)]
    pub fn action(self) -> (action: InstallAction)
        ensures
            action == self.spec_action(),
            action.mutates() ==> self.may_write() && !(self.source is UnverifiedCandidate
                && self.state is SudoChecked),
    {
        match self.state {
            InstallState::Idle => InstallAction::ProbeConflicts,
            InstallState::ConflictChecked => InstallAction::ProbeIdentity,
            InstallState::SudoChecked => match self.source {
                BinarySource::UnverifiedCandidate => InstallAction::VerifyCandidate,
                _ => InstallAction::PlaceBinary,
            },
            InstallState::Placed => InstallAction::LinkTools,
            InstallState::Linked => if self.no_modify_path {
                InstallAction::Proceed
            } else {
                InstallAction::RegisterPath
            },
            InstallState::PathRegistered => InstallAction::InstallDefaultToolchain,
            InstallState::Done { .. } => InstallAction::Stop,
            InstallState::Aborted(_) => InstallAction::Stop,
        }
    }

    /// The action that the machine asks for once `event` has been
    /// reported: that of the state reached, and `Stop` after a failure. The
    /// caller goes on until `Stop` is asked for, and ends with the
    /// [`Installer::exit_code`] of the state reached.
    #[verifier::when_used_as_spec(spec_next_action)]
    pub fn next_action(self, event: InstallEvent) -> (action: InstallAction)
        ensures
            action == self.spec_next_action(event),
            action.mutates() ==> self.spec_step(event).may_write(),
    {
        match event {
            InstallEvent::Failed => InstallAction::Stop,
            _ => self.step(event).action(),
        }
    }

    /// The exit status of a run that has come this far: 0 when the manager
    /// and the default toolchain are installed, 1 in every other state.
    pub open spec fn spec_exit_code(self) -> i32 {
        if self.state == (InstallState::Done { toolchain_installed: true }) {
            0
        } else {
            1
        }
    }

    /// The exit status of a run that has come this far. A run that was
    /// aborted, and one that installed the manager without the default
    /// toolchain, both end with a status other than 0.
    #[verifier::when_used_as_spec(spec_exit_code)]
    pub fn exit_code(self) -> (code: i32)
        ensures
            code == self.spec_exit_code(),
    {
        match self.state {
            InstallState::Done { toolchain_installed: true } => 0,
            _ => 1,
        }
    }

    /// Whether the run is over.
    pub fn finished(self) -> (finished: bool)
        ensures
            finished == (self.state is Done || self.state is Aborted),
            finished == (self.spec_action() is Stop),
    {
        match self.state {
            InstallState::Done { .. } => true,
            InstallState::Aborted(_) => true,
            _ => false,
        }
    }
}

/// An aborted machine stays aborted, whatever is reported to it, and asks
/// for nothing more.
pub proof fn law_aborted_is_final(machine: Installer, events: Seq<InstallEvent>)
    requires
        machine.state is Aborted,
    ensures
        machine.run(events) == machine,
        machine.run(events).spec_action() is Stop,
    decreases events.len(),
{
    if events.len() > 0 {
        law_aborted_is_final(machine, events.drop_last());
    }
}

/// A run is made step by step: what holds after a first event and the
/// rest is what holds after all of them.
pub proof fn lemma_run_from_first(
    machine: Installer,
    first: InstallEvent,
    rest: Seq<InstallEvent>,
)
    ensures
        machine.run(seq![first] + rest) == machine.spec_step(first).run(rest),
    decreases rest.len(),
{
    let all = seq![first] + rest;
    if rest.len() == 0 {
        assert(all.drop_last() =~= Seq::<InstallEvent>::empty());
        assert(machine.run(all.drop_last()) == machine);
    } else {
        assert(all.drop_last() =~= seq![first] + rest.drop_last());
        lemma_run_from_first(machine, first, rest.drop_last());
    }
}

/// Once a conflict has been reported, nothing is ever written: the
/// machine is aborted for that conflict after the report and after every
/// later event, and asks for no action that writes. Before the report it
/// asks only for the probe.
pub proof fn law_conflict_prevents_writes(
    machine: Installer,
    report: ConflictReport,
    later: Seq<InstallEvent>,
)
    requires
        machine.state is Idle,
        report.any(),
    ensures
        !machine.spec_action().mutates(),
        report.first_kind() is Some,
        machine.run(seq![InstallEvent::ConflictsProbed(report)] + later).state
            == InstallState::Aborted(AbortReason::Conflict(report.first_kind().unwrap())),
        !machine.run(seq![InstallEvent::ConflictsProbed(report)] + later).spec_action().mutates(),
{
    let first = InstallEvent::ConflictsProbed(report);
    lemma_run_from_first(machine, first, later);
    law_aborted_is_final(machine.spec_step(first), later);
}

/// A mismatch of the home directories stops an unattended run before
/// anything is written, and lets an attended run go on.
pub proof fn law_mismatch_policy(machine: Installer, mismatch: bool, later: Seq<InstallEvent>)
    requires
        machine.state is ConflictChecked,
    ensures
        !machine.spec_action().mutates(),
        mismatch && machine.no_prompt ==> machine.run(
            seq![InstallEvent::IdentityProbed { mismatch }] + later,
        ).state == InstallState::Aborted(AbortReason::PrivilegeMismatch) && !machine.run(
            seq![InstallEvent::IdentityProbed { mismatch }] + later,
        ).spec_action().mutates(),
        !(mismatch && machine.no_prompt) ==> machine.spec_step(
            InstallEvent::IdentityProbed { mismatch },
        ).state is SudoChecked,
{
    let first = InstallEvent::IdentityProbed { mismatch };
    lemma_run_from_first(machine, first, later);
    if mismatch && machine.no_prompt {
        law_aborted_is_final(machine.spec_step(first), later);
    }
}

/// Whether no event of `events` says that the candidate was verified.
pub open spec fn never_verified(events: Seq<InstallEvent>) -> bool {
    forall|i: int| 0 <= i < events.len() ==> !(#[trigger] events[i] is CandidateVerified)
}

/// A candidate that was not verified is never put in place: in a
/// self-upgrade, as long as no event says that the checksum matched, the
/// machine has not passed `SudoChecked` and asks for no action that writes.
pub proof fn law_unverified_candidate_is_never_placed(
    machine: Installer,
    events: Seq<InstallEvent>,
)
    requires
        machine.source is UnverifiedCandidate,
        machine.state is Idle || machine.state is ConflictChecked || machine.state is SudoChecked,
        never_verified(events),
    ensures
        machine.run(events).source is UnverifiedCandidate,
        machine.run(events).state is Idle || machine.run(events).state is ConflictChecked
            || machine.run(events).state is SudoChecked || machine.run(events).state is Aborted,
        !machine.run(events).spec_action().mutates(),
    decreases events.len(),
{
    if events.len() > 0 {
        assert(never_verified(events.drop_last())) by {
            assert forall|i: int| 0 <= i < events.drop_last().len() implies !(
            #[trigger] events.drop_last()[i] is CandidateVerified) by {
                assert(events.drop_last()[i] == events[i]);
            }
        }
        law_unverified_candidate_is_never_placed(machine, events.drop_last());
        assert(!(events.last() is CandidateVerified)) by {
            assert(events[events.len() - 1] == events.last());
        }
    }
}

/// A rejected candidate ends a self-upgrade: from then on the machine is
/// aborted for the checksum and asks for nothing.
pub proof fn law_rejected_candidate_aborts(machine: Installer, later: Seq<InstallEvent>)
    requires
        machine.source is UnverifiedCandidate,
        machine.state is SudoChecked,
    ensures
        machine.run(seq![InstallEvent::CandidateRejected] + later).state == InstallState::Aborted(
            AbortReason::ChecksumMismatch,
        ),
        machine.run(seq![InstallEvent::CandidateRejected] + later).spec_action() is Stop,
{
    lemma_run_from_first(machine, InstallEvent::CandidateRejected, later);
    law_aborted_is_final(machine.spec_step(InstallEvent::CandidateRejected), later);
}

/// Once the binary is placed, the installation is never called off: no
/// later event leads to `Aborted`, and a default toolchain that fails to
/// install still ends the run in `Done`.
pub proof fn law_no_abort_after_placement(machine: Installer, events: Seq<InstallEvent>)
    requires
        machine.state is Placed || machine.state is Linked || machine.state is PathRegistered
            || machine.state is Done,
    ensures
        !(machine.run(events).state is Aborted),
        machine.run(events).state is Placed || machine.run(events).state is Linked
            || machine.run(events).state is PathRegistered || machine.run(events).state is Done,
        machine.state is PathRegistered ==> machine.spec_step(InstallEvent::Failed).state
            == (InstallState::Done { toolchain_installed: false }),
    decreases events.len(),
{
    if events.len() > 0 {
        law_no_abort_after_placement(machine, events.drop_last());
    }
}

} // verus!
