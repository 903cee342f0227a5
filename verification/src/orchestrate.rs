//! Orchestrator: the strictly sequential update state machine and the
//! explicit restore workflow.
//!
//! The caller performs the real I/O for each stage (probing paths,
//! downloading, expanding, mirroring tree transitions onto disk) and
//! drives the machine with the results; which stage may run next, and
//! what each stage does to the modeled state, is verified here. The
//! step preconditions are the guarantee behind the guard properties:
//! no fetch, backup or install step is even enabled unless resolution
//! succeeded and the privilege gate passed.

use vstd::prelude::*;

use crate::gate::gate_blocks;
use crate::resolve::{
    first_probe_hit, lookup_hit, no_probe_hit, resolve_installation, ProbeResult,
};
use crate::state::{
    first_match, installed_ok, no_match, restore_transition, snapshot_transition, staged_ready,
    SystemState, UpdateError, VerifyOutcome,
};
use crate::tree::FsTree;

verus! {

/// The stages of one update run, in the order they may occur, and the
/// four terminal states.
#[derive(Clone, Copy, Debug, PartialEq, Eq, Structural)]
pub enum Phase {
    Resolving,
    GateChecking,
    Fetching,
    BackingUp,
    Installing,
    Verifying,
    Succeeded,
    RolledBack,
    Aborted,
    Failed,
}

/// What the caller's download-and-expand attempt produced: the
/// expanded scratch tree, or the stage at which the transfer died.
#[derive(Debug, PartialEq, Eq)]
pub enum FetchOutcome {
    Fetched(FsTree),
    TransferFailed,
    ExpandFailed,
}

/// One update run: the current phase, the modeled on-disk state, the
/// resolved installation path, and the error of a failed run.
#[derive(Debug, PartialEq, Eq)]
pub struct Orchestrator {
    pub phase: Phase,
    pub state: SystemState,
    pub resolved: Option<String>,
    pub error: Option<UpdateError>,
}

impl Orchestrator {
    /// A fresh run over the given on-disk state.
    pub fn start(state: SystemState) -> (o: Orchestrator)
        ensures
            o.phase == Phase::Resolving,
            o.state == state,
            o.resolved is None,
            o.error is None,
    {
        Orchestrator { phase: Phase::Resolving, state, resolved: None, error: None }
    }

    /// Path Resolver stage. Resolution failing is the `NotFound`
    /// terminal failure, before anything has been touched.
    pub fn step_resolve(&mut self, probes: &Vec<ProbeResult>, lookup: &Option<ProbeResult>)
        requires
            old(self).phase == Phase::Resolving,
        ensures
            final(self).state == old(self).state,
            no_probe_hit(probes@) && !lookup_hit(*lookup) ==> final(self).phase == Phase::Failed
                && final(self).error == Some(UpdateError::NotFound),
            !(no_probe_hit(probes@) && !lookup_hit(*lookup)) ==> {
                &&& final(self).phase == Phase::GateChecking
                &&& final(self).error == old(self).error
                &&& final(self).resolved is Some
                &&& (!no_probe_hit(probes@) ==> exists|i: int|
                    first_probe_hit(probes@, i) && final(self).resolved->0@ == probes@[i].path@)
                &&& (no_probe_hit(probes@) ==> lookup_hit(*lookup) && final(self).resolved->0@
                    == lookup->0.path@)
            },
    {
        match resolve_installation(probes, lookup) {
            Some(path) => {
                self.resolved = Some(path);
                self.phase = Phase::GateChecking;
            },
            None => {
                self.error = Some(UpdateError::NotFound);
                self.phase = Phase::Failed;
            },
        }
    }

    /// Privilege Gate stage: when the resolved path needs rights the
    /// process lacks, the whole run aborts here — a refusal, not an
    /// error — with the state untouched; no later stage is enabled.
    pub fn step_gate(&mut self, process_elevated: bool)
        requires
            old(self).phase == Phase::GateChecking,
            old(self).resolved is Some,
        ensures
            final(self).state == old(self).state,
            final(self).resolved == old(self).resolved,
            final(self).error == old(self).error,
            gate_blocks(old(self).resolved->0@, process_elevated) ==> final(self).phase
                == Phase::Aborted,
            !gate_blocks(old(self).resolved->0@, process_elevated) ==> final(self).phase
                == Phase::Fetching,
    {
        let blocked = match &self.resolved {
            Some(path) => crate::gate::must_abort(path.as_str(), process_elevated),
            None => vstd::pervasive::unreached(),
        };
        if blocked {
            self.phase = Phase::Aborted;
        } else {
            self.phase = Phase::Fetching;
        }
    }

    /// Archive Fetcher stage: record what the caller's download and
    /// expansion produced. On success the staged tree is exactly the
    /// expanded archive; on failure nothing is recorded as staged and
    /// the run fails with the matching error.
    pub fn step_fetch(&mut self, outcome: FetchOutcome)
        requires
            old(self).phase == Phase::Fetching,
            outcome matches FetchOutcome::Fetched(t) ==> t is Dir,
        ensures
            final(self).state.install == old(self).state.install,
            final(self).state.backup == old(self).state.backup,
            final(self).resolved == old(self).resolved,
            match outcome {
                FetchOutcome::Fetched(t) => {
                    &&& final(self).phase == Phase::BackingUp
                    &&& final(self).state.staged == Some(t)
                    &&& final(self).error == old(self).error
                },
                FetchOutcome::TransferFailed => {
                    &&& final(self).phase == Phase::Failed
                    &&& final(self).error == Some(UpdateError::NetworkError)
                    &&& final(self).state == old(self).state
                },
                FetchOutcome::ExpandFailed => {
                    &&& final(self).phase == Phase::Failed
                    &&& final(self).error == Some(UpdateError::ArchiveError)
                    &&& final(self).state == old(self).state
                },
            },
    {
        match outcome {
            FetchOutcome::Fetched(t) => {
                self.state.staged = Some(t);
                self.phase = Phase::BackingUp;
            },
            FetchOutcome::TransferFailed => {
                self.error = Some(UpdateError::NetworkError);
                self.phase = Phase::Failed;
            },
            FetchOutcome::ExpandFailed => {
                self.error = Some(UpdateError::ArchiveError);
                self.phase = Phase::Failed;
            },
        }
    }

    /// Backup Manager stage: snapshot the installation, discarding any
    /// previous generation, then move on to installing.
    pub fn step_backup(&mut self)
        requires
            old(self).phase == Phase::BackingUp,
            old(self).state.install is Some,
        ensures
            final(self).phase == Phase::Installing,
            final(self).resolved == old(self).resolved,
            final(self).error == old(self).error,
            snapshot_transition(old(self).state, final(self).state),
    {
        self.state.snapshot();
        self.phase = Phase::Installing;
    }

    /// Installer stage: swap the staged tree in. When the staged
    /// archive holds no matching directory the run fails with the
    /// installation untouched.
    pub fn step_install(&mut self, prefix: &str)
        requires
            old(self).phase == Phase::Installing,
            staged_ready(old(self).state),
        ensures
            final(self).resolved == old(self).resolved,
            final(self).state.backup == old(self).state.backup,
            final(self).state.staged == old(self).state.staged,
            !no_match(old(self).state.staged->0->Dir_entries@, prefix@) ==> {
                &&& final(self).phase == Phase::Verifying
                &&& final(self).error == old(self).error
                &&& final(self).state.install is Some
                &&& exists|i: int|
                    first_match(old(self).state.staged->0->Dir_entries@, i, prefix@)
                        && final(self).state.install->0.model()
                        == old(self).state.staged->0->Dir_entries@[i].node.model()
            },
            no_match(old(self).state.staged->0->Dir_entries@, prefix@) ==> {
                &&& final(self).phase == Phase::Failed
                &&& final(self).error == Some(UpdateError::StagedContentNotFound)
                &&& final(self).state == old(self).state
            },
    {
        match self.state.swap_in(prefix) {
            Ok(()) => {
                self.phase = Phase::Verifying;
            },
            Err(e) => {
                self.error = Some(e);
                self.phase = Phase::Failed;
            },
        }
    }

    /// Verifier / Rollback stage: success, rollback to the backup, or
    /// the one unrecoverable terminal failure.
    pub fn step_verify(&mut self, exe_name: &String)
        requires
            old(self).phase == Phase::Verifying,
        ensures
            final(self).resolved == old(self).resolved,
            installed_ok(old(self).state, exe_name@) ==> {
                &&& final(self).phase == Phase::Succeeded
                &&& final(self).state == old(self).state
                &&& final(self).error == old(self).error
            },
            !installed_ok(old(self).state, exe_name@) && old(self).state.backup is Some ==> {
                &&& final(self).phase == Phase::RolledBack
                &&& restore_transition(old(self).state, final(self).state)
                &&& final(self).error == old(self).error
            },
            !installed_ok(old(self).state, exe_name@) && old(self).state.backup is None ==> {
                &&& final(self).phase == Phase::Failed
                &&& final(self).error == Some(UpdateError::Unrecoverable)
                &&& final(self).state == old(self).state
            },
    {
        match self.state.verify_and_finalize(exe_name) {
            VerifyOutcome::Success => {
                self.phase = Phase::Succeeded;
            },
            VerifyOutcome::RolledBack => {
                self.phase = Phase::RolledBack;
            },
            VerifyOutcome::Unrecoverable => {
                self.error = Some(UpdateError::Unrecoverable);
                self.phase = Phase::Failed;
            },
        }
    }

    /// A filesystem operation of the backup or install stage failed in
    /// the caller's mirror of the run. The run fails with `IoError`;
    /// during backing up the installation is untouched, and during
    /// installing the snapshot taken beforehand is retained, so the
    /// last known-good tree is never lost.
    pub fn step_fs_error(&mut self)
        requires
            old(self).phase == Phase::BackingUp || old(self).phase == Phase::Installing,
        ensures
            final(self).phase == Phase::Failed,
            final(self).error == Some(UpdateError::IoError),
            final(self).resolved == old(self).resolved,
            old(self).phase == Phase::BackingUp ==> final(self).state.install
                == old(self).state.install,
            old(self).phase == Phase::Installing ==> final(self).state.backup
                == old(self).state.backup,
    {
        self.error = Some(UpdateError::IoError);
        self.phase = Phase::Failed;
    }

    /// Whether the run has reached one of the four terminal states.
    pub fn is_terminal(&self) -> (r: bool)
        ensures
            r == (self.phase == Phase::Succeeded || self.phase == Phase::RolledBack || self.phase
                == Phase::Aborted || self.phase == Phase::Failed),
    {
        match self.phase {
            Phase::Succeeded | Phase::RolledBack | Phase::Aborted | Phase::Failed => true,
            _ => false,
        }
    }
}

/// Outcome of the explicit restore workflow.
#[derive(Clone, Copy, Debug, PartialEq, Eq, Structural)]
pub enum RestoreOutcome {
    /// The backup was copied back over the installation.
    Restored,
    /// No installation was located; nothing was touched.
    NotFound,
    /// The path needs rights the process lacks; nothing was touched.
    Aborted,
    /// No backup exists; nothing was touched.
    NoBackup,
}

/// The restore workflow: resolve the installation, pass the privilege
/// gate, then unconditionally overwrite the installation with the
/// backup — or report, touching nothing, why that cannot happen. The
/// second component is the resolved installation path, present from
/// the moment resolution succeeds.
pub fn run_restore(
    state: &mut SystemState,
    probes: &Vec<ProbeResult>,
    lookup: &Option<ProbeResult>,
    process_elevated: bool,
) -> (r: (RestoreOutcome, Option<String>))
    ensures
        r.1 is Some ==> {
            &&& (!no_probe_hit(probes@) ==> exists|i: int|
                first_probe_hit(probes@, i) && r.1->0@ == probes@[i].path@)
            &&& (no_probe_hit(probes@) ==> lookup_hit(*lookup) && r.1->0@ == lookup->0.path@)
        },
        match r.0 {
            RestoreOutcome::Restored => {
                &&& r.1 is Some
                &&& !gate_blocks(r.1->0@, process_elevated)
                &&& restore_transition(*old(state), *final(state))
            },
            RestoreOutcome::NotFound => {
                &&& r.1 is None
                &&& no_probe_hit(probes@) && !lookup_hit(*lookup)
                &&& *final(state) == *old(state)
            },
            RestoreOutcome::Aborted => {
                &&& r.1 is Some
                &&& gate_blocks(r.1->0@, process_elevated)
                &&& *final(state) == *old(state)
            },
            RestoreOutcome::NoBackup => {
                &&& r.1 is Some
                &&& !gate_blocks(r.1->0@, process_elevated)
                &&& old(state).backup is None
                &&& *final(state) == *old(state)
            },
        },
{
    let resolved = match resolve_installation(probes, lookup) {
        Some(path) => path,
        None => {
            return (RestoreOutcome::NotFound, None);
        },
    };
    if crate::gate::must_abort(resolved.as_str(), process_elevated) {
        return (RestoreOutcome::Aborted, Some(resolved));
    }
    match state.restore() {
        Ok(()) => (RestoreOutcome::Restored, Some(resolved)),
        Err(_) => (RestoreOutcome::NoBackup, Some(resolved)),
    }
}

} // verus!
