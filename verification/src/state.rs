//! The state the pipeline mutates — live installation, single backup
//! generation, staged archive — and the verified transitions over it:
//! snapshot, swap-in, post-install verification with rollback, restore.

use vstd::prelude::*;

use crate::gate::char_prefix;
use crate::tree::{lemma_entries_model_index, DirEntry, FsTree, TreeModel};
use vstd::pervasive::unreached;

verus! {

/// Every way a run can fail.
#[derive(Clone, Copy, Debug, PartialEq, Eq, Structural)]
pub enum UpdateError {
    /// No installation was located.
    NotFound,
    /// The archive transfer failed.
    NetworkError,
    /// The archive could not be expanded.
    ArchiveError,
    /// The staged archive holds no matching top-level directory.
    StagedContentNotFound,
    /// A filesystem operation failed.
    IoError,
    /// A restore was asked for but no backup exists.
    NoBackupAvailable,
    /// Verification failed and no backup was available to roll back to.
    Unrecoverable,
}

/// Result of post-install verification.
#[derive(Clone, Copy, Debug, PartialEq, Eq, Structural)]
pub enum VerifyOutcome {
    /// The expected executable entry is present.
    Success,
    /// It was absent; the backup was copied back over the installation.
    RolledBack,
    /// It was absent and no backup exists; nothing further was touched.
    Unrecoverable,
}

/// The on-disk state the pipeline owns: the live installation tree,
/// the single retained backup generation, and the staged archive
/// contents, each `None` when absent from disk.
#[derive(Debug, PartialEq, Eq)]
pub struct SystemState {
    pub install: Option<FsTree>,
    pub backup: Option<FsTree>,
    pub staged: Option<FsTree>,
}

/// The shape of an optional tree.
pub open spec fn opt_model(o: Option<FsTree>) -> Option<TreeModel> {
    match o {
        Some(t) => Some(t.model()),
        None => None,
    }
}

/// The directory shape `m` has an entry named `name`.
pub open spec fn model_dir_contains(m: TreeModel, name: Seq<char>) -> bool {
    m is Dir && exists|i: int| 0 <= i < m->Dir_entries.len() && m->Dir_entries[i].0 == name
}

/// The entry is an expanded top-level directory whose name carries the
/// application's naming-convention prefix.
pub open spec fn entry_is_match(e: DirEntry, prefix: Seq<char>) -> bool {
    e.node.model() is Dir && char_prefix(e.name@, prefix)
}

/// Entry `i` is the first match for the naming convention.
pub open spec fn first_match(s: Seq<DirEntry>, i: int, prefix: Seq<char>) -> bool {
    &&& 0 <= i < s.len()
    &&& entry_is_match(s[i], prefix)
    &&& forall|j: int| 0 <= j < i ==> !entry_is_match(#[trigger] s[j], prefix)
}

/// No entry matches the naming convention.
pub open spec fn no_match(s: Seq<DirEntry>, prefix: Seq<char>) -> bool {
    forall|j: int| 0 <= j < s.len() ==> !entry_is_match(#[trigger] s[j], prefix)
}

/// The staged archive is present and its scratch root is a directory.
pub open spec fn staged_ready(s: SystemState) -> bool {
    s.staged is Some && s.staged->0 is Dir
}

/// What taking a snapshot does: the backup becomes a structural copy
/// of the live installation; nothing else moves. Whatever backup
/// generation existed before is gone — the state holds at most one.
pub open spec fn snapshot_transition(pre: SystemState, post: SystemState) -> bool {
    &&& pre.install is Some
    &&& post.backup is Some
    &&& post.backup->0.model() == pre.install->0.model()
    &&& post.install == pre.install
    &&& post.staged == pre.staged
}

/// What a restore does: the installation becomes a structural copy of
/// the backup; the backup itself and the staged archive stay put.
pub open spec fn restore_transition(pre: SystemState, post: SystemState) -> bool {
    &&& pre.backup is Some
    &&& post.install is Some
    &&& post.install->0.model() == pre.backup->0.model()
    &&& post.backup == pre.backup
    &&& post.staged == pre.staged
}

/// The installation is present and holds the expected executable entry.
pub open spec fn installed_ok(s: SystemState, exe_name: Seq<char>) -> bool {
    s.install is Some && model_dir_contains(s.install->0.model(), exe_name)
}

/// Whether the node is a directory.
pub fn node_is_dir(t: &FsTree) -> (r: bool)
    ensures
        r == (t.model() is Dir),
{
    match t {
        FsTree::Dir { .. } => true,
        FsTree::File { .. } => false,
    }
}

/// Whether some entry is named `name`.
fn find_entry_named(entries: &Vec<DirEntry>, name: &String) -> (r: bool)
    ensures
        r == exists|i: int| 0 <= i < entries@.len() && (#[trigger] entries@[i]).name@ == name@,
{
    let mut i: usize = 0;
    while i < entries.len()
        invariant
            i <= entries@.len(),
            forall|j: int| 0 <= j < i ==> (#[trigger] entries@[j]).name@ != name@,
        decreases entries@.len() - i,
    {
        if entries[i].name == *name {
            return true;
        }
        i = i + 1;
    }
    false
}

/// Whether `t` is a directory holding an entry named `name`.
pub fn dir_contains(t: &FsTree, name: &String) -> (r: bool)
    ensures
        r == model_dir_contains(t.model(), name@),
{
    match t {
        FsTree::File { .. } => false,
        FsTree::Dir { entries } => {
            let b = find_entry_named(entries, name);
            proof {
                lemma_entries_model_index(entries@);
                let m = t.model();
                if b {
                    let i = choose|i: int|
                        0 <= i < entries@.len() && (#[trigger] entries@[i]).name@ == name@;
                    assert(m->Dir_entries[i].0 == name@);
                } else {
                    if model_dir_contains(m, name@) {
                        let i = choose|i: int|
                            0 <= i < m->Dir_entries.len() && m->Dir_entries[i].0 == name@;
                        assert(entries@[i].name@ == name@);
                    }
                }
            }
            b
        },
    }
}

/// The Installer's locate step: the first staged top-level directory
/// whose name carries the naming-convention prefix.
pub fn find_staged_dir(entries: &Vec<DirEntry>, prefix: &str) -> (r: Option<usize>)
    ensures
        match r {
            Some(i) => first_match(entries@, i as int, prefix@),
            None => no_match(entries@, prefix@),
        },
{
    let mut i: usize = 0;
    while i < entries.len()
        invariant
            i <= entries@.len(),
            forall|j: int| 0 <= j < i ==> !entry_is_match(#[trigger] entries@[j], prefix@),
        decreases entries@.len() - i,
    {
        let e = &entries[i];
        if node_is_dir(&e.node) && crate::gate::has_char_prefix(e.name.as_str(), prefix) {
            return Some(i);
        }
        i = i + 1;
    }
    None
}

impl SystemState {
    /// Backup Manager: discard any previous backup generation and
    /// snapshot the live installation in its place.
    pub fn snapshot(&mut self)
        requires
            old(self).install is Some,
        ensures
            snapshot_transition(*old(self), *final(self)),
    {
        let copied = match &self.install {
            Some(t) => t.deep_copy(),
            None => unreached(),
        };
        self.backup = Some(copied);
    }

    /// Installer: locate the staged top-level directory matching the
    /// naming convention and replace the installation with a structural
    /// copy of it; when none matches, fail without touching anything.
    pub fn swap_in(&mut self, prefix: &str) -> (r: Result<(), UpdateError>)
        requires
            staged_ready(*old(self)),
        ensures
            r is Ok <==> !no_match(old(self).staged->0->Dir_entries@, prefix@),
            match r {
                Ok(()) => {
                    &&& final(self).backup == old(self).backup
                    &&& final(self).staged == old(self).staged
                    &&& final(self).install is Some
                    &&& exists|i: int|
                        first_match(old(self).staged->0->Dir_entries@, i, prefix@)
                            && final(self).install->0.model() == old(
                            self,
                        ).staged->0->Dir_entries@[i].node.model()
                },
                Err(e) => {
                    &&& e == UpdateError::StagedContentNotFound
                    &&& no_match(old(self).staged->0->Dir_entries@, prefix@)
                    &&& *final(self) == *old(self)
                },
            },
    {
        let idx = match &self.staged {
            Some(FsTree::Dir { entries }) => find_staged_dir(entries, prefix),
            _ => unreached(),
        };
        match idx {
            Some(i) => {
                let copied = match &self.staged {
                    Some(FsTree::Dir { entries }) => entries[i].node.deep_copy(),
                    _ => unreached(),
                };
                self.install = Some(copied);
                Ok(())
            },
            None => Err(UpdateError::StagedContentNotFound),
        }
    }

    /// Verifier / Rollback Controller: declare success when the
    /// expected executable entry is present; otherwise copy the backup
    /// back over the installation when one exists, and report the one
    /// unrecoverable state — touching nothing — when none does.
    pub fn verify_and_finalize(&mut self, exe_name: &String) -> (o: VerifyOutcome)
        ensures
            match o {
                VerifyOutcome::Success => installed_ok(*old(self), exe_name@) && *final(self) == *old(
                    self,
                ),
                VerifyOutcome::RolledBack => {
                    &&& !installed_ok(*old(self), exe_name@)
                    &&& old(self).backup is Some
                    &&& restore_transition(*old(self), *final(self))
                },
                VerifyOutcome::Unrecoverable => {
                    &&& !installed_ok(*old(self), exe_name@)
                    &&& old(self).backup is None
                    &&& *final(self) == *old(self)
                },
            },
    {
        let present = match &self.install {
            Some(t) => dir_contains(t, exe_name),
            None => false,
        };
        if present {
            VerifyOutcome::Success
        } else {
            match &self.backup {
                Some(b) => {
                    let copied = b.deep_copy();
                    self.install = Some(copied);
                    VerifyOutcome::RolledBack
                },
                None => VerifyOutcome::Unrecoverable,
            }
        }
    }

    /// Restore workflow body: overwrite the installation with the
    /// backup; with no backup present, change nothing and say so.
    pub fn restore(&mut self) -> (r: Result<(), UpdateError>)
        ensures
            match r {
                Ok(()) => restore_transition(*old(self), *final(self)),
                Err(e) => {
                    &&& e == UpdateError::NoBackupAvailable
                    &&& old(self).backup is None
                    &&& *final(self) == *old(self)
                },
            },
    {
        match &self.backup {
            Some(b) => {
                let copied = b.deep_copy();
                self.install = Some(copied);
                Ok(())
            },
            None => Err(UpdateError::NoBackupAvailable),
        }
    }
}

impl UpdateError {
    /// A short description of the failure, for terminal output.
    pub fn message(&self) -> (r: &'static str)
        ensures
            r@ == match *self {
                UpdateError::NotFound => "installation not found"@,
                UpdateError::NetworkError => "archive download failed"@,
                UpdateError::ArchiveError => "archive expansion failed"@,
                UpdateError::StagedContentNotFound => "staged archive directory not found"@,
                UpdateError::IoError => "filesystem operation failed"@,
                UpdateError::NoBackupAvailable => "no backup available"@,
                UpdateError::Unrecoverable => "verification failed and no backup available"@,
            },
    {
        match self {
            UpdateError::NotFound => "installation not found",
            UpdateError::NetworkError => "archive download failed",
            UpdateError::ArchiveError => "archive expansion failed",
            UpdateError::StagedContentNotFound => "staged archive directory not found",
            UpdateError::IoError => "filesystem operation failed",
            UpdateError::NoBackupAvailable => "no backup available",
            UpdateError::Unrecoverable => "verification failed and no backup available",
        }
    }
}

/// Backup idempotence: snapshotting twice in a row leaves the single
/// retained generation structurally identical to the latest snapshot —
/// the previous generation is discarded, never merged.
pub proof fn lemma_snapshot_idempotent(s0: SystemState, s1: SystemState, s2: SystemState)
    requires
        snapshot_transition(s0, s1),
        snapshot_transition(s1, s2),
    ensures
        s2.backup is Some,
        opt_model(s2.backup) == opt_model(s1.backup),
        opt_model(s2.backup) == opt_model(s0.install),
{
}

/// Rollback correctness, end to end: after a snapshot, any sequence of
/// steps that leaves the backup alone — the swap-in does — followed by
/// a restore puts a tree structurally identical to the pre-update
/// installation back in place.
pub proof fn lemma_rollback_restores_original(
    s0: SystemState,
    s1: SystemState,
    s2: SystemState,
    s3: SystemState,
)
    requires
        snapshot_transition(s0, s1),
        s2.backup == s1.backup,
        restore_transition(s2, s3),
    ensures
        opt_model(s3.install) == opt_model(s0.install),
{
}

} // verus!
