//! Provisioning of the tool's private sidecar directory beneath `.git`.
//!
//! Once the locator has found the repository's `.git` directory, the tool
//! keeps its own bookkeeping in a sidecar directory that is a direct child of
//! it. Construction decides, from whether the `.git` directory and the
//! sidecar already exist on disk, whether provisioning may proceed and
//! whether a directory must be created; the caller performs the existence
//! checks and the one possible creation, so a failure never creates anything
//! and a second run over the same repository reuses the directory untouched.

use vstd::prelude::*;

use crate::abs_path::AbsPath;

verus! {

/// The name of the tool's sidecar directory inside `.git`.
pub open spec fn sidecar_dir_name() -> Seq<char> {
    "x-tig-info"@
}

/// Why sidecar provisioning failed.
#[derive(Debug, Clone, Copy, PartialEq, Eq, Structural)]
pub enum SidecarError {
    /// The `.git` directory the locator reported does not exist on disk any
    /// more: a stale or externally invalidated path. Nothing is created.
    GitDirMissing,
}

/// What the caller must do on disk after a successful construction.
#[derive(Debug, Clone, Copy, PartialEq, Eq, Structural)]
pub enum SidecarAction {
    /// The sidecar directory does not exist yet: create it (non-recursively;
    /// its parent `.git` directory is already known to exist).
    CreateDirectory,
    /// The sidecar directory already exists: reuse it without altering it.
    ReuseExisting,
}

/// The decision model of sidecar provisioning: with an existing `.git`
/// directory the sidecar path is its direct child named `x-tig-info`, and a
/// directory is created exactly when none exists yet; without it,
/// construction fails and nothing is created.
pub open spec fn sidecar_outcome(
    git_dir: Seq<Seq<char>>,
    git_dir_exists: bool,
    sidecar_exists: bool,
) -> Result<(Seq<Seq<char>>, SidecarAction), SidecarError> {
    if git_dir_exists {
        Ok(
            (
                git_dir.push(sidecar_dir_name()),
                if sidecar_exists {
                    SidecarAction::ReuseExisting
                } else {
                    SidecarAction::CreateDirectory
                },
            ),
        )
    } else {
        Err(SidecarError::GitDirMissing)
    }
}

/// The sidecar directory path for a repository's `.git` directory: its direct
/// child named `x-tig-info`.
pub fn sidecar_path(repo_git_dir: &AbsPath) -> (r: AbsPath)
    ensures
        r@ == repo_git_dir@.push(sidecar_dir_name()),
{
    let mut r = repo_git_dir.clone();
    r.push("x-tig-info".to_owned());
    r
}

/// The manager of the tool's sidecar directory. Its one field is the resolved
/// sidecar path, always a direct child of the `.git` directory whose
/// existence was checked at construction.
#[derive(Debug)]
pub struct TigManager {
    tig_dir: AbsPath,
}

impl View for TigManager {
    type V = Seq<Seq<char>>;

    closed spec fn view(&self) -> Seq<Seq<char>> {
        self.tig_dir@
    }
}

impl TigManager {
    /// Builds the manager for the repository whose `.git` directory the
    /// locator found. The caller reports whether that directory still exists
    /// and whether the sidecar path (as `sidecar_path` computes it) already
    /// exists; the result follows `sidecar_outcome`: a manager holding the
    /// sidecar path together with the one disk action the caller must
    /// perform, or a failure that creates nothing.
    pub fn new(repo_git_dir: &AbsPath, git_dir_exists: bool, sidecar_exists: bool) -> (r: Result<
        (TigManager, SidecarAction),
        SidecarError,
    >)
        ensures
            ({
                let model = sidecar_outcome(repo_git_dir@, git_dir_exists, sidecar_exists);
                match r {
                    Ok((m, action)) => model == Ok::<_, SidecarError>((m@, action)),
                    Err(e) => model == Err::<(Seq<Seq<char>>, SidecarAction), _>(e),
                }
            }),
    {
        if !git_dir_exists {
            return Err(SidecarError::GitDirMissing);
        }
        let tig_dir = sidecar_path(repo_git_dir);
        let action = if sidecar_exists {
            SidecarAction::ReuseExisting
        } else {
            SidecarAction::CreateDirectory
        };
        Ok((TigManager { tig_dir }, action))
    }

    /// The resolved path of the sidecar directory.
    pub fn tig_dir(&self) -> (r: &AbsPath)
        ensures
            r@ == self@,
    {
        &self.tig_dir
    }
}

/// Law: provisioning is idempotent. Over the same existing `.git` directory,
/// a first run (no sidecar yet) creates the sidecar directory and a second
/// run (sidecar now present) succeeds with the very same path while altering
/// nothing: its action is to reuse the existing directory.
pub proof fn lemma_sidecar_idempotent(git_dir: Seq<Seq<char>>)
    ensures
        ({
            let first = sidecar_outcome(git_dir, true, false);
            let second = sidecar_outcome(git_dir, true, true);
            &&& first is Ok
            &&& second is Ok
            &&& first->Ok_0.0 == second->Ok_0.0
            &&& first->Ok_0.1 == SidecarAction::CreateDirectory
            &&& second->Ok_0.1 == SidecarAction::ReuseExisting
        }),
{
}

/// Law: construction over a missing `.git` directory fails, whatever the
/// reported state of the sidecar path, so no action is ever handed out and
/// nothing is created.
pub proof fn lemma_sidecar_missing_git_fails(git_dir: Seq<Seq<char>>, sidecar_exists: bool)
    ensures
        sidecar_outcome(git_dir, false, sidecar_exists) == Err::<
            (Seq<Seq<char>>, SidecarAction),
            _,
        >(SidecarError::GitDirMissing),
{
}

} // verus!
