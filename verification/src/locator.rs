//! Git availability probe and upward search for the repository's `.git` entry.
//!
//! The tool's bootstrap runs two steps in order: probe the git installation by
//! running a version query, then walk the directory tree upward from the
//! working directory until a directory holds an entry named `.git`. This
//! module holds the decision logic of both steps over plain values: the probe
//! outcome is classified from whether the process could be spawned and whether
//! it reported success, and the search runs over directory listings that the
//! caller reads. The filesystem root itself is never searched, so a start at
//! the root fails at once.

use vstd::prelude::*;

use crate::abs_path::AbsPath;
use crate::abs_path::names_seq;

verus! {

/// The entry name whose presence marks a repository's metadata directory.
pub open spec fn git_name() -> Seq<char> {
    ".git"@
}

/// Why the bootstrap failed. The four kinds are terminal: nothing is retried.
#[derive(Debug, Clone, Copy, PartialEq, Eq, Structural)]
pub enum InitializationError {
    /// The git executable could not be spawned at all.
    GitNotInstalled,
    /// The git executable ran but its version query exited with failure.
    GitValidation,
    /// An I/O error interrupted the walk up the directory tree.
    RepositoryUnsearchable,
    /// The walk reached the filesystem root without finding a `.git` entry.
    RepositoryNotFound,
}

impl InitializationError {
    /// The one-line description of the failure, as the tool prints it.
    pub fn message(&self) -> (r: String)
        ensures
            *self == InitializationError::GitNotInstalled ==> r@ == "git is not installed"@,
            *self == InitializationError::GitValidation ==> r@
                == "could not validate git installation; version check failed"@,
            *self == InitializationError::RepositoryUnsearchable ==> r@
                == "io error searching for git directory"@,
            *self == InitializationError::RepositoryNotFound ==> r@
                == "git directory not found"@,
    {
        match self {
            InitializationError::GitNotInstalled => "git is not installed".to_owned(),
            InitializationError::GitValidation => {
                "could not validate git installation; version check failed".to_owned()
            },
            InitializationError::RepositoryUnsearchable => {
                "io error searching for git directory".to_owned()
            },
            InitializationError::RepositoryNotFound => "git directory not found".to_owned(),
        }
    }
}

/// The decision of the git availability probe: `spawned` tells whether the
/// version-query process could be started at all, `exit_success` whether it
/// exited successfully. A process that could not be spawned means git is not
/// installed; one that ran and failed means the installation could not be
/// validated; only a successful run lets the search begin.
pub open spec fn git_probe_outcome(spawned: bool, exit_success: bool) -> Result<
    (),
    InitializationError,
> {
    if !spawned {
        Err(InitializationError::GitNotInstalled)
    } else if !exit_success {
        Err(InitializationError::GitValidation)
    } else {
        Ok(())
    }
}

/// Classifies the outcome of the `git --version` probe that the caller ran.
pub fn classify_git_probe(spawned: bool, exit_success: bool) -> (r: Result<
    (),
    InitializationError,
>)
    ensures
        r == git_probe_outcome(spawned, exit_success),
{
    if !spawned {
        Err(InitializationError::GitNotInstalled)
    } else if !exit_success {
        Err(InitializationError::GitValidation)
    } else {
        Ok(())
    }
}

/// Whether `q` is the path of `p` itself or of one of its ancestors: a prefix
/// of `p`'s components.
pub open spec fn is_ancestor_or_self(q: Seq<Seq<char>>, p: Seq<Seq<char>>) -> bool {
    q.len() <= p.len() && q == p.take(q.len() as int)
}

/// The model of the upward search over a snapshot of directory listings:
/// `fs` maps a directory's path to the set of entry names it holds. Starting
/// at `p`, the nearest directory at or above `p` holding an entry named
/// `.git` wins, and the result is that entry's full path; the filesystem root
/// itself is never searched, so reaching it means no repository was found.
pub open spec fn locate_from(
    p: Seq<Seq<char>>,
    fs: Map<Seq<Seq<char>>, Set<Seq<char>>>,
) -> Option<Seq<Seq<char>>>
    decreases p.len(),
{
    if p.len() == 0 {
        None
    } else if fs[p].contains(git_name()) {
        Some(p.push(git_name()))
    } else {
        locate_from(p.drop_last(), fs)
    }
}

/// The snapshot of directory listings that a vector of listings describes for
/// a search starting at `start`: `listings[k]` holds the entry names of the
/// directory reached after `k` ascents, so the directory whose path keeps the
/// first `m` components of `start` is listed at index `start.len() - m`.
pub open spec fn fs_of_listings(start: Seq<Seq<char>>, listings: Seq<Vec<String>>) -> Map<
    Seq<Seq<char>>,
    Set<Seq<char>>,
> {
    Map::new(
        |d: Seq<Seq<char>>| 1 <= d.len() <= start.len() && d == start.take(d.len() as int),
        |d: Seq<Seq<char>>| Set::new(|n: Seq<char>| names_seq(listings[start.len() - d.len()]@).contains(n)),
    )
}

/// Whether the listing holds an entry named exactly `.git`.
pub fn contains_git_entry(entries: &Vec<String>) -> (r: bool)
    ensures
        r == names_seq(entries@).contains(git_name()),
{
    let needle: String = ".git".to_owned();
    let mut i: usize = 0;
    while i < entries.len()
        invariant
            i <= entries.len(),
            needle@ == git_name(),
            forall|j: int| 0 <= j < i ==> #[trigger] entries@[j]@ != git_name(),
        decreases entries.len() - i,
    {
        if entries[i].eq(&needle) {
            proof {
                assert(names_seq(entries@)[i as int] == git_name());
            }
            return true;
        }
        i = i + 1;
    }
    proof {
        assert forall|j: int| 0 <= j < names_seq(entries@).len() implies names_seq(entries@)[j]
            != git_name() by {
            assert(entries@[j]@ != git_name());
        }
    }
    false
}

/// The full path of the `.git` entry found inside the given directory.
pub fn git_entry_path(dir: AbsPath) -> (r: AbsPath)
    ensures
        r@ == dir@.push(git_name()),
{
    let mut r = dir;
    r.push(".git".to_owned());
    r
}

/// Searches upward from `start` for a directory holding a `.git` entry, over
/// the given snapshot of listings: `listings[k]` must hold the entry names of
/// the directory reached after `k` ascents from `start`, one listing per
/// searched directory (the filesystem root is not searched and needs none).
/// Returns the `.git` entry path of the nearest such directory, or reports
/// that no repository was found.
pub fn locate_repository_root(start: AbsPath, listings: &Vec<Vec<String>>) -> (r: Result<
    AbsPath,
    InitializationError,
>)
    requires
        listings@.len() == start@.len(),
    ensures
        ({
            let model = locate_from(start@, fs_of_listings(start@, listings@));
            match r {
                Ok(root) => model == Some(root@),
                Err(e) => model is None && e == InitializationError::RepositoryNotFound,
            }
        }),
{
    let ghost fs = fs_of_listings(start@, listings@);
    let n = start.depth();
    let mut cur = start;
    let mut k: usize = 0;
    while k < n
        invariant
            n == start@.len(),
            n == listings@.len(),
            k <= n,
            cur@ == start@.take(n - k),
            fs == fs_of_listings(start@, listings@),
            locate_from(cur@, fs) == locate_from(start@, fs),
        decreases n - k,
    {
        proof {
            assert(cur@.len() == n - k);
            assert(fs.dom().contains(cur@));
            assert(fs[cur@] == Set::new(
                |name: Seq<char>| names_seq(listings@[k as int]@).contains(name),
            ));
        }
        if contains_git_entry(&listings[k]) {
            proof {
                assert(fs[cur@].contains(git_name()));
                assert(locate_from(cur@, fs) == Some(cur@.push(git_name())));
            }
            return Ok(git_entry_path(cur));
        }
        proof {
            assert(!fs[cur@].contains(git_name()));
            assert(locate_from(cur@, fs) == locate_from(cur@.drop_last(), fs));
        }
        cur.pop();
        k = k + 1;
        proof {
            assert(cur@ =~= start@.take(n - k));
        }
    }
    proof {
        assert(cur@.len() == 0);
        assert(locate_from(cur@, fs) is None);
    }
    Err(InitializationError::RepositoryNotFound)
}

/// The complete bootstrap decision: the probe outcome is consulted first, and
/// only when the probe passes does the directory search run. A search that
/// finds no `.git` entry reports that the repository was not found.
pub open spec fn bootstrap_outcome(
    spawned: bool,
    exit_success: bool,
    start: Seq<Seq<char>>,
    fs: Map<Seq<Seq<char>>, Set<Seq<char>>>,
) -> Result<Seq<Seq<char>>, InitializationError> {
    match git_probe_outcome(spawned, exit_success) {
        Err(e) => Err(e),
        Ok(()) => match locate_from(start, fs) {
            Some(root) => Ok(root),
            None => Err(InitializationError::RepositoryNotFound),
        },
    }
}

/// Validates the git installation from the caller's probe of `git --version`,
/// then searches upward from `start` over the given snapshot of listings (see
/// `locate_repository_root`) for the enclosing repository's `.git` entry.
pub fn git_validate_status(
    spawned: bool,
    exit_success: bool,
    start: AbsPath,
    listings: &Vec<Vec<String>>,
) -> (r: Result<AbsPath, InitializationError>)
    requires
        listings@.len() == start@.len(),
    ensures
        ({
            let model = bootstrap_outcome(
                spawned,
                exit_success,
                start@,
                fs_of_listings(start@, listings@),
            );
            match r {
                Ok(root) => model == Ok::<_, InitializationError>(root@),
                Err(e) => model == Err::<Seq<Seq<char>>, _>(e),
            }
        }),
{
    match classify_git_probe(spawned, exit_success) {
        Err(e) => Err(e),
        Ok(()) => locate_repository_root(start, listings),
    }
}

/// Law: whenever some directory at or above the start (other than the
/// filesystem root itself) holds a `.git` entry, the search succeeds and
/// returns the `.git` entry of the nearest such directory: the one it names
/// keeps at least as many components of the start as any qualifying
/// directory, so no more distant ancestor's entry is ever returned.
pub proof fn lemma_locator_finds_nearest(
    p: Seq<Seq<char>>,
    fs: Map<Seq<Seq<char>>, Set<Seq<char>>>,
    q: Seq<Seq<char>>,
)
    requires
        is_ancestor_or_self(q, p),
        q.len() > 0,
        fs[q].contains(git_name()),
    ensures
        locate_from(p, fs) is Some,
        ({
            let dir = locate_from(p, fs)->Some_0.drop_last();
            &&& locate_from(p, fs)->Some_0 == dir.push(git_name())
            &&& is_ancestor_or_self(dir, p)
            &&& dir.len() > 0
            &&& fs[dir].contains(git_name())
            &&& dir.len() >= q.len()
        }),
    decreases p.len(),
{
    if fs[p].contains(git_name()) {
        assert(p.push(git_name()).drop_last() =~= p);
        assert(p.take(p.len() as int) =~= p);
    } else {
        if q.len() == p.len() {
            assert(q =~= p);
            assert(false);
        }
        assert(p.drop_last().take(q.len() as int) =~= p.take(q.len() as int));
        lemma_locator_finds_nearest(p.drop_last(), fs, q);
        let dir = locate_from(p.drop_last(), fs)->Some_0.drop_last();
        assert(p.take(dir.len() as int) =~= p.drop_last().take(dir.len() as int));
    }
}

/// Law: when no directory from the start up to (but not including) the
/// filesystem root holds a `.git` entry, the search finds nothing, and the
/// bootstrap therefore reports that the repository was not found.
pub proof fn lemma_locator_exhausts(p: Seq<Seq<char>>, fs: Map<Seq<Seq<char>>, Set<Seq<char>>>)
    requires
        forall|q: Seq<Seq<char>>|
            is_ancestor_or_self(q, p) && q.len() > 0 ==> !(#[trigger] fs[q]).contains(git_name()),
    ensures
        locate_from(p, fs) is None,
        bootstrap_outcome(true, true, p, fs) == Err::<Seq<Seq<char>>, _>(
            InitializationError::RepositoryNotFound,
        ),
    decreases p.len(),
{
    if p.len() == 0 {
    } else {
        assert(p.take(p.len() as int) =~= p);
        assert(is_ancestor_or_self(p, p));
        assert(!fs[p].contains(git_name()));
        assert forall|q: Seq<Seq<char>>|
            is_ancestor_or_self(q, p.drop_last()) && q.len() > 0 implies !(#[trigger] fs[q]).contains(
            git_name(),
        ) by {
            assert(p.take(q.len() as int) =~= p.drop_last().take(q.len() as int));
            assert(is_ancestor_or_self(q, p));
        }
        lemma_locator_exhausts(p.drop_last(), fs);
    }
}

/// Law: when the git executable cannot be spawned, the bootstrap fails with
/// the not-installed kind whatever the reported exit status, and the outcome
/// does not depend on the filesystem at all: no directory search takes part
/// in the decision.
pub proof fn lemma_probe_failure_precedes_search(
    exit_success: bool,
    start: Seq<Seq<char>>,
    fs: Map<Seq<Seq<char>>, Set<Seq<char>>>,
)
    ensures
        bootstrap_outcome(false, exit_success, start, fs) == Err::<Seq<Seq<char>>, _>(
            InitializationError::GitNotInstalled,
        ),
{
}

} // verus!
