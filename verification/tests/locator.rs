use tig::abs_path::AbsPath;
use tig::locator::classify_git_probe;
use tig::locator::contains_git_entry;
use tig::locator::git_entry_path;
use tig::locator::git_validate_status;
use tig::locator::locate_repository_root;
use tig::locator::InitializationError;

fn path(parts: &[&str]) -> AbsPath {
    AbsPath::from_components(parts.iter().map(|s| s.to_string()).collect())
}

fn listing(names: &[&str]) -> Vec<String> {
    names.iter().map(|s| s.to_string()).collect()
}

#[test]
fn probe_missing_git_fails_not_installed() {
    assert_eq!(
        classify_git_probe(false, false),
        Err(InitializationError::GitNotInstalled)
    );
    assert_eq!(
        classify_git_probe(false, true),
        Err(InitializationError::GitNotInstalled)
    );
}

#[test]
fn probe_failing_exit_fails_validation() {
    assert_eq!(
        classify_git_probe(true, false),
        Err(InitializationError::GitValidation)
    );
}

#[test]
fn probe_success_passes() {
    assert_eq!(classify_git_probe(true, true), Ok(()));
}

#[test]
fn error_messages_match_the_tool_output() {
    assert_eq!(
        InitializationError::GitNotInstalled.message(),
        "git is not installed"
    );
    assert_eq!(
        InitializationError::GitValidation.message(),
        "could not validate git installation; version check failed"
    );
    assert_eq!(
        InitializationError::RepositoryUnsearchable.message(),
        "io error searching for git directory"
    );
    assert_eq!(
        InitializationError::RepositoryNotFound.message(),
        "git directory not found"
    );
}

#[test]
fn listing_with_git_entry_is_found() {
    assert!(contains_git_entry(&listing(&["src", ".git", "README.md"])));
}

#[test]
fn listing_without_git_entry_is_not_found() {
    assert!(!contains_git_entry(&listing(&[])));
    assert!(!contains_git_entry(&listing(&["src", "README.md"])));
    // Only an entry named exactly `.git` counts.
    assert!(!contains_git_entry(&listing(&[".gitignore", "git", ".Git"])));
}

#[test]
fn git_entry_path_appends_the_entry_name() {
    let p = git_entry_path(path(&["home", "user", "project"]));
    assert_eq!(
        p.components(),
        &listing(&["home", "user", "project", ".git"])
    );
}

#[test]
fn locator_scenario_project_src() {
    // Working directory /home/user/project/src; /home/user/project/.git exists.
    let start = path(&["home", "user", "project", "src"]);
    let listings = vec![
        listing(&["main.rs"]),                  // /home/user/project/src
        listing(&["src", ".git", "Cargo.toml"]), // /home/user/project
        listing(&["project"]),                  // /home/user
        listing(&["user"]),                     // /home
    ];
    let root = locate_repository_root(start, &listings).unwrap();
    assert_eq!(
        root.components(),
        &listing(&["home", "user", "project", ".git"])
    );
}

#[test]
fn locator_scenario_no_git_anywhere() {
    // Working directory /tmp/empty; no ancestor holds a `.git` entry.
    let start = path(&["tmp", "empty"]);
    let listings = vec![listing(&["scratch.txt"]), listing(&["empty", "log"])];
    assert_eq!(
        locate_repository_root(start, &listings),
        Err(InitializationError::RepositoryNotFound)
    );
}

#[test]
fn locator_returns_nearest_git_entry() {
    // `.git` exists at /a/b and at /a: the nearest one, /a/b/.git, wins.
    let start = path(&["a", "b", "c"]);
    let listings = vec![
        listing(&["notes"]),       // /a/b/c
        listing(&[".git", "c"]),   // /a/b
        listing(&[".git", "b"]),   // /a
    ];
    let root = locate_repository_root(start, &listings).unwrap();
    assert_eq!(root.components(), &listing(&["a", "b", ".git"]));
}

#[test]
fn locator_finds_git_in_start_directory() {
    let start = path(&["repo"]);
    let listings = vec![listing(&[".git"])];
    let root = locate_repository_root(start, &listings).unwrap();
    assert_eq!(root.components(), &listing(&["repo", ".git"]));
}

#[test]
fn locator_never_searches_the_root() {
    // A start at the filesystem root has no searched directory at all.
    let start = AbsPath::root();
    let listings: Vec<Vec<String>> = vec![];
    assert_eq!(
        locate_repository_root(start, &listings),
        Err(InitializationError::RepositoryNotFound)
    );
}

#[test]
fn bootstrap_fails_not_installed_before_any_search() {
    // Even with a `.git` entry right in the start directory, a probe that
    // could not spawn git fails with the not-installed kind.
    let start = path(&["repo"]);
    let listings = vec![listing(&[".git"])];
    assert_eq!(
        git_validate_status(false, true, start, &listings),
        Err(InitializationError::GitNotInstalled)
    );
}

#[test]
fn bootstrap_fails_validation_on_nonzero_exit() {
    let start = path(&["repo"]);
    let listings = vec![listing(&[".git"])];
    assert_eq!(
        git_validate_status(true, false, start, &listings),
        Err(InitializationError::GitValidation)
    );
}

#[test]
fn bootstrap_searches_after_successful_probe() {
    let start = path(&["home", "user", "project", "src"]);
    let listings = vec![
        listing(&["main.rs"]),
        listing(&["src", ".git"]),
        listing(&["project"]),
        listing(&["user"]),
    ];
    let root = git_validate_status(true, true, start, &listings).unwrap();
    assert_eq!(
        root.components(),
        &listing(&["home", "user", "project", ".git"])
    );
}
