//! Dependency listing from a project manifest, and the decisions around a
//! dependency install.

use vstd::prelude::*;
use vstd::string::*;
use crate::error::BundleError;
use crate::text::{chars_of, contains_chars, occurs_in};

verus! {

/// The known packages that the raw manifest text `m` mentions, in a fixed
/// order; any `symfony/` package is reported as `symfony/console`.
pub open spec fn known_dependencies(m: Seq<char>) -> Seq<Seq<char>> {
    let a = if occurs_in(m, "laravel/framework"@) { seq!["laravel/framework"@] } else { Seq::empty() };
    let b = if occurs_in(m, "guzzlehttp/guzzle"@) { seq!["guzzlehttp/guzzle"@] } else { Seq::empty() };
    let c = if occurs_in(m, "symfony/"@) { seq!["symfony/console"@] } else { Seq::empty() };
    a + b + c
}

/// The known packages that a manifest mentions; none when there is no
/// manifest.
pub fn get_project_dependencies(manifest: &Option<String>) -> (r: Vec<String>)
    ensures
        r@.map_values(|s: String| s@) == match manifest {
            Some(m) => known_dependencies(m@),
            None => Seq::<Seq<char>>::empty(),
        },
{
    let mut r: Vec<String> = Vec::new();
    match manifest {
        None => {
            assert(r@.map_values(|s: String| s@) =~= Seq::<Seq<char>>::empty());
            r
        },
        Some(m) => {
            let text = chars_of(m.as_str());
            let laravel = chars_of("laravel/framework");
            let guzzle = chars_of("guzzlehttp/guzzle");
            let symfony = chars_of("symfony/");
            if contains_chars(&text, &laravel) {
                r.push(String::from_str("laravel/framework"));
            }
            if contains_chars(&text, &guzzle) {
                r.push(String::from_str("guzzlehttp/guzzle"));
            }
            if contains_chars(&text, &symfony) {
                r.push(String::from_str("symfony/console"));
            }
            assert(r@.map_values(|s: String| s@) =~= known_dependencies(m@));
            r
        },
    }
}

/// The package manager's arguments for an install without development
/// packages and with an optimised autoloader.
pub fn install_args() -> (r: Vec<String>)
    ensures
        r@.map_values(|s: String| s@) == seq!["install"@, "--no-dev"@, "--optimize-autoloader"@],
{
    let mut r: Vec<String> = Vec::new();
    r.push(String::from_str("install"));
    r.push(String::from_str("--no-dev"));
    r.push(String::from_str("--optimize-autoloader"));
    assert(r@.map_values(|s: String| s@) =~= seq!["install"@, "--no-dev"@, "--optimize-autoloader"@]);
    r
}

/// The checks made before an install: the project needs a manifest and the
/// package manager must answer its version probe.
pub fn check_install(manifest_exists: bool, tool_available: bool) -> (r: Result<(), BundleError>)
    ensures
        r == if !manifest_exists {
            Err(BundleError::InvalidPath)
        } else if !tool_available {
            Err(BundleError::ToolUnavailable)
        } else {
            Ok::<(), BundleError>(())
        },
{
    if !manifest_exists {
        Err(BundleError::InvalidPath)
    } else if !tool_available {
        Err(BundleError::ToolUnavailable)
    } else {
        Ok(())
    }
}

/// The outcome of an install run: success on a zero exit, otherwise the
/// diagnostic text that the run produced (or why it could not run).
pub fn install_outcome(run: Result<(bool, String), String>) -> (r: Result<(), BundleError>)
    ensures
        r == match run {
            Ok((true, _)) => Ok::<(), BundleError>(()),
            Ok((false, stderr)) => Err(BundleError::InstallFailed(stderr)),
            Err(msg) => Err(BundleError::InstallFailed(msg)),
        },
{
    match run {
        Ok((success, stderr)) => if success {
            Ok(())
        } else {
            Err(BundleError::InstallFailed(stderr))
        },
        Err(msg) => Err(BundleError::InstallFailed(msg)),
    }
}

} // verus!
