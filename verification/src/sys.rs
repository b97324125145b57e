//! Trusted boundary to the host system: the XDG base-directory lookup, the
//! process's user id, and single `mkdir(2)` calls. Everything here depends on
//! the process environment or the filesystem, so no contract promises a
//! particular outcome; the verified code in `paths` states what holds of
//! whatever comes back.

use vstd::prelude::*;

verus! {

/// The opaque handle of the `xdg` crate that caches the base directories read
/// from the environment.
#[verifier::external_type_specification]
#[verifier::external_body]
pub struct ExBaseDirectories(xdg::BaseDirectories);

/// What one `mkdir(2)` call did. An entry that was already present is
/// reported apart from other failures so that callers can treat it as
/// success: directory creation is meant to be idempotent.
pub enum MkdirStatus {
    Created,
    AlreadyExists,
    Failed(String),
}

/// Relies on `xdg::BaseDirectories::with_prefix`: reads `HOME` and the
/// `XDG_*` environment variables once and returns a lookup handle with
/// `prefix` appended to every user directory. It never fails; the outcome
/// depends on the environment, so nothing is assumed of it.
#[verifier::external_body]
pub(crate) fn base_directories(prefix: &str) -> xdg::BaseDirectories {
    xdg::BaseDirectories::with_prefix(prefix)
}

/// Relies on `xdg::BaseDirectories::get_config_home`: the configuration home
/// (from `XDG_CONFIG_HOME`, or `$HOME/.config`) with the prefix appended, or
/// `None` when no home directory could be determined. The environment decides
/// the value, so nothing is assumed of it.
#[verifier::external_body]
pub(crate) fn config_home(bd: &xdg::BaseDirectories) -> Option<String> {
    bd.get_config_home().map(|p| p.to_string_lossy().into_owned())
}

/// Relies on `xdg::BaseDirectories::get_cache_home`: the cache home (from
/// `XDG_CACHE_HOME`, or `$HOME/.cache`) with the prefix appended, or `None`
/// when no home directory could be determined. The environment decides the
/// value, so nothing is assumed of it.
#[verifier::external_body]
pub(crate) fn cache_home(bd: &xdg::BaseDirectories) -> Option<String> {
    bd.get_cache_home().map(|p| p.to_string_lossy().into_owned())
}

/// Relies on `nix::unistd::getuid`: the process's real user id, which POSIX
/// guarantees cannot fail. The id depends on the process, so nothing is
/// assumed of the value.
#[verifier::external_body]
pub(crate) fn current_uid() -> u32 {
    nix::unistd::getuid().as_raw()
}

/// Relies on `nix::unistd::mkdir`: one `mkdir(2)` call on `path` with the
/// permission bits `mode`. `EEXIST` is reported as `AlreadyExists`; any other
/// error becomes `Failed` with the system's description. The filesystem
/// decides the outcome, so nothing is assumed of it.
#[verifier::external_body]
pub(crate) fn mkdir_once(path: &str, mode: u32) -> MkdirStatus {
    match nix::unistd::mkdir(path, nix::sys::stat::Mode::from_bits_truncate(mode)) {
        Ok(()) => MkdirStatus::Created,
        Err(nix::errno::Errno::EEXIST) => MkdirStatus::AlreadyExists,
        Err(e) => MkdirStatus::Failed(format!("{}", e)),
    }
}

} // verus!
