//! Discovery of Python interpreter installations, manager by manager:
//! plain `PATH` installs, pyenv, conda, virtualenv, virtualenvwrapper,
//! pipenv and the Windows app store. Each locator turns probed
//! filesystem facts, handed in as plain values, into normalized
//! environment records; a dispatcher deduplicates the records by
//! executable path and serializes them as framed JSON-RPC messages.
//! Every contract here is verified; reading the host's environment and
//! filesystem is the caller's part.

pub mod common_python;
pub mod conda;
pub mod global_virtualenvs;
pub mod json;
pub mod known;
pub mod messaging;
pub mod pipenv;
pub mod pyenv;
pub mod strutil;
pub mod virtualenv;
pub mod virtualenvwrapper;
pub mod windows_python;
