//! Pinning of the `emacs-git` package to one upstream commit.
//!
//! The library holds every decision of the pinning tool: which commit
//! strings are acceptable, where the three cache files live and what is
//! written to them, which commands are handed to the package manager and how
//! their output is read, and what each of the user-facing operations prints
//! and returns. It does no input or output of its own. An operation runs
//! against a [`session::Session`], a record of what the outside world has
//! answered so far, and stops with a pending [`session::Request`] when it
//! needs an answer that is not on record yet; the caller performs the
//! request, adds it with its reply to the record, and runs the operation
//! again.
//!
//! Every function that takes a session returns `None` when the session has
//! stopped, and otherwise what it has come to. What a function does to the
//! session, and what it returns, is stated by the function of the same name
//! on [`session::SessionView`].

pub mod text;

pub mod commit;

pub mod error;

pub mod session;

pub mod paths;

pub mod emoji;

pub mod evaluator;

pub mod config;

pub mod cache;

pub mod store;

pub mod prefetch;

pub mod host;

pub mod pin;

pub mod unpin;

pub mod diff;

pub mod status;

pub mod command;

pub use cache::{ensure_cache_dir, read_cache_file, write_cache_file};
pub use commit::validate_commit_format;
pub use config::resolve_config_path;
pub use emoji::{
    EMOJI_CHART, EMOJI_ERROR, EMOJI_INFO, EMOJI_KEY, EMOJI_LIGHTBULB, EMOJI_LINK, EMOJI_PACKAGE,
    EMOJI_PIN, EMOJI_SEARCH, EMOJI_SUCCESS, EMOJI_UNLOCK, EMOJI_WARNING,
};
pub use error::EmacsError;
pub use evaluator::{
    extract_configured_emacs_outpath, extract_current_emacs_commit,
    extract_current_emacs_hash_sri, extract_current_emacs_src_outpath, resolve_store_path,
    sri_from_base32,
};
pub use host::{get_hostname, get_system_architecture};
pub use paths::{cache_dir, hash_file, pin_file, store_path_file};
pub use prefetch::fetch_hash_for_commit;
