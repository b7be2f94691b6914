//! Pinning: to the commit that the overlay provides now, or to a commit
//! that the user names.

use crate::cache::{
    file_text, lemma_read_looks, lemma_write_follows_plan, lemma_write_keeps,
    lemma_written_text_reads_back, read_cache_file, write_cache_file, write_plan,
};
use crate::commit::{is_commit_format, validate_commit_format};
use crate::config::{lemma_config_path_looks, resolve_config_path};
use crate::emoji::{
    EMOJI_ERROR, EMOJI_INFO, EMOJI_KEY, EMOJI_LIGHTBULB, EMOJI_PACKAGE, EMOJI_PIN, EMOJI_SUCCESS,
    EMOJI_WARNING,
};
use crate::evaluator::{
    eval_invocation, extract_configured_emacs_outpath, extract_current_emacs_commit,
    extract_current_emacs_hash_sri, lemma_evaluator_looks, lemma_hash_query_looks,
    overlay_expression, package_expression, resolve_store_path,
};
use crate::host::{get_hostname, get_system_architecture, lemma_hostname_looks, system_of};
use crate::paths::{joined, CacheFile};
use crate::prefetch::{fetch_hash_for_commit, lemma_fetch_looks};
use crate::session::{
    is_change, lemma_ask_continues, lemma_kept_chain, lemma_looked_chain, lemma_looked_is_kept,
    CompletionView, ExchangeView, Phase, ReplyView, Request, RequestView, Session, SessionView,
};
use crate::store::{
    lemma_performed_in_a_row, lemma_write_leaves_other_files, lemma_write_then_read, performed_all,
};
use crate::text::{
    lemma_trimmed_twice, same_text, text2, text3, text4, trimmed, utf8_lossy,
};
use vstd::prelude::*;
use vstd::string::*;

verus! {

impl SessionView {
    /// The session after the attempt to find the configured Emacs that is
    /// already built: its resolved store path if the evaluator names one and
    /// it exists, else `None`. A failure of the evaluator is not reported.
    pub open spec fn capture_out_path(self, config_path: Seq<char>, system: Seq<char>) -> (
        SessionView,
        Option<Option<Seq<char>>>,
    ) {
        let (named, hostname) = self.get_hostname();
        match hostname {
            None => (named, None),
            Some(hostname) => {
                let (queried, path) = named.extract_configured_emacs_outpath(
                    config_path,
                    hostname,
                    system,
                );
                match path {
                    None => (queried, None),
                    Some(Err(_)) => (queried, Some(None)),
                    Some(Ok(path)) => {
                        let (resolved, target) = queried.resolve_store_path(path);
                        match target {
                            None => (resolved, None),
                            Some(target) => {
                                let (checked, exists) = resolved.ask_flag(
                                    RequestView::PathExists { path: target },
                                );
                                match exists {
                                    None => (checked, None),
                                    Some(true) => (checked, Some(Some(target))),
                                    Some(false) => (checked, Some(None)),
                                }
                            },
                        }
                    },
                }
            },
        }
    }

    /// The session after the built path was saved, or after the note that
    /// there is none to save (which only a pin to the current commit
    /// prints). A failure to save it is a warning.
    pub open spec fn save_out_path(self, out_path: Option<Seq<char>>, to_current: bool) -> (
        SessionView,
        Option<()>,
    ) {
        match out_path {
            Some(path) => {
                let (written, saved) = self.write_cache_file(CacheFile::StorePath, path);
                match saved {
                    None => (written, None),
                    Some(Err(e)) => (
                        written.complain(
                            EMOJI_WARNING@ + " Warning: Failed to save store path: "@ + e,
                        ),
                        Some(()),
                    ),
                    Some(Ok(_)) => (
                        written.say(EMOJI_PACKAGE@ + " Saved built path: "@ + path),
                        Some(()),
                    ),
                }
            },
            None => if to_current {
                (
                    self.say(
                        EMOJI_INFO@
                            + " Could not resolve an existing configuredEmacs outPath at pin time (will build if needed)"@,
                    ),
                    Some(()),
                )
            } else {
                (self, Some(()))
            },
        }
    }

    /// The session after the pin was written, and the exit code: the
    /// commit, then the hash, then the built path if there is one. A failure
    /// to write the commit or the hash ends the operation with code 1; what
    /// was written before stays.
    pub open spec fn store_pin(
        self,
        commit: Seq<char>,
        hash: Seq<char>,
        out_path: Option<Seq<char>>,
        to_current: bool,
    ) -> (SessionView, Option<i32>) {
        let (pinned, pin_written) = self.write_cache_file(CacheFile::Pin, commit);
        match pin_written {
            None => (pinned, None),
            Some(Err(e)) => (
                pinned.complain(EMOJI_ERROR@ + " Failed to write pin file: "@ + e),
                Some(1),
            ),
            Some(Ok(_)) => {
                let (hashed, hash_written) = pinned.write_cache_file(CacheFile::Hash, hash);
                match hash_written {
                    None => (hashed, None),
                    Some(Err(e)) => (
                        hashed.complain(EMOJI_ERROR@ + " Failed to write hash file: "@ + e),
                        Some(1),
                    ),
                    Some(Ok(_)) => {
                        let told = hashed.say(
                            EMOJI_PIN@ + (if to_current {
                                " Pinned emacs-git to current commit: "@
                            } else {
                                " Pinned emacs-git to commit: "@
                            }) + commit,
                        ).say(EMOJI_KEY@ + " Stored hash (SRI): "@ + hash);
                        let (saved, done) = told.save_out_path(out_path, to_current);
                        match done {
                            None => (saved, None),
                            Some(_) => (
                                saved.say(
                                    EMOJI_LIGHTBULB@ + " Rebuild your configuration: nb && ns"@,
                                ),
                                Some(0),
                            ),
                        }
                    },
                }
            },
        }
    }

    /// The session after the lines that say that the current commit could
    /// not be determined.
    pub open spec fn complain_no_commit(self, e: Seq<char>) -> SessionView {
        self.complain(
            EMOJI_ERROR@ + " Could not extract current emacs-git commit from configuration"@,
        ).complain("   Error: "@ + e).complain(
            "   Please specify a commit hash manually: emacs-pin pin <commit-hash>"@,
        ).complain(
            "   You can find commits at: https://github.com/emacs-mirror/emacs/commits/master"@,
        ).complain("   Example: emacs-pin pin abc123def456"@)
    }

    /// The session after a pin to the commit `commit` that the overlay
    /// provides, from the point where that commit is known. If the pin file
    /// holds this commit already, nothing is written.
    pub open spec fn pin_current_commit(
        self,
        config_path: Seq<char>,
        system: Seq<char>,
        commit: Seq<char>,
    ) -> (SessionView, Option<i32>) {
        let (read, existing) = self.read_cache_file(CacheFile::Pin);
        match existing {
            None => (read, None),
            Some(existing) => if existing == Some(commit) {
                (
                    read.say(
                        EMOJI_INFO@ + " Already pinned to current overlay commit: "@ + commit,
                    ).say(
                        EMOJI_LIGHTBULB@
                            + " No rebuild necessary - configuration already matches pin"@,
                    ),
                    Some(0),
                )
            } else {
                let (fetched, hash) = read.say(
                    EMOJI_LIGHTBULB@ + " Extracting hash for current commit..."@,
                ).extract_current_emacs_hash_sri(config_path, system);
                match hash {
                    None => (fetched, None),
                    Some(Err(e)) => (
                        fetched.complain(EMOJI_ERROR@ + " Failed to extract hash: "@ + e),
                        Some(1),
                    ),
                    Some(Ok(hash)) => {
                        let (captured, out_path) = fetched.say(
                            EMOJI_SUCCESS@ + " Found current hash: "@ + hash,
                        ).capture_out_path(config_path, system);
                        match out_path {
                            None => (captured, None),
                            Some(out_path) => captured.store_pin(commit, hash, out_path, true),
                        }
                    },
                }
            },
        }
    }

    /// The session after a pin to the commit that the overlay provides now,
    /// and the exit code.
    pub open spec fn pin_to_current_overlay(self) -> (SessionView, Option<i32>) {
        let (resolved, config) = self.say(
            EMOJI_LIGHTBULB@
                + " No commit hash provided. Extracting from current emacs overlay..."@,
        ).resolve_config_path();
        match config {
            None => (resolved, None),
            Some(Err(e)) => (resolved.complain(e), Some(1)),
            Some(Ok(config_path)) => {
                let system = system_of(self.arch);
                let (queried, commit) = resolved.extract_current_emacs_commit(config_path, system);
                match commit {
                    None => (queried, None),
                    Some(Err(e)) => (queried.complain_no_commit(e), Some(1)),
                    Some(Ok(commit)) => queried.say(
                        EMOJI_SUCCESS@ + " Found current commit: "@ + commit,
                    ).pin_current_commit(config_path, system, commit),
                }
            },
        }
    }

    /// The session after a pin to the commit that the user named, and the
    /// exit code. A commit of the wrong form is refused before anything is
    /// asked of the outside; an existing pin is overwritten.
    pub open spec fn pin_to_specific_commit(self, commit: Seq<char>) -> (
        SessionView,
        Option<i32>,
    ) {
        if !is_commit_format(commit) {
            (
                self.complain(EMOJI_ERROR@ + " Invalid commit hash format: "@ + commit).complain(
                    "   Expected: 7-40 lowercase hexadecimal characters"@,
                ).complain("   Example: abc123def456"@),
                Some(1),
            )
        } else {
            let (fetched, hash) = self.say(
                EMOJI_LIGHTBULB@ + " Fetching hash for commit "@ + commit + "..."@,
            ).fetch_hash_for_commit(commit);
            match hash {
                None => (fetched, None),
                Some(Err(e)) => (
                    fetched.complain(
                        EMOJI_ERROR@ + " Failed to fetch hash for commit "@ + commit,
                    ).complain("   Error: "@ + e).complain(
                        "   Please check that the commit exists in the emacs-mirror/emacs repository."@,
                    ),
                    Some(1),
                ),
                Some(Ok(hash)) => {
                    let (resolved, config) = fetched.say(
                        EMOJI_SUCCESS@ + " Found hash: "@ + hash,
                    ).resolve_config_path();
                    match config {
                        None => (resolved, None),
                        Some(Err(_)) => resolved.store_pin(commit, hash, None, false),
                        Some(Ok(config_path)) => {
                            let (captured, out_path) = resolved.capture_out_path(
                                config_path,
                                system_of(self.arch),
                            );
                            match out_path {
                                None => (captured, None),
                                Some(out_path) => captured.store_pin(
                                    commit,
                                    hash,
                                    out_path,
                                    false,
                                ),
                            }
                        },
                    }
                },
            }
        }
    }
}

/// Looks for the configured Emacs that is already built, so that a pin can
/// keep it. Every failure on the way gives `None` and is not reported.
pub fn capture_out_path(session: &mut Session, config_path: &str, system: &str) -> (out_path:
    Option<Option<String>>)
    ensures
        final(session)@ == old(session)@.capture_out_path(config_path@, system@).0,
        out_path.deep_view() == old(session)@.capture_out_path(config_path@, system@).1,
        out_path is None ==> final(session)@.phase != Phase::Running,
        out_path is Some && old(session)@.phase == Phase::Running ==> final(session)@.phase
            == Phase::Running,
{
    let hostname = match get_hostname(session) {
        Some(hostname) => hostname,
        None => {
            return None;
        },
    };
    let path = match extract_configured_emacs_outpath(
        session,
        config_path,
        hostname.as_str(),
        system,
    ) {
        Some(Ok(path)) => path,
        Some(Err(_)) => {
            return Some(None);
        },
        None => {
            return None;
        },
    };
    let target = match resolve_store_path(session, path.as_str()) {
        Some(target) => target,
        None => {
            return None;
        },
    };
    match session.ask_flag(Request::PathExists { path: target.clone() }) {
        Some(true) => Some(Some(target)),
        Some(false) => Some(None),
        None => None,
    }
}

/// Saves the built path beside the pin, if there is one.
pub fn save_out_path(session: &mut Session, out_path: Option<String>, to_current: bool) -> (done:
    Option<()>)
    ensures
        final(session)@ == old(session)@.save_out_path(out_path.deep_view(), to_current).0,
        done == old(session)@.save_out_path(out_path.deep_view(), to_current).1,
        done is None ==> final(session)@.phase != Phase::Running,
        done is Some && old(session)@.phase == Phase::Running ==> final(session)@.phase
            == Phase::Running,
{
    match out_path {
        Some(path) => {
            match write_cache_file(session, CacheFile::StorePath, path.as_str()) {
                None => None,
                Some(Err(e)) => {
                    session.complain(
                        text3(
                            EMOJI_WARNING,
                            " Warning: Failed to save store path: ",
                            e.message.as_str(),
                        ),
                    );
                    Some(())
                },
                Some(Ok(_)) => {
                    session.say(text3(EMOJI_PACKAGE, " Saved built path: ", path.as_str()));
                    Some(())
                },
            }
        },
        None => {
            if to_current {
                session.say(
                    text2(
                        EMOJI_INFO,
                        " Could not resolve an existing configuredEmacs outPath at pin time (will build if needed)",
                    ),
                );
            }
            Some(())
        },
    }
}

/// Writes the pin: the commit, the hash, and the built path if there is
/// one.
pub fn store_pin(
    session: &mut Session,
    commit: &str,
    hash: &str,
    out_path: Option<String>,
    to_current: bool,
) -> (code: Option<i32>)
    ensures
        final(session)@ == old(session)@.store_pin(
            commit@,
            hash@,
            out_path.deep_view(),
            to_current,
        ).0,
        code == old(session)@.store_pin(commit@, hash@, out_path.deep_view(), to_current).1,
        code is None ==> final(session)@.phase != Phase::Running,
        code is Some && old(session)@.phase == Phase::Running ==> final(session)@.phase
            == Phase::Running,
        code matches Some(c) ==> c == 0 || c == 1,
{
    match write_cache_file(session, CacheFile::Pin, commit) {
        None => {
            return None;
        },
        Some(Err(e)) => {
            session.complain(text3(EMOJI_ERROR, " Failed to write pin file: ", e.message.as_str()));
            return Some(1);
        },
        Some(Ok(_)) => {},
    }
    match write_cache_file(session, CacheFile::Hash, hash) {
        None => {
            return None;
        },
        Some(Err(e)) => {
            session.complain(
                text3(EMOJI_ERROR, " Failed to write hash file: ", e.message.as_str()),
            );
            return Some(1);
        },
        Some(Ok(_)) => {},
    }
    if to_current {
        session.say(text3(EMOJI_PIN, " Pinned emacs-git to current commit: ", commit));
    } else {
        session.say(text3(EMOJI_PIN, " Pinned emacs-git to commit: ", commit));
    }
    session.say(text3(EMOJI_KEY, " Stored hash (SRI): ", hash));
    match save_out_path(session, out_path, to_current) {
        None => None,
        Some(_) => {
            session.say(text2(EMOJI_LIGHTBULB, " Rebuild your configuration: nb && ns"));
            Some(0)
        },
    }
}

/// Says that the current commit could not be determined, and what to do.
fn complain_no_commit(session: &mut Session, e: &str)
    ensures
        final(session)@ == old(session)@.complain_no_commit(e@),
{
    session.complain(
        text2(EMOJI_ERROR, " Could not extract current emacs-git commit from configuration"),
    );
    session.complain(text2("   Error: ", e));
    session.complain(
        String::from_str("   Please specify a commit hash manually: emacs-pin pin <commit-hash>"),
    );
    session.complain(
        String::from_str(
            "   You can find commits at: https://github.com/emacs-mirror/emacs/commits/master",
        ),
    );
    session.complain(String::from_str("   Example: emacs-pin pin abc123def456"));
}

/// Pins to `commit`, the commit that the overlay provides, unless the pin
/// file holds it already.
pub fn pin_current_commit(session: &mut Session, config_path: &str, system: &str, commit: &str) -> (
    code: Option<i32>
)
    ensures
        final(session)@ == old(session)@.pin_current_commit(config_path@, system@, commit@).0,
        code == old(session)@.pin_current_commit(config_path@, system@, commit@).1,
        code is None ==> final(session)@.phase != Phase::Running,
        code is Some && old(session)@.phase == Phase::Running ==> final(session)@.phase
            == Phase::Running,
        code matches Some(c) ==> c == 0 || c == 1,
{
    let existing = match read_cache_file(session, CacheFile::Pin) {
        Some(existing) => existing,
        None => {
            return None;
        },
    };
    let already = match &existing {
        Some(existing) => same_text(existing, commit),
        None => false,
    };
    if already {
        session.say(text3(EMOJI_INFO, " Already pinned to current overlay commit: ", commit));
        session.say(
            text2(EMOJI_LIGHTBULB, " No rebuild necessary - configuration already matches pin"),
        );
        return Some(0);
    }
    session.say(text2(EMOJI_LIGHTBULB, " Extracting hash for current commit..."));
    let hash = match extract_current_emacs_hash_sri(session, config_path, system) {
        Some(Ok(hash)) => hash,
        Some(Err(e)) => {
            session.complain(text3(EMOJI_ERROR, " Failed to extract hash: ", e.message.as_str()));
            return Some(1);
        },
        None => {
            return None;
        },
    };
    session.say(text3(EMOJI_SUCCESS, " Found current hash: ", hash.as_str()));
    match capture_out_path(session, config_path, system) {
        Some(out_path) => store_pin(session, commit, hash.as_str(), out_path, true),
        None => None,
    }
}

/// Pins Emacs to the commit that the overlay provides now. Returns the exit
/// code: 0 when the pin was written or was there already, 1 after a
/// failure.
pub fn pin_to_current_overlay(session: &mut Session) -> (code: Option<i32>)
    ensures
        final(session)@ == old(session)@.pin_to_current_overlay().0,
        code == old(session)@.pin_to_current_overlay().1,
        code is None ==> final(session)@.phase != Phase::Running,
        code is Some && old(session)@.phase == Phase::Running ==> final(session)@.phase
            == Phase::Running,
        code matches Some(c) ==> c == 0 || c == 1,
{
    session.say(
        text2(
            EMOJI_LIGHTBULB,
            " No commit hash provided. Extracting from current emacs overlay...",
        ),
    );
    let config_path = match resolve_config_path(session) {
        Some(Ok(path)) => path,
        Some(Err(e)) => {
            session.complain(e.message);
            return Some(1);
        },
        None => {
            return None;
        },
    };
    let system = get_system_architecture(session.arch());
    let commit = match extract_current_emacs_commit(
        session,
        config_path.as_str(),
        system.as_str(),
    ) {
        Some(Ok(commit)) => commit,
        Some(Err(e)) => {
            complain_no_commit(session, e.message.as_str());
            return Some(1);
        },
        None => {
            return None;
        },
    };
    session.say(text3(EMOJI_SUCCESS, " Found current commit: ", commit.as_str()));
    pin_current_commit(session, config_path.as_str(), system.as_str(), commit.as_str())
}

/// Pins Emacs to the commit `commit`. Returns the exit code: 0 when the pin
/// was written, 1 after a failure or for a commit of the wrong form.
pub fn pin_to_specific_commit(session: &mut Session, commit: &str) -> (code: Option<i32>)
    ensures
        final(session)@ == old(session)@.pin_to_specific_commit(commit@).0,
        code == old(session)@.pin_to_specific_commit(commit@).1,
        code is None ==> final(session)@.phase != Phase::Running,
        code is Some && old(session)@.phase == Phase::Running ==> final(session)@.phase
            == Phase::Running,
        code matches Some(c) ==> c == 0 || c == 1,
{
    if !validate_commit_format(commit) {
        session.complain(text3(EMOJI_ERROR, " Invalid commit hash format: ", commit));
        session.complain(String::from_str("   Expected: 7-40 lowercase hexadecimal characters"));
        session.complain(String::from_str("   Example: abc123def456"));
        return Some(1);
    }
    session.say(text4(EMOJI_LIGHTBULB, " Fetching hash for commit ", commit, "..."));
    let hash = match fetch_hash_for_commit(session, commit) {
        Some(Ok(hash)) => hash,
        Some(Err(e)) => {
            session.complain(text3(EMOJI_ERROR, " Failed to fetch hash for commit ", commit));
            session.complain(text2("   Error: ", e.message.as_str()));
            session.complain(
                String::from_str(
                    "   Please check that the commit exists in the emacs-mirror/emacs repository.",
                ),
            );
            return Some(1);
        },
        None => {
            return None;
        },
    };
    session.say(text3(EMOJI_SUCCESS, " Found hash: ", hash.as_str()));
    let out_path = match resolve_config_path(session) {
        Some(Ok(config_path)) => {
            let system = get_system_architecture(session.arch());
            match capture_out_path(session, config_path.as_str(), system.as_str()) {
                Some(out_path) => out_path,
                None => {
                    return None;
                },
            }
        },
        Some(Err(_)) => None,
        None => {
            return None;
        },
    };
    store_pin(session, commit, hash.as_str(), out_path, false)
}

/// A commit of the wrong form is refused with exit code 1 before anything
/// is asked of the outside.
pub proof fn lemma_bad_commit_is_refused(session: SessionView, commit: Seq<char>)
    requires
        !is_commit_format(commit),
    ensures
        session.pin_to_specific_commit(commit).1 == Some(1i32),
        session.pin_to_specific_commit(commit).0.asked == session.asked,
{
}

/// Where the pin file holds `commit` already, a pin to the current commit
/// `commit` succeeds after it has read that file, and asks for nothing
/// else: nothing is written.
pub proof fn lemma_pin_of_pinned_commit(
    session: SessionView,
    config_path: Seq<char>,
    system: Seq<char>,
    commit: Seq<char>,
    pin_text: Seq<char>,
)
    requires
        session.reply_to(RequestView::ReadFile { path: CacheFile::Pin.path(session.cache_dir) })
            == Some(ReplyView::Text(Some(pin_text))),
        trimmed(pin_text) == commit,
    ensures
        session.pin_current_commit(config_path, system, commit).1 == Some(0i32),
        session.pin_current_commit(config_path, system, commit).0.asked == session.asked.push(
            RequestView::ReadFile { path: CacheFile::Pin.path(session.cache_dir) },
        ),
{
}

/// A second pin to the current commit, after a first one has written the
/// pin file and while the overlay provides the same commit, succeeds and
/// changes nothing: it looks up the checkout, asks the evaluator for the
/// commit, reads the pin file, and ends.
pub proof fn lemma_pin_to_current_again(
    session: SessionView,
    config_path: Seq<char>,
    stdout: Seq<u8>,
    stderr: Seq<u8>,
)
    requires
        session.phase == Phase::Running,
        session.asked.len() + 4 <= session.record.len(),
        session.record[session.asked.len() as int] == (ExchangeView {
            request: RequestView::ReadEnv { name: "DARWIN_CONFIG_PATH"@ },
            reply: ReplyView::Text(Some(config_path)),
        }),
        session.record[session.asked.len() as int + 1] == (ExchangeView {
            request: RequestView::PathExists { path: joined(config_path, "flake.nix"@) },
            reply: ReplyView::Flag(true),
        }),
        session.record[session.asked.len() as int + 2] == (ExchangeView {
            request: RequestView::Run(
                eval_invocation(
                    config_path,
                    overlay_expression(system_of(session.arch), "rev"@),
                ),
            ),
            reply: ReplyView::Ran(CompletionView::Exited { success: true, stdout, stderr }),
        }),
        // What the first pin wrote for the commit that the evaluator named.
        session.record[session.asked.len() as int + 3] == (ExchangeView {
            request: RequestView::ReadFile { path: CacheFile::Pin.path(session.cache_dir) },
            reply: ReplyView::Text(Some(file_text(trimmed(utf8_lossy(stdout))))),
        }),
    ensures
        session.pin_to_current_overlay().1 == Some(0i32),
        session.pin_to_current_overlay().0.asked_since(session).len() == 4,
        forall|i: int|
            0 <= i < 4 ==> !is_change(
                #[trigger] session.pin_to_current_overlay().0.asked_since(session)[i],
            ),
{
    let commit = trimmed(utf8_lossy(stdout));
    lemma_trimmed_twice(utf8_lossy(stdout));
    lemma_written_text_reads_back(commit);
    let told = session.say(
        EMOJI_LIGHTBULB@ + " No commit hash provided. Extracting from current emacs overlay..."@,
    );
    let (resolved, config) = told.resolve_config_path();
    assert(config == Some(Ok::<Seq<char>, Seq<char>>(config_path)));
    let system = system_of(session.arch);
    let (queried, found) = resolved.extract_current_emacs_commit(config_path, system);
    assert(found == Some(Ok::<Seq<char>, Seq<char>>(commit)));
    let ready = queried.say(EMOJI_SUCCESS@ + " Found current commit: "@ + commit);
    lemma_pin_of_pinned_commit(ready, config_path, system, commit, file_text(commit));
    let end = session.pin_to_current_overlay().0;
    assert(end.asked.len() == session.asked.len() + 4);
}

/// A pin that is written with success has made the requests of a write of
/// the commit to the pin file, then those of a write of the hash to the
/// hash file, and after them only requests of a write of the built path,
/// if there is one.
pub proof fn lemma_store_pin_writes(
    session: SessionView,
    commit: Seq<char>,
    hash: Seq<char>,
    out_path: Option<Seq<char>>,
    to_current: bool,
)
    requires
        session.phase == Phase::Running,
        session.store_pin(commit, hash, out_path, to_current).1 == Some(0i32),
    ensures
        ({
            let made = session.store_pin(commit, hash, out_path, to_current).0.asked_since(
                session,
            );
            &&& made.len() >= 8
            &&& made.subrange(0, 4) == write_plan(session.cache_dir, CacheFile::Pin, commit)
            &&& made.subrange(4, 8) == write_plan(session.cache_dir, CacheFile::Hash, hash)
            &&& out_path is None ==> made.len() == 8
            &&& out_path matches Some(path) ==> made.len() <= 12 && made.subrange(
                8,
                made.len() as int,
            ) == write_plan(session.cache_dir, CacheFile::StorePath, path).subrange(
                0,
                made.len() - 8,
            )
        }),
{
    let end = session.store_pin(commit, hash, out_path, to_current).0;
    let made = end.asked_since(session);
    let (pinned, pin_written) = session.write_cache_file(CacheFile::Pin, commit);
    lemma_write_follows_plan(session, CacheFile::Pin, commit);
    let (hashed, hash_written) = pinned.write_cache_file(CacheFile::Hash, hash);
    lemma_write_follows_plan(pinned, CacheFile::Hash, hash);
    let told = hashed.say(
        EMOJI_PIN@ + (if to_current {
            " Pinned emacs-git to current commit: "@
        } else {
            " Pinned emacs-git to commit: "@
        }) + commit,
    ).say(EMOJI_KEY@ + " Stored hash (SRI): "@ + hash);
    let saved = told.save_out_path(out_path, to_current).0;
    assert(end.asked == saved.asked);
    assert(pinned.asked_since(session) == write_plan(session.cache_dir, CacheFile::Pin, commit));
    assert(hashed.asked_since(pinned) == write_plan(session.cache_dir, CacheFile::Hash, hash));
    assert(pinned.asked.len() == session.asked.len() + 4);
    assert(hashed.asked.len() == session.asked.len() + 8);
    match out_path {
        Some(path) => {
            let written = told.write_cache_file(CacheFile::StorePath, path).0;
            lemma_write_follows_plan(told, CacheFile::StorePath, path);
            assert(saved.asked == written.asked);
            assert(made.subrange(8, made.len() as int) =~= written.asked_since(told));
        },
        None => {
            assert(saved.asked == hashed.asked);
        },
    }
    assert(made.subrange(0, 4) =~= pinned.asked_since(session));
    assert(made.subrange(4, 8) =~= hashed.asked_since(pinned));
}

/// After a pin that was written with success, the pin file holds the
/// commit and the hash file holds the hash, whatever the store held before:
/// the store that is meant is the one in which the requests that the pin has
/// made have all been performed.
pub proof fn lemma_pin_is_stored(
    files: Map<Seq<char>, Seq<char>>,
    session: SessionView,
    commit: Seq<char>,
    hash: Seq<char>,
    out_path: Option<Seq<char>>,
    to_current: bool,
)
    requires
        session.phase == Phase::Running,
        session.store_pin(commit, hash, out_path, to_current).1 == Some(0i32),
    ensures
        ({
            let after = performed_all(
                files,
                session.store_pin(commit, hash, out_path, to_current).0.asked_since(session),
            );
            &&& after.dom().contains(CacheFile::Pin.path(session.cache_dir))
            &&& after[CacheFile::Pin.path(session.cache_dir)] == file_text(commit)
            &&& after.dom().contains(CacheFile::Hash.path(session.cache_dir))
            &&& after[CacheFile::Hash.path(session.cache_dir)] == file_text(hash)
        }),
{
    let dir = session.cache_dir;
    let made = session.store_pin(commit, hash, out_path, to_current).0.asked_since(session);
    lemma_store_pin_writes(session, commit, hash, out_path, to_current);
    let pin_plan = write_plan(dir, CacheFile::Pin, commit);
    let hash_plan = write_plan(dir, CacheFile::Hash, hash);
    let rest = made.subrange(8, made.len() as int);
    assert(made =~= pin_plan + hash_plan + rest);
    let pinned = performed_all(files, pin_plan);
    let hashed = performed_all(pinned, hash_plan);
    let after = performed_all(hashed, rest);
    lemma_performed_in_a_row(files, pin_plan, hash_plan);
    lemma_performed_in_a_row(files, pin_plan + hash_plan, rest);
    lemma_write_then_read(files, dir, CacheFile::Pin, commit);
    lemma_write_then_read(pinned, dir, CacheFile::Hash, hash);
    assert(hash_plan.subrange(0, 4) =~= hash_plan);
    lemma_write_leaves_other_files(pinned, dir, CacheFile::Hash, hash, 4, CacheFile::Pin);
    match out_path {
        Some(path) => {
            let k = made.len() - 8;
            assert(rest == write_plan(dir, CacheFile::StorePath, path).subrange(0, k));
            lemma_write_leaves_other_files(
                hashed,
                dir,
                CacheFile::StorePath,
                path,
                k,
                CacheFile::Pin,
            );
            lemma_write_leaves_other_files(
                hashed,
                dir,
                CacheFile::StorePath,
                path,
                k,
                CacheFile::Hash,
            );
        },
        None => {
            assert(rest =~= Seq::<RequestView>::empty());
        },
    }
}

/// Two pins to the current commit in a row, while the overlay provides the
/// same commit: the second, which reads from the pin file what the first
/// has left there, succeeds and asks for no change, so that the cache files
/// are after the second what they were after the first.
pub proof fn lemma_pin_to_current_twice(
    files: Map<Seq<char>, Seq<char>>,
    first: SessionView,
    hash: Seq<char>,
    out_path: Option<Seq<char>>,
    second: SessionView,
    config_path: Seq<char>,
    stdout: Seq<u8>,
    stderr: Seq<u8>,
)
    requires
        // The first pin has written, with success, the commit that the
        // evaluator named.
        first.phase == Phase::Running,
        first.store_pin(trimmed(utf8_lossy(stdout)), hash, out_path, true).1 == Some(0i32),
        // The second pin finds the checkout, is given the same commit, and
        // reads the pin file from the store as the first has left it.
        second.cache_dir == first.cache_dir,
        second.phase == Phase::Running,
        second.asked.len() + 4 <= second.record.len(),
        second.record[second.asked.len() as int] == (ExchangeView {
            request: RequestView::ReadEnv { name: "DARWIN_CONFIG_PATH"@ },
            reply: ReplyView::Text(Some(config_path)),
        }),
        second.record[second.asked.len() as int + 1] == (ExchangeView {
            request: RequestView::PathExists { path: joined(config_path, "flake.nix"@) },
            reply: ReplyView::Flag(true),
        }),
        second.record[second.asked.len() as int + 2] == (ExchangeView {
            request: RequestView::Run(
                eval_invocation(config_path, overlay_expression(system_of(second.arch), "rev"@)),
            ),
            reply: ReplyView::Ran(CompletionView::Exited { success: true, stdout, stderr }),
        }),
        second.record[second.asked.len() as int + 3] == (ExchangeView {
            request: RequestView::ReadFile { path: CacheFile::Pin.path(second.cache_dir) },
            reply: ReplyView::Text(
                Some(
                    performed_all(
                        files,
                        first.store_pin(
                            trimmed(utf8_lossy(stdout)),
                            hash,
                            out_path,
                            true,
                        ).0.asked_since(first),
                    )[CacheFile::Pin.path(first.cache_dir)],
                ),
            ),
        }),
    ensures
        second.pin_to_current_overlay().1 == Some(0i32),
        second.pin_to_current_overlay().0.asked_since(second).len() == 4,
        forall|i: int|
            0 <= i < 4 ==> !is_change(
                #[trigger] second.pin_to_current_overlay().0.asked_since(second)[i],
            ),
{
    lemma_pin_is_stored(files, first, trimmed(utf8_lossy(stdout)), hash, out_path, true);
    lemma_pin_to_current_again(second, config_path, stdout, stderr);
}

/// The search for the build that is there changes nothing in the file
/// system, and prints nothing.
pub proof fn lemma_capture_looks(session: SessionView, config_path: Seq<char>, system: Seq<char>)
    ensures
        session.capture_out_path(config_path, system).0.looked_since(session),
        session.capture_out_path(config_path, system).0.output == session.output,
{
    let (named, hostname) = session.get_hostname();
    lemma_hostname_looks(session);
    assert(named.output == session.output);
    if hostname is Some {
        let expression = package_expression(system, hostname->0);
        let (queried, path) = named.evaluate(config_path, expression);
        lemma_evaluator_looks(named, config_path, expression, Seq::empty(), Seq::empty());
        lemma_looked_chain(session, named, queried);
        match path {
            Some(Ok(path)) => {
                let (resolved, target) = queried.resolve_store_path(path);
                lemma_evaluator_looks(queried, Seq::empty(), Seq::empty(), Seq::empty(), path);
                lemma_looked_chain(session, queried, resolved);
                if target is Some {
                    let exists = RequestView::PathExists { path: target->0 };
                    lemma_ask_continues(resolved, exists);
                    lemma_looked_chain(session, resolved, resolved.ask_flag(exists).0);
                }
            },
            _ => {},
        }
    }
}

/// Writing the pin removes no file: what was written stays, also where a
/// later write fails.
pub proof fn lemma_store_pin_keeps(
    session: SessionView,
    commit: Seq<char>,
    hash: Seq<char>,
    out_path: Option<Seq<char>>,
    to_current: bool,
)
    ensures
        session.store_pin(commit, hash, out_path, to_current).0.kept_since(session),
{
    let end = session.store_pin(commit, hash, out_path, to_current).0;
    let (pinned, pin_written) = session.write_cache_file(CacheFile::Pin, commit);
    lemma_write_keeps(session, CacheFile::Pin, commit);
    match pin_written {
        Some(Ok(_)) => {
            let (hashed, hash_written) = pinned.write_cache_file(CacheFile::Hash, hash);
            lemma_write_keeps(pinned, CacheFile::Hash, hash);
            lemma_kept_chain(session, pinned, hashed);
            match hash_written {
                Some(Ok(_)) => {
                    let told = hashed.say(
                        EMOJI_PIN@ + (if to_current {
                            " Pinned emacs-git to current commit: "@
                        } else {
                            " Pinned emacs-git to commit: "@
                        }) + commit,
                    ).say(EMOJI_KEY@ + " Stored hash (SRI): "@ + hash);
                    assert(told.kept_since(hashed));
                    lemma_kept_chain(session, hashed, told);
                    let (saved, done) = told.save_out_path(out_path, to_current);
                    assert(saved.kept_since(told)) by {
                        match out_path {
                            Some(path) => {
                                let written = told.write_cache_file(CacheFile::StorePath, path).0;
                                lemma_write_keeps(told, CacheFile::StorePath, path);
                                assert(saved.kept_since(written));
                                lemma_kept_chain(told, written, saved);
                            },
                            None => {},
                        }
                    }
                    lemma_kept_chain(session, told, saved);
                    assert(end.kept_since(saved));
                    lemma_kept_chain(session, saved, end);
                },
                _ => {
                    assert(end.kept_since(hashed));
                    lemma_kept_chain(session, hashed, end);
                },
            }
        },
        _ => {
            assert(end.kept_since(pinned));
            lemma_kept_chain(session, pinned, end);
        },
    }
}

/// A pin to the current commit, from the point where that commit is known,
/// removes no file.
pub proof fn lemma_pin_current_commit_keeps(
    session: SessionView,
    config_path: Seq<char>,
    system: Seq<char>,
    commit: Seq<char>,
)
    ensures
        session.pin_current_commit(config_path, system, commit).0.kept_since(session),
{
    let end = session.pin_current_commit(config_path, system, commit).0;
    let (read, existing) = session.read_cache_file(CacheFile::Pin);
    lemma_read_looks(session, CacheFile::Pin);
    lemma_looked_is_kept(session, read);
    if existing is Some && existing->0 != Some(commit) {
        let told = read.say(EMOJI_LIGHTBULB@ + " Extracting hash for current commit..."@);
        assert(told.kept_since(read));
        lemma_kept_chain(session, read, told);
        let (fetched, hash) = told.extract_current_emacs_hash_sri(config_path, system);
        lemma_hash_query_looks(told, config_path, system);
        lemma_looked_is_kept(told, fetched);
        lemma_kept_chain(session, told, fetched);
        match hash {
            Some(Ok(hash)) => {
                let found = fetched.say(EMOJI_SUCCESS@ + " Found current hash: "@ + hash);
                assert(found.kept_since(fetched));
                lemma_kept_chain(session, fetched, found);
                let (captured, out_path) = found.capture_out_path(config_path, system);
                lemma_capture_looks(found, config_path, system);
                lemma_looked_is_kept(found, captured);
                lemma_kept_chain(session, found, captured);
                if out_path is Some {
                    lemma_store_pin_keeps(captured, commit, hash, out_path->0, true);
                    lemma_kept_chain(session, captured, end);
                }
            },
            _ => {
                assert(end.kept_since(fetched));
                lemma_kept_chain(session, fetched, end);
            },
        }
    } else {
        assert(end.kept_since(read));
        lemma_kept_chain(session, read, end);
    }
}

/// A pin to the current commit removes no file.
pub proof fn lemma_pin_to_current_keeps(session: SessionView)
    ensures
        session.pin_to_current_overlay().0.kept_since(session),
{
    let end = session.pin_to_current_overlay().0;
    let told = session.say(
        EMOJI_LIGHTBULB@ + " No commit hash provided. Extracting from current emacs overlay..."@,
    );
    let (resolved, config) = told.resolve_config_path();
    lemma_config_path_looks(told);
    lemma_looked_chain(session, told, resolved);
    lemma_looked_is_kept(session, resolved);
    match config {
        Some(Ok(config_path)) => {
            let system = system_of(session.arch);
            let expression = overlay_expression(system, "rev"@);
            let (queried, commit) = resolved.evaluate(config_path, expression);
            lemma_evaluator_looks(resolved, config_path, expression, Seq::empty(), Seq::empty());
            lemma_looked_is_kept(resolved, queried);
            lemma_kept_chain(session, resolved, queried);
            match commit {
                Some(Ok(commit)) => {
                    let ready = queried.say(EMOJI_SUCCESS@ + " Found current commit: "@ + commit);
                    assert(ready.kept_since(queried));
                    lemma_kept_chain(session, queried, ready);
                    lemma_pin_current_commit_keeps(ready, config_path, system, commit);
                    lemma_kept_chain(session, ready, end);
                },
                _ => {
                    assert(end.kept_since(queried));
                    lemma_kept_chain(session, queried, end);
                },
            }
        },
        _ => {
            assert(end.kept_since(resolved));
            lemma_kept_chain(session, resolved, end);
        },
    }
}

/// A pin to a commit that the user names removes no file.
pub proof fn lemma_pin_to_commit_keeps(session: SessionView, commit: Seq<char>)
    ensures
        session.pin_to_specific_commit(commit).0.kept_since(session),
{
    let end = session.pin_to_specific_commit(commit).0;
    if is_commit_format(commit) {
        let told = session.say(EMOJI_LIGHTBULB@ + " Fetching hash for commit "@ + commit + "..."@);
        assert(told.kept_since(session));
        let (fetched, hash) = told.fetch_hash_for_commit(commit);
        lemma_fetch_looks(told, commit);
        lemma_looked_is_kept(told, fetched);
        lemma_kept_chain(session, told, fetched);
        match hash {
            Some(Ok(hash)) => {
                let found = fetched.say(EMOJI_SUCCESS@ + " Found hash: "@ + hash);
                assert(found.kept_since(fetched));
                lemma_kept_chain(session, fetched, found);
                let (resolved, config) = found.resolve_config_path();
                lemma_config_path_looks(found);
                lemma_looked_is_kept(found, resolved);
                lemma_kept_chain(session, found, resolved);
                match config {
                    Some(Ok(config_path)) => {
                        let system = system_of(session.arch);
                        let (captured, out_path) = resolved.capture_out_path(config_path, system);
                        lemma_capture_looks(resolved, config_path, system);
                        lemma_looked_is_kept(resolved, captured);
                        lemma_kept_chain(session, resolved, captured);
                        if out_path is Some {
                            lemma_store_pin_keeps(captured, commit, hash, out_path->0, false);
                            lemma_kept_chain(session, captured, end);
                        }
                    },
                    Some(Err(_)) => {
                        lemma_store_pin_keeps(resolved, commit, hash, None, false);
                        lemma_kept_chain(session, resolved, end);
                    },
                    None => {},
                }
            },
            _ => {
                assert(end.kept_since(fetched));
                lemma_kept_chain(session, fetched, end);
            },
        }
    } else {
        assert(end.kept_since(session));
    }
}

} // verus!
