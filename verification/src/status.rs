//! The report of the state of the pin.

use crate::cache::{lemma_read_looks, read_cache_file};
use crate::config::{lemma_config_path_looks, resolve_config_path};
use crate::emoji::{
    EMOJI_CHART, EMOJI_KEY, EMOJI_LINK, EMOJI_PACKAGE, EMOJI_PIN, EMOJI_SUCCESS, EMOJI_UNLOCK,
    EMOJI_WARNING,
};
use crate::evaluator::{
    eval_invocation, extract_current_emacs_commit, lemma_evaluator_looks, overlay_expression,
};
use crate::host::{get_system_architecture, system_of};
use crate::paths::{joined, CacheFile};
use crate::session::{
    lemma_ask_continues, lemma_looked_chain, lemma_run_looks, Completion, CompletionView,
    Invocation, InvocationView, LineView, Phase, ReplyView, Request, RequestView, Session,
    SessionView, Stream,
};
use crate::text::{decode_lossy, first_line, head_line, same_text, text2, text3, utf8_lossy};
use vstd::prelude::*;
use vstd::string::*;

verus! {

/// The address of the page of a commit of the Emacs mirror.
pub open spec fn commit_url(commit: Seq<char>) -> Seq<char> {
    "https://github.com/emacs-mirror/emacs/commit/"@ + commit
}

/// The run of `program` with the one argument `argument`.
pub open spec fn probe_invocation(program: Seq<char>, argument: Seq<char>) -> InvocationView {
    InvocationView { program, args: seq![argument], dir: None }
}

/// Whether a program ran and reported success.
pub open spec fn succeeded(completion: CompletionView) -> bool {
    completion matches CompletionView::Exited { success, .. } && success
}

/// The first line that a program printed, if it ran with success and
/// printed one.
pub open spec fn version_line(completion: CompletionView) -> Option<Seq<char>> {
    match completion {
        CompletionView::Exited { success: true, stdout, .. } => first_line(utf8_lossy(stdout)),
        _ => None,
    }
}

impl SessionView {
    /// The session after the lines that say that the current commit could
    /// not be determined; for the status this is a warning.
    pub open spec fn warn_no_commit(self, e: Seq<char>) -> SessionView {
        self.say(EMOJI_WARNING@ + " Could not extract current overlay commit: "@ + e).say(
            Seq::empty(),
        )
    }

    /// The session after the first part of the status, and the commit that
    /// the overlay provides, if it can be determined.
    pub open spec fn report_current_commit(self) -> (SessionView, Option<Option<Seq<char>>>) {
        let (resolved, config) = self.resolve_config_path();
        match config {
            None => (resolved, None),
            Some(Err(e)) => (resolved.warn_no_commit(e), Some(None)),
            Some(Ok(config_path)) => {
                let (queried, commit) = resolved.extract_current_emacs_commit(
                    config_path,
                    system_of(self.arch),
                );
                match commit {
                    None => (queried, None),
                    Some(Err(e)) => (queried.warn_no_commit(e), Some(None)),
                    Some(Ok(commit)) => (
                        queried.say(
                            EMOJI_CHART@ + " Current overlay emacs-git commit: "@ + commit,
                        ).say(EMOJI_LINK@ + " View current: "@ + commit_url(commit)).say(
                            Seq::empty(),
                        ),
                        Some(Some(commit)),
                    ),
                }
            },
        }
    }

    /// The session after the lines that compare the pin with the current
    /// commit, where that is known.
    pub open spec fn report_match(
        self,
        pinned: Seq<char>,
        current: Option<Seq<char>>,
    ) -> SessionView {
        match current {
            None => self,
            Some(current) => if pinned == current {
                self.say(EMOJI_SUCCESS@ + " Pin matches current overlay commit"@)
            } else {
                self.say(EMOJI_WARNING@ + " Pin differs from current overlay commit"@).say(
                    "   Run: emacs-pin pin (without arguments) to pin to current overlay commit"@,
                ).say("   Run: emacs-pin unpin to use latest overlay commit"@)
            },
        }
    }

    /// The session after the lines on the hash on record.
    pub open spec fn report_hash(self, pinned: Seq<char>) -> (SessionView, Option<()>) {
        let (read, hash) = self.read_cache_file(CacheFile::Hash);
        match hash {
            None => (read, None),
            Some(Some(hash)) => (read.say(EMOJI_KEY@ + " Stored hash (SRI): "@ + hash), Some(())),
            Some(None) => (
                read.say(
                    EMOJI_WARNING@
                        + " Warning: No hash file found - pinning may not work correctly"@,
                ).say("   Run: emacs-pin pin "@ + pinned + " to fix"@),
                Some(()),
            ),
        }
    }

    /// The session after the line that says what a missing build means.
    pub open spec fn say_rebuild(self) -> SessionView {
        self.say(
            "   Behavior: will build latest overlay commit and auto-pin to it after switch"@,
        )
    }

    /// The session after the lines on the build path on record, and on
    /// whether the build is still there.
    pub open spec fn report_build_path(self) -> (SessionView, Option<()>) {
        let (read, stored) = self.read_cache_file(CacheFile::StorePath);
        match stored {
            None => (read, None),
            Some(None) => (
                read.say(EMOJI_WARNING@ + " Stored build path not found (likely GC'd)"@).say_rebuild(),
                Some(()),
            ),
            Some(Some(path)) => {
                let (checked, exists) = read.ask_flag(RequestView::PathExists { path });
                match exists {
                    None => (checked, None),
                    Some(true) => (
                        checked.say(EMOJI_PACKAGE@ + " Stored build path: "@ + path),
                        Some(()),
                    ),
                    Some(false) => (
                        checked.say(
                            EMOJI_WARNING@ + " Stored build path not found (was GC'd): "@ + path,
                        ).say_rebuild(),
                        Some(()),
                    ),
                }
            },
        }
    }

    /// The session after the second part of the status: whether the tool
    /// is pinned, and if it is, to what. The hash and the build path are
    /// read only where a pin is on record.
    pub open spec fn report_pin(self, current: Option<Seq<char>>) -> (SessionView, Option<()>) {
        let (read, pinned) = self.read_cache_file(CacheFile::Pin);
        match pinned {
            None => (read, None),
            Some(None) => {
                let told = read.say(
                    EMOJI_UNLOCK@ + " emacs-git is not pinned (using latest from overlay)"@,
                );
                if current is Some {
                    (
                        told.say(
                            "   Run: emacs-pin pin (without arguments) to pin to current overlay commit"@,
                        ),
                        Some(()),
                    )
                } else {
                    (told, Some(()))
                }
            },
            Some(Some(pinned)) => {
                let (hashed, done) = read.say(
                    EMOJI_PIN@ + " emacs-git is pinned to commit: "@ + pinned,
                ).say(EMOJI_LINK@ + " View pinned: "@ + commit_url(pinned)).report_match(
                    pinned,
                    current,
                ).report_hash(pinned);
                match done {
                    None => (hashed, None),
                    Some(_) => hashed.report_build_path(),
                }
            },
        }
    }

    /// The session after the last part of the status: the version of the
    /// Emacs that is installed, where one is found. Nothing here is an
    /// error.
    pub open spec fn report_version(self) -> (SessionView, Option<()>) {
        let (found, which) = self.say(Seq::empty()).ask_run(
            probe_invocation("which"@, "emacs"@),
        );
        match which {
            None => (found, None),
            Some(which) => if !succeeded(which) {
                (found, Some(()))
            } else {
                let (ran, version) = found.ask_run(probe_invocation("emacs"@, "--version"@));
                match version {
                    None => (ran, None),
                    Some(version) => match version_line(version) {
                        Some(line) => (
                            ran.say("Current emacs version:"@).say("  "@ + line),
                            Some(()),
                        ),
                        None => (ran, Some(())),
                    },
                }
            },
        }
    }

    /// The session after the status, and the exit code, which is 0
    /// whenever the operation comes to its end.
    pub open spec fn status(self) -> (SessionView, Option<i32>) {
        let (first, current) = self.report_current_commit();
        match current {
            None => (first, None),
            Some(current) => {
                let (second, pin) = first.report_pin(current);
                match pin {
                    None => (second, None),
                    Some(_) => {
                        let (third, version) = second.report_version();
                        match version {
                            None => (third, None),
                            Some(_) => (third, Some(0)),
                        }
                    },
                }
            },
        }
    }
}

/// Builds the address of the page of a commit.
pub fn commit_page(commit: &str) -> (url: String)
    ensures
        url@ == commit_url(commit@),
{
    text2("https://github.com/emacs-mirror/emacs/commit/", commit)
}

/// Builds the run of `program` with one argument.
pub fn probe_command(program: &str, argument: &str) -> (invocation: Invocation)
    ensures
        invocation.deep_view() == probe_invocation(program@, argument@),
{
    let mut args: Vec<String> = Vec::new();
    args.push(String::from_str(argument));
    assert(args.deep_view() =~= seq![argument@]);
    Invocation { program: String::from_str(program), args, dir: None }
}

/// Tests whether a program ran and reported success.
pub fn has_succeeded(completion: &Completion) -> (yes: bool)
    ensures
        yes == succeeded(completion.deep_view()),
{
    match completion {
        Completion::Exited { success, .. } => *success,
        Completion::Failed { .. } => false,
    }
}

/// Reads the first line that a program printed.
pub fn read_version(completion: &Completion) -> (line: Option<String>)
    ensures
        line.deep_view() == version_line(completion.deep_view()),
{
    match completion {
        Completion::Exited { success: true, stdout, .. } => {
            let text = decode_lossy(stdout);
            match head_line(text.as_str()) {
                Some(line) => Some(String::from_str(line)),
                None => None,
            }
        },
        _ => None,
    }
}

/// Says, as a warning, that the current commit could not be determined.
fn warn_no_commit(session: &mut Session, e: &str)
    ensures
        final(session)@ == old(session)@.warn_no_commit(e@),
{
    session.say(text3(EMOJI_WARNING, " Could not extract current overlay commit: ", e));
    session.say(String::new());
}

/// Reports the commit that the overlay provides, and returns it if it can
/// be determined.
pub fn report_current_commit(session: &mut Session) -> (current: Option<Option<String>>)
    ensures
        final(session)@ == old(session)@.report_current_commit().0,
        current.deep_view() == old(session)@.report_current_commit().1,
        current is None ==> final(session)@.phase != Phase::Running,
        current is Some && old(session)@.phase == Phase::Running ==> final(session)@.phase
            == Phase::Running,
{
    let config_path = match resolve_config_path(session) {
        Some(Ok(path)) => path,
        Some(Err(e)) => {
            warn_no_commit(session, e.message.as_str());
            return Some(None);
        },
        None => {
            return None;
        },
    };
    let system = get_system_architecture(session.arch());
    match extract_current_emacs_commit(session, config_path.as_str(), system.as_str()) {
        Some(Ok(commit)) => {
            session.say(text3(EMOJI_CHART, " Current overlay emacs-git commit: ", commit.as_str()));
            let url = commit_page(commit.as_str());
            session.say(text3(EMOJI_LINK, " View current: ", url.as_str()));
            session.say(String::new());
            Some(Some(commit))
        },
        Some(Err(e)) => {
            warn_no_commit(session, e.message.as_str());
            Some(None)
        },
        None => None,
    }
}

/// Reports whether the pin is the current commit.
fn report_match(session: &mut Session, pinned: &String, current: &Option<String>)
    ensures
        final(session)@ == old(session)@.report_match(pinned@, current.deep_view()),
{
    match current {
        None => {},
        Some(current) => {
            if same_text(pinned, current.as_str()) {
                session.say(text2(EMOJI_SUCCESS, " Pin matches current overlay commit"));
            } else {
                session.say(text2(EMOJI_WARNING, " Pin differs from current overlay commit"));
                session.say(
                    String::from_str(
                        "   Run: emacs-pin pin (without arguments) to pin to current overlay commit",
                    ),
                );
                session.say(String::from_str("   Run: emacs-pin unpin to use latest overlay commit"));
            }
        },
    }
}

/// Reports the hash on record.
fn report_hash(session: &mut Session, pinned: &str) -> (done: Option<()>)
    ensures
        final(session)@ == old(session)@.report_hash(pinned@).0,
        done == old(session)@.report_hash(pinned@).1,
        done is None ==> final(session)@.phase != Phase::Running,
        done is Some && old(session)@.phase == Phase::Running ==> final(session)@.phase
            == Phase::Running,
{
    match read_cache_file(session, CacheFile::Hash) {
        None => None,
        Some(Some(hash)) => {
            session.say(text3(EMOJI_KEY, " Stored hash (SRI): ", hash.as_str()));
            Some(())
        },
        Some(None) => {
            session.say(
                text2(
                    EMOJI_WARNING,
                    " Warning: No hash file found - pinning may not work correctly",
                ),
            );
            session.say(text3("   Run: emacs-pin pin ", pinned, " to fix"));
            Some(())
        },
    }
}

/// Says what a missing build means.
fn say_rebuild(session: &mut Session)
    ensures
        final(session)@ == old(session)@.say_rebuild(),
{
    session.say(
        String::from_str(
            "   Behavior: will build latest overlay commit and auto-pin to it after switch",
        ),
    );
}

/// Reports the build path on record.
fn report_build_path(session: &mut Session) -> (done: Option<()>)
    ensures
        final(session)@ == old(session)@.report_build_path().0,
        done == old(session)@.report_build_path().1,
        done is None ==> final(session)@.phase != Phase::Running,
        done is Some && old(session)@.phase == Phase::Running ==> final(session)@.phase
            == Phase::Running,
{
    let path = match read_cache_file(session, CacheFile::StorePath) {
        None => {
            return None;
        },
        Some(None) => {
            session.say(text2(EMOJI_WARNING, " Stored build path not found (likely GC'd)"));
            say_rebuild(session);
            return Some(());
        },
        Some(Some(path)) => path,
    };
    match session.ask_flag(Request::PathExists { path: path.clone() }) {
        None => None,
        Some(true) => {
            session.say(text3(EMOJI_PACKAGE, " Stored build path: ", path.as_str()));
            Some(())
        },
        Some(false) => {
            session.say(
                text3(EMOJI_WARNING, " Stored build path not found (was GC'd): ", path.as_str()),
            );
            say_rebuild(session);
            Some(())
        },
    }
}

/// Reports whether the tool is pinned, and if it is, the pin, the hash
/// and the build path.
pub fn report_pin(session: &mut Session, current: &Option<String>) -> (done: Option<()>)
    ensures
        final(session)@ == old(session)@.report_pin(current.deep_view()).0,
        done == old(session)@.report_pin(current.deep_view()).1,
        done is None ==> final(session)@.phase != Phase::Running,
        done is Some && old(session)@.phase == Phase::Running ==> final(session)@.phase
            == Phase::Running,
{
    let pinned = match read_cache_file(session, CacheFile::Pin) {
        None => {
            return None;
        },
        Some(None) => {
            session.say(text2(EMOJI_UNLOCK, " emacs-git is not pinned (using latest from overlay)"));
            if current.is_some() {
                session.say(
                    String::from_str(
                        "   Run: emacs-pin pin (without arguments) to pin to current overlay commit",
                    ),
                );
            }
            return Some(());
        },
        Some(Some(pinned)) => pinned,
    };
    session.say(text3(EMOJI_PIN, " emacs-git is pinned to commit: ", pinned.as_str()));
    let url = commit_page(pinned.as_str());
    session.say(text3(EMOJI_LINK, " View pinned: ", url.as_str()));
    report_match(session, &pinned, current);
    match report_hash(session, pinned.as_str()) {
        None => None,
        Some(_) => report_build_path(session),
    }
}

/// Reports the version of the Emacs that is installed, if one is found.
pub fn report_version(session: &mut Session) -> (done: Option<()>)
    ensures
        final(session)@ == old(session)@.report_version().0,
        done == old(session)@.report_version().1,
        done is None ==> final(session)@.phase != Phase::Running,
        done is Some && old(session)@.phase == Phase::Running ==> final(session)@.phase
            == Phase::Running,
{
    session.say(String::new());
    let which = match session.ask_run(probe_command("which", "emacs")) {
        Some(which) => which,
        None => {
            return None;
        },
    };
    if !has_succeeded(which) {
        return Some(());
    }
    let version = match session.ask_run(probe_command("emacs", "--version")) {
        Some(version) => version,
        None => {
            return None;
        },
    };
    match read_version(version) {
        Some(line) => {
            session.say(String::from_str("Current emacs version:"));
            session.say(text2("  ", line.as_str()));
        },
        None => {},
    }
    Some(())
}

/// Shows the state of the pin: the commit that the overlay provides,
/// the pin with its hash and build path, and the installed version.
/// Returns the exit code, which is 0 whenever the operation comes to its
/// end.
pub fn status(session: &mut Session) -> (code: Option<i32>)
    ensures
        final(session)@ == old(session)@.status().0,
        code == old(session)@.status().1,
        code is None ==> final(session)@.phase != Phase::Running,
        code is Some && old(session)@.phase == Phase::Running ==> final(session)@.phase
            == Phase::Running,
        code matches Some(c) ==> c == 0,
{
    let current = match report_current_commit(session) {
        Some(current) => current,
        None => {
            return None;
        },
    };
    match report_pin(session, &current) {
        Some(_) => {},
        None => {
            return None;
        },
    }
    match report_version(session) {
        Some(_) => Some(0),
        None => None,
    }
}

/// The first part of the status reads no file.
pub proof fn lemma_current_commit_reads_no_file(session: SessionView)
    ensures
        session.report_current_commit().0.continues(session),
        forall|i: int|
            0 <= i < session.report_current_commit().0.asked_since(session).len() ==> !(
            #[trigger] session.report_current_commit().0.asked_since(session)[i] is ReadFile),
{
    let (resolved, config) = session.resolve_config_path();
    let name = RequestView::ReadEnv { name: "DARWIN_CONFIG_PATH"@ };
    let read = session.ask_text(name).0;
    assert(read.asked == session.asked || read.asked == session.asked.push(name));
    assert(resolved.asked == read.asked || exists|path: Seq<char>|
        resolved.asked == read.asked.push(RequestView::PathExists { path })) by {
        match session.ask_text(name).1 {
            Some(Some(path)) => {
                let flake = RequestView::PathExists { path: joined(path, "flake.nix"@) };
                assert(resolved == read.ask_flag(flake).0);
                assert(resolved.asked == read.asked || resolved.asked == read.asked.push(flake));
            },
            _ => {},
        }
    }
    let end = session.report_current_commit().0;
    assert(end.asked == resolved.asked || exists|invocation: InvocationView|
        end.asked == resolved.asked.push(RequestView::Run(invocation))) by {
        match config {
            Some(Ok(config_path)) => {
                let invocation = eval_invocation(
                    config_path,
                    overlay_expression(system_of(session.arch), "rev"@),
                );
                let queried = resolved.ask_run(invocation).0;
                assert(queried.asked == resolved.asked || queried.asked == resolved.asked.push(
                    RequestView::Run(invocation),
                ));
                assert(end.asked == queried.asked);
            },
            _ => {},
        }
    }
    assert(end.asked.subrange(0, session.asked.len() as int) =~= session.asked);
    assert(end.output.subrange(0, session.output.len() as int) =~= session.output);
}

/// The last part of the status reads no file.
pub proof fn lemma_version_reads_no_file(session: SessionView)
    ensures
        session.report_version().0.continues(session),
        forall|i: int|
            0 <= i < session.report_version().0.asked_since(session).len() ==> !(
            #[trigger] session.report_version().0.asked_since(session)[i] is ReadFile),
{
    let which = RequestView::Run(probe_invocation("which"@, "emacs"@));
    let version = RequestView::Run(probe_invocation("emacs"@, "--version"@));
    let end = session.report_version().0;
    assert(end.asked == session.asked || end.asked == session.asked.push(which) || end.asked
        == session.asked.push(which).push(version));
    assert(end.asked.subrange(0, session.asked.len() as int) =~= session.asked);
    assert(end.output.subrange(0, session.output.len() as int) =~= session.output);
}

/// Where there is no pin file, the second part of the status reads that
/// file and asks for nothing else; it says that nothing is pinned.
pub proof fn lemma_report_of_unpinned(session: SessionView, current: Option<Seq<char>>)
    requires
        session.reply_to(RequestView::ReadFile { path: CacheFile::Pin.path(session.cache_dir) })
            == Some(ReplyView::Text(None)),
    ensures
        session.report_pin(current).1 == Some(()),
        session.report_pin(current).0.phase == Phase::Running,
        session.report_pin(current).0.asked == session.asked.push(
            RequestView::ReadFile { path: CacheFile::Pin.path(session.cache_dir) },
        ),
        session.report_pin(current).0.printed_since(session)[0] == (LineView {
            stream: Stream::Stdout,
            text: EMOJI_UNLOCK@ + " emacs-git is not pinned (using latest from overlay)"@,
        }),
{
}

/// A status that finds no pin file reads no other file: neither the hash
/// nor the build path is looked at. It comes to its end with what it says
/// of the unpinned state, if the record reaches that far.
pub proof fn lemma_status_of_unpinned(session: SessionView, i: int)
    requires
        session.report_current_commit().1 is Some,
        session.report_current_commit().0.reply_to(
            RequestView::ReadFile { path: CacheFile::Pin.path(session.cache_dir) },
        ) == Some(ReplyView::Text(None)),
        0 <= i < session.status().0.asked_since(session).len(),
        session.status().0.asked_since(session)[i] is ReadFile,
    ensures
        session.status().0.asked_since(session)[i] == (RequestView::ReadFile {
            path: CacheFile::Pin.path(session.cache_dir),
        }),
{
    let (first, current) = session.report_current_commit();
    let (second, _) = first.report_pin(current->0);
    let (third, _) = second.report_version();
    lemma_current_commit_reads_no_file(session);
    lemma_report_of_unpinned(first, current->0);
    lemma_version_reads_no_file(second);
    assert(session.status().0 == third);
    let made = third.asked_since(session);
    let n = first.asked.len() - session.asked.len();
    if i < n {
        assert(made[i] == first.asked_since(session)[i]) by {
            assert(third.asked.subrange(0, second.asked.len() as int) == second.asked);
            assert(third.asked[session.asked.len() + i] == third.asked.subrange(
                0,
                second.asked.len() as int,
            )[session.asked.len() + i]);
        }
    } else if i == n {
        assert(made[i] == second.asked[first.asked.len() as int]) by {
            assert(third.asked.subrange(0, second.asked.len() as int) == second.asked);
            assert(third.asked[session.asked.len() + i] == third.asked.subrange(
                0,
                second.asked.len() as int,
            )[session.asked.len() + i]);
        }
    } else {
        assert(made[i] == third.asked_since(second)[i - n - 1]);
    }
}

/// The second part of the status changes nothing in the file system.
pub proof fn lemma_report_pin_looks(session: SessionView, current: Option<Seq<char>>)
    ensures
        session.report_pin(current).0.looked_since(session),
{
    let (read, pinned) = session.read_cache_file(CacheFile::Pin);
    lemma_read_looks(session, CacheFile::Pin);
    match pinned {
        Some(Some(pinned)) => {
            let told = read.say(EMOJI_PIN@ + " emacs-git is pinned to commit: "@ + pinned).say(
                EMOJI_LINK@ + " View pinned: "@ + commit_url(pinned),
            ).report_match(pinned, current);
            assert(told.looked_since(read));
            lemma_looked_chain(session, read, told);
            let (hashed, done) = told.report_hash(pinned);
            lemma_read_looks(told, CacheFile::Hash);
            assert(hashed.looked_since(told.read_cache_file(CacheFile::Hash).0));
            lemma_looked_chain(told, told.read_cache_file(CacheFile::Hash).0, hashed);
            lemma_looked_chain(session, told, hashed);
            if done is Some {
                let (stored_read, stored) = hashed.read_cache_file(CacheFile::StorePath);
                lemma_read_looks(hashed, CacheFile::StorePath);
                lemma_looked_chain(session, hashed, stored_read);
                let end = hashed.report_build_path().0;
                match stored {
                    Some(Some(path)) => {
                        let exists = RequestView::PathExists { path };
                        let checked = stored_read.ask_flag(exists).0;
                        lemma_ask_continues(stored_read, exists);
                        lemma_looked_chain(session, stored_read, checked);
                        assert(end.looked_since(checked));
                        lemma_looked_chain(session, checked, end);
                    },
                    _ => {
                        assert(end.looked_since(stored_read));
                        lemma_looked_chain(session, stored_read, end);
                    },
                }
            }
        },
        _ => {
            let end = session.report_pin(current).0;
            assert(end.looked_since(read));
            lemma_looked_chain(session, read, end);
        },
    }
}

/// The status changes nothing in the file system: the cache files are
/// read, never written.
pub proof fn lemma_status_looks(session: SessionView)
    ensures
        session.status().0.looked_since(session),
{
    let (first, current) = session.report_current_commit();
    lemma_current_commit_reads_no_file(session);
    assert(first.looked_since(session)) by {
        let (resolved, config) = session.resolve_config_path();
        lemma_config_path_looks(session);
        match config {
            Some(Ok(config_path)) => {
                let expression = overlay_expression(system_of(session.arch), "rev"@);
                let queried = resolved.evaluate(config_path, expression).0;
                lemma_evaluator_looks(
                    resolved,
                    config_path,
                    expression,
                    Seq::empty(),
                    Seq::empty(),
                );
                lemma_looked_chain(session, resolved, queried);
                assert(first.looked_since(queried));
                lemma_looked_chain(session, queried, first);
            },
            _ => {
                assert(first.looked_since(resolved));
                lemma_looked_chain(session, resolved, first);
            },
        }
    }
    if current is Some {
        let (second, pin) = first.report_pin(current->0);
        lemma_report_pin_looks(first, current->0);
        lemma_looked_chain(session, first, second);
        if pin is Some {
            let third = second.report_version().0;
            lemma_version_reads_no_file(second);
            assert(third.looked_since(second)) by {
                let which = probe_invocation("which"@, "emacs"@);
                let version = probe_invocation("emacs"@, "--version"@);
                let told = second.say(Seq::empty());
                lemma_run_looks(told, which, Seq::empty());
                lemma_run_looks(told.ask_run(which).0, version, Seq::empty());
            }
            lemma_looked_chain(session, second, third);
        }
    }
}

} // verus!
