//! The comparison of the pin with the commit that the overlay provides.

use crate::cache::{lemma_read_looks, read_cache_file};
use crate::config::{lemma_config_path_looks, resolve_config_path};
use crate::emoji::{
    EMOJI_CHART, EMOJI_ERROR, EMOJI_LIGHTBULB, EMOJI_LINK, EMOJI_PIN, EMOJI_SUCCESS, EMOJI_UNLOCK,
};
use crate::evaluator::{
    extract_current_emacs_commit, lemma_evaluator_looks, overlay_expression,
};
use crate::host::{get_system_architecture, system_of};
use crate::paths::CacheFile;
use crate::session::{
    lemma_looked_chain, lemma_print_looks, Phase, ReplyView, RequestView, Session, SessionView,
    Stream,
};
use crate::text::{same_text, text2, text3, text4, trimmed};
use vstd::prelude::*;

verus! {

/// The address of the page that compares two commits of the Emacs mirror.
pub open spec fn compare_url(pinned: Seq<char>, current: Seq<char>) -> Seq<char> {
    "https://github.com/emacs-mirror/emacs/compare/"@ + pinned + "..."@ + current
}

impl SessionView {
    /// The session after the report for a tool that is not pinned.
    pub open spec fn report_unpinned(self, current: Seq<char>) -> SessionView {
        self.say(EMOJI_UNLOCK@ + " emacs-git is not pinned"@).say(
            EMOJI_CHART@ + " Current overlay commit: "@ + current,
        ).say(Seq::empty()).say(
            EMOJI_LIGHTBULB@ + " To pin to current: emacs-pin pin (without arguments)"@,
        )
    }

    /// The session after the report for a pin that is the current commit.
    pub open spec fn report_up_to_date(self, pinned: Seq<char>) -> SessionView {
        self.say(EMOJI_SUCCESS@ + " Pinned commit matches current overlay commit"@).say(
            "   Commit: "@ + pinned,
        )
    }

    /// The session after the report for a pin that is not the current
    /// commit: both commits, and where to compare them.
    pub open spec fn report_difference(self, pinned: Seq<char>, current: Seq<char>) -> SessionView {
        self.say(EMOJI_PIN@ + " Pinned commit: "@ + pinned).say(
            EMOJI_CHART@ + " Current commit: "@ + current,
        ).say(Seq::empty()).say(EMOJI_LINK@ + " Compare commits:"@).say(
            "   "@ + compare_url(pinned, current),
        ).say(Seq::empty()).say(
            EMOJI_LIGHTBULB@ + " To update to current: emacs-pin pin (without arguments)"@,
        ).say(EMOJI_LIGHTBULB@ + " To unpin: emacs-pin unpin"@)
    }

    /// The session after the pin was compared with `current`, the commit
    /// that the overlay provides. The exit code is 0 in each of the three
    /// cases.
    pub open spec fn compare_pin(self, current: Seq<char>) -> (SessionView, Option<i32>) {
        let (read, pinned) = self.read_cache_file(CacheFile::Pin);
        match pinned {
            None => (read, None),
            Some(None) => (read.report_unpinned(current), Some(0)),
            Some(Some(pinned)) => if pinned == current {
                (read.report_up_to_date(pinned), Some(0))
            } else {
                (read.report_difference(pinned, current), Some(0))
            },
        }
    }

    /// The session after the comparison, and the exit code: 1 if the
    /// current commit cannot be determined, else 0.
    pub open spec fn diff(self) -> (SessionView, Option<i32>) {
        let (resolved, config) = self.resolve_config_path();
        match config {
            None => (resolved, None),
            Some(Err(e)) => (resolved.complain(e), Some(1)),
            Some(Ok(config_path)) => {
                let (queried, commit) = resolved.extract_current_emacs_commit(
                    config_path,
                    system_of(self.arch),
                );
                match commit {
                    None => (queried, None),
                    Some(Err(e)) => (
                        queried.complain(
                            EMOJI_ERROR@
                                + " Could not extract current emacs-git commit from configuration"@,
                        ).complain("   Error: "@ + e),
                        Some(1),
                    ),
                    Some(Ok(current)) => queried.compare_pin(current),
                }
            },
        }
    }
}

/// Builds the address of the page that compares two commits.
pub fn comparison_url(pinned: &str, current: &str) -> (url: String)
    ensures
        url@ == compare_url(pinned@, current@),
{
    text4("https://github.com/emacs-mirror/emacs/compare/", pinned, "...", current)
}

/// Compares the pin with `current` and reports.
pub fn compare_pin(session: &mut Session, current: &str) -> (code: Option<i32>)
    ensures
        final(session)@ == old(session)@.compare_pin(current@).0,
        code == old(session)@.compare_pin(current@).1,
        code is None ==> final(session)@.phase != Phase::Running,
        code is Some && old(session)@.phase == Phase::Running ==> final(session)@.phase
            == Phase::Running,
        code matches Some(c) ==> c == 0,
{
    let pinned = match read_cache_file(session, CacheFile::Pin) {
        None => {
            return None;
        },
        Some(None) => {
            session.say(text2(EMOJI_UNLOCK, " emacs-git is not pinned"));
            session.say(text3(EMOJI_CHART, " Current overlay commit: ", current));
            session.say(String::new());
            session.say(
                text2(EMOJI_LIGHTBULB, " To pin to current: emacs-pin pin (without arguments)"),
            );
            return Some(0);
        },
        Some(Some(pinned)) => pinned,
    };
    if same_text(&pinned, current) {
        session.say(text2(EMOJI_SUCCESS, " Pinned commit matches current overlay commit"));
        session.say(text2("   Commit: ", pinned.as_str()));
        return Some(0);
    }
    session.say(text3(EMOJI_PIN, " Pinned commit: ", pinned.as_str()));
    session.say(text3(EMOJI_CHART, " Current commit: ", current));
    session.say(String::new());
    session.say(text2(EMOJI_LINK, " Compare commits:"));
    let url = comparison_url(pinned.as_str(), current);
    session.say(text2("   ", url.as_str()));
    session.say(String::new());
    session.say(
        text2(EMOJI_LIGHTBULB, " To update to current: emacs-pin pin (without arguments)"),
    );
    session.say(text2(EMOJI_LIGHTBULB, " To unpin: emacs-pin unpin"));
    Some(0)
}

/// Compares the pinned commit with the commit that the overlay provides.
/// Returns the exit code: 1 if the current commit cannot be determined,
/// else 0.
pub fn diff(session: &mut Session) -> (code: Option<i32>)
    ensures
        final(session)@ == old(session)@.diff().0,
        code == old(session)@.diff().1,
        code is None ==> final(session)@.phase != Phase::Running,
        code is Some && old(session)@.phase == Phase::Running ==> final(session)@.phase
            == Phase::Running,
        code matches Some(c) ==> c == 0 || c == 1,
{
    let config_path = match resolve_config_path(session) {
        Some(Ok(path)) => path,
        Some(Err(e)) => {
            session.complain(e.message);
            return Some(1);
        },
        None => {
            return None;
        },
    };
    let system = get_system_architecture(session.arch());
    let current = match extract_current_emacs_commit(
        session,
        config_path.as_str(),
        system.as_str(),
    ) {
        Some(Ok(commit)) => commit,
        Some(Err(e)) => {
            session.complain(
                text2(
                    EMOJI_ERROR,
                    " Could not extract current emacs-git commit from configuration",
                ),
            );
            session.complain(text2("   Error: ", e.message.as_str()));
            return Some(1);
        },
        None => {
            return None;
        },
    };
    compare_pin(session, current.as_str())
}

/// Where the pin file holds the commit that the overlay provides, the
/// comparison reports that the pin is up to date, and the exit code is 0.
pub proof fn lemma_compare_equal(session: SessionView, current: Seq<char>, pin_text: Seq<char>)
    requires
        session.reply_to(RequestView::ReadFile { path: CacheFile::Pin.path(session.cache_dir) })
            == Some(ReplyView::Text(Some(pin_text))),
        trimmed(pin_text) == current,
    ensures
        session.compare_pin(current).1 == Some(0i32),
        session.compare_pin(current).0 == session.read_cache_file(
            CacheFile::Pin,
        ).0.report_up_to_date(current),
{
}

/// Where the pin file holds another commit than the overlay provides, the
/// comparison reports both, with the address of the page that compares the
/// pinned commit with the current one, and the exit code is 0.
pub proof fn lemma_compare_different(session: SessionView, current: Seq<char>, pin_text: Seq<char>)
    requires
        session.reply_to(RequestView::ReadFile { path: CacheFile::Pin.path(session.cache_dir) })
            == Some(ReplyView::Text(Some(pin_text))),
        trimmed(pin_text) != current,
    ensures
        session.compare_pin(current).1 == Some(0i32),
        session.compare_pin(current).0 == session.read_cache_file(
            CacheFile::Pin,
        ).0.report_difference(trimmed(pin_text), current),
        session.compare_pin(current).0.printed_since(session)[4].text == "   "@ + compare_url(
            trimmed(pin_text),
            current,
        ),
{
}

/// A comparison with a known current commit reads the pin file and
/// changes nothing.
pub proof fn lemma_compare_looks(session: SessionView, current: Seq<char>)
    ensures
        session.compare_pin(current).0.looked_since(session),
{
    let read = session.read_cache_file(CacheFile::Pin).0;
    lemma_read_looks(session, CacheFile::Pin);
    let end = session.compare_pin(current).0;
    assert(end.asked == read.asked);
    assert(end.looked_since(read));
    lemma_looked_chain(session, read, end);
}

/// The comparison changes nothing in the file system: the cache files are
/// read, never written.
pub proof fn lemma_diff_looks(session: SessionView)
    ensures
        session.diff().0.looked_since(session),
{
    let (resolved, config) = session.resolve_config_path();
    lemma_config_path_looks(session);
    match config {
        Some(Ok(config_path)) => {
            let expression = overlay_expression(system_of(session.arch), "rev"@);
            let (queried, commit) = resolved.evaluate(config_path, expression);
            lemma_evaluator_looks(resolved, config_path, expression, Seq::empty(), Seq::empty());
            lemma_looked_chain(session, resolved, queried);
            match commit {
                Some(Ok(current)) => {
                    lemma_compare_looks(queried, current);
                    lemma_looked_chain(session, queried, queried.compare_pin(current).0);
                },
                Some(Err(e)) => {
                    let end = session.diff().0;
                    assert(end.asked == queried.asked);
                    assert(end.looked_since(queried));
                    lemma_looked_chain(session, queried, end);
                },
                None => {},
            }
        },
        Some(Err(e)) => {
            lemma_print_looks(resolved, Stream::Stderr, e);
            lemma_looked_chain(session, resolved, resolved.complain(e));
        },
        None => {},
    }
}

} // verus!
