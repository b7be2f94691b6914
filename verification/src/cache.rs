//! The cache store: three small text files in one directory.
//!
//! A file is written in four steps: the directory is made, a temporary
//! file is created beside the target, the new content is written to it, and
//! the temporary file is then renamed over the target. Until that last step
//! nothing has touched the target.

use crate::error::{unit_step_view, EmacsError};
use crate::paths::CacheFile;
use crate::session::{Phase, Request, RequestView, Session, SessionView};
use crate::session::{lemma_ask_continues, touches, ReplyView};
use crate::text::{
    lemma_trimmed_is_clean, lemma_trimmed_line, text2, trim, trimmed,
};
use vstd::prelude::*;
use vstd::string::*;

verus! {

/// What is written to a cache file for `content`: the content without the
/// white space at its ends, and a line feed.
pub open spec fn file_text(content: Seq<char>) -> Seq<char> {
    trimmed(content) + "\n"@
}

/// What a cache file holds, given what was read from it (`None`: no file).
pub open spec fn file_content(raw: Option<Seq<char>>) -> Option<Seq<char>> {
    match raw {
        Some(text) => Some(trimmed(text)),
        None => None,
    }
}

/// The failure of a step of a write, or `None` if the step succeeded:
/// `what` and the system's message.
pub open spec fn write_failure(outcome: Result<(), Seq<char>>, what: Seq<char>) -> Option<
    Seq<char>,
> {
    match outcome {
        Ok(_) => None,
        Err(message) => Some(what + message),
    }
}

impl SessionView {
    /// The session after a cache file was read, and what the file holds.
    pub open spec fn read_cache_file(self, file: CacheFile) -> (
        SessionView,
        Option<Option<Seq<char>>>,
    ) {
        let (next, raw) = self.ask_text(RequestView::ReadFile { path: file.path(self.cache_dir) });
        match raw {
            Some(raw) => (next, Some(file_content(raw))),
            None => (next, None),
        }
    }

    /// The session after one step of a write, and the step's failure if it
    /// failed.
    pub open spec fn write_step(self, request: RequestView, what: Seq<char>) -> (
        SessionView,
        Option<Option<Seq<char>>>,
    ) {
        let (next, outcome) = self.ask_change(request);
        match outcome {
            Some(outcome) => (next, Some(write_failure(outcome, what))),
            None => (next, None),
        }
    }

    /// The session after a cache file was written. The four steps are made
    /// in order, and the first that fails ends the write.
    pub open spec fn write_cache_file(self, file: CacheFile, content: Seq<char>) -> (
        SessionView,
        Option<Result<(), Seq<char>>>,
    ) {
        let target = file.path(self.cache_dir);
        let temp = file.temp_path(self.cache_dir);
        let (made, dir_failure) = self.write_step(
            RequestView::CreateDirAll { path: self.cache_dir },
            "Failed to create cache directory: "@,
        );
        match dir_failure {
            None => (made, None),
            Some(Some(failure)) => (made, Some(Err(failure))),
            Some(None) => {
                let (created, create_failure) = made.write_step(
                    RequestView::CreateFile { path: temp },
                    "Failed to create temp file: "@,
                );
                match create_failure {
                    None => (created, None),
                    Some(Some(failure)) => (created, Some(Err(failure))),
                    Some(None) => {
                        let (written, write_failure) = created.write_step(
                            RequestView::WriteText { path: temp, text: file_text(content) },
                            "Failed to write to temp file: "@,
                        );
                        match write_failure {
                            None => (written, None),
                            Some(Some(failure)) => (written, Some(Err(failure))),
                            Some(None) => {
                                let (renamed, rename_failure) = written.write_step(
                                    RequestView::Rename { from: temp, to: target },
                                    "Failed to rename temp file: "@,
                                );
                                match rename_failure {
                                    None => (renamed, None),
                                    Some(Some(failure)) => (renamed, Some(Err(failure))),
                                    Some(None) => (renamed, Some(Ok(()))),
                                }
                            },
                        }
                    },
                }
            },
        }
    }

    /// The session after the cache directory was made.
    pub open spec fn ensure_cache_dir(self) -> (SessionView, Option<Result<(), Seq<char>>>) {
        self.ask_change(RequestView::CreateDirAll { path: self.cache_dir })
    }
}

/// Builds what is written to a cache file for `content`.
pub fn text_to_write(content: &str) -> (text: String)
    ensures
        text@ == file_text(content@),
{
    text2(trim(content), "\n")
}

/// Reads a cache file: its content without the white space at its ends, or
/// `None` if the file cannot be read.
pub fn read_cache_file(session: &mut Session, file: CacheFile) -> (content: Option<Option<String>>)
    ensures
        final(session)@ == old(session)@.read_cache_file(file).0,
        content.deep_view() == old(session)@.read_cache_file(file).1,
        content is None ==> final(session)@.phase != Phase::Running,
        content is Some && old(session)@.phase == Phase::Running ==> final(session)@.phase
            == Phase::Running,
{
    let path = file.file_path(session.cache_dir());
    match session.ask_text(Request::ReadFile { path }) {
        Some(Some(raw)) => Some(Some(String::from_str(trim(raw.as_str())))),
        Some(None) => Some(None),
        None => None,
    }
}

/// Makes one step of a write, and names the step in its failure.
fn write_step(session: &mut Session, request: Request, what: &str) -> (failure: Option<
    Option<EmacsError>,
>)
    ensures
        final(session)@ == old(session)@.write_step(request.deep_view(), what@).0,
        match failure {
            Some(Some(e)) => Some(Some(e@)),
            Some(None) => Some(None),
            None => None,
        } == old(session)@.write_step(request.deep_view(), what@).1,
        failure is None ==> final(session)@.phase != Phase::Running,
        failure is Some && old(session)@.phase == Phase::Running ==> final(session)@.phase
            == Phase::Running,
{
    match session.ask_change(request) {
        Some(Ok(_)) => Some(None),
        Some(Err(message)) => Some(Some(EmacsError::new(text2(what, message.as_str())))),
        None => None,
    }
}

/// Writes a cache file so that it is never seen half written: the content
/// goes to a temporary file, which is then renamed over the target.
pub fn write_cache_file(session: &mut Session, file: CacheFile, content: &str) -> (done: Option<
    Result<(), EmacsError>,
>)
    ensures
        final(session)@ == old(session)@.write_cache_file(file, content@).0,
        unit_step_view(done) == old(session)@.write_cache_file(file, content@).1,
        done is None ==> final(session)@.phase != Phase::Running,
        done is Some && old(session)@.phase == Phase::Running ==> final(session)@.phase
            == Phase::Running,
{
    let cache_dir = session.cache_dir();
    let target = file.file_path(cache_dir);
    let temp = file.temp_file_path(cache_dir);
    match write_step(
        session,
        Request::CreateDirAll { path: String::from_str(cache_dir) },
        "Failed to create cache directory: ",
    ) {
        None => {
            return None;
        },
        Some(Some(e)) => {
            return Some(Err(e));
        },
        Some(None) => {},
    }
    match write_step(
        session,
        Request::CreateFile { path: temp.clone() },
        "Failed to create temp file: ",
    ) {
        None => {
            return None;
        },
        Some(Some(e)) => {
            return Some(Err(e));
        },
        Some(None) => {},
    }
    match write_step(
        session,
        Request::WriteText { path: temp.clone(), text: text_to_write(content) },
        "Failed to write to temp file: ",
    ) {
        None => {
            return None;
        },
        Some(Some(e)) => {
            return Some(Err(e));
        },
        Some(None) => {},
    }
    match write_step(
        session,
        Request::Rename { from: temp, to: target },
        "Failed to rename temp file: ",
    ) {
        None => None,
        Some(Some(e)) => Some(Err(e)),
        Some(None) => Some(Ok(())),
    }
}

/// Makes the cache directory, and the directories above it. The error is
/// the system's message.
pub fn ensure_cache_dir(session: &mut Session) -> (done: Option<Result<(), EmacsError>>)
    ensures
        final(session)@ == old(session)@.ensure_cache_dir().0,
        unit_step_view(done) == old(session)@.ensure_cache_dir().1,
        done is None ==> final(session)@.phase != Phase::Running,
        done is Some && old(session)@.phase == Phase::Running ==> final(session)@.phase
            == Phase::Running,
{
    let path = String::from_str(session.cache_dir());
    match session.ask_change(Request::CreateDirAll { path }) {
        Some(Ok(_)) => Some(Ok(())),
        Some(Err(message)) => Some(Err(EmacsError::new(message.clone()))),
        None => None,
    }
}

/// Reading a cache file changes nothing in the file system.
pub proof fn lemma_read_looks(session: SessionView, file: CacheFile)
    ensures
        session.read_cache_file(file).0.looked_since(session),
{
    lemma_ask_continues(session, RequestView::ReadFile { path: file.path(session.cache_dir) });
}

/// The requests of a write of `content` to `file`, in their order.
pub open spec fn write_plan(cache_dir: Seq<char>, file: CacheFile, content: Seq<char>) -> Seq<
    RequestView,
> {
    seq![
        RequestView::CreateDirAll { path: cache_dir },
        RequestView::CreateFile { path: file.temp_path(cache_dir) },
        RequestView::WriteText { path: file.temp_path(cache_dir), text: file_text(content) },
        RequestView::Rename { from: file.temp_path(cache_dir), to: file.path(cache_dir) },
    ]
}

/// What was written for a content reads back as that content without the
/// white space at its ends.
pub proof fn lemma_written_text_reads_back(content: Seq<char>)
    ensures
        file_content(Some(file_text(content))) == Some(trimmed(content)),
{
    lemma_trimmed_is_clean(content);
    lemma_trimmed_line(trimmed(content));
}

/// Where a cache file holds what a write of `content` put there, reading it
/// gives `content` without the white space at its ends. This holds of each
/// of the three files.
pub proof fn lemma_read_after_write(session: SessionView, file: CacheFile, content: Seq<char>)
    requires
        session.reply_to(RequestView::ReadFile { path: file.path(session.cache_dir) }) == Some(
            ReplyView::Text(Some(file_text(content))),
        ),
    ensures
        session.read_cache_file(file).1 == Some(Some(trimmed(content))),
{
    lemma_written_text_reads_back(content);
}

/// A write makes the requests of its plan, in order and from the first,
/// and no others. It makes all four exactly if no step fails and the
/// session has a reply for each.
pub proof fn lemma_write_follows_plan(session: SessionView, file: CacheFile, content: Seq<char>)
    ensures
        ({
            let (end, done) = session.write_cache_file(file, content);
            let made = end.asked_since(session);
            let plan = write_plan(session.cache_dir, file, content);
            &&& end.continues(session)
            &&& made.len() <= plan.len()
            &&& made == plan.subrange(0, made.len() as int)
            &&& done == Some(Ok::<(), Seq<char>>(())) ==> made == plan
        }),
{
    let plan = write_plan(session.cache_dir, file, content);
    let (made, _) = session.write_step(plan[0], "Failed to create cache directory: "@);
    let (created, _) = made.write_step(plan[1], "Failed to create temp file: "@);
    let (written, _) = created.write_step(plan[2], "Failed to write to temp file: "@);
    let (renamed, _) = written.write_step(plan[3], "Failed to rename temp file: "@);
    let end = session.write_cache_file(file, content).0;
    assert(end == session || end == made || end == created || end == written || end == renamed);
    assert(made.asked == session.asked || made.asked == session.asked.push(plan[0]));
    assert(created.asked == made.asked || created.asked == made.asked.push(plan[1]));
    assert(written.asked == created.asked || written.asked == created.asked.push(plan[2]));
    assert(renamed.asked == written.asked || renamed.asked == written.asked.push(plan[3]));
    assert(end.asked.subrange(0, session.asked.len() as int) =~= session.asked);
    assert(end.output.subrange(0, session.output.len() as int) =~= session.output);
    let asked = end.asked_since(session);
    assert(asked =~= plan.subrange(0, asked.len() as int));
    if session.write_cache_file(file, content).1 == Some(Ok::<(), Seq<char>>(())) {
        assert(asked =~= plan);
    }
}

/// A write removes no file.
pub proof fn lemma_write_keeps(session: SessionView, file: CacheFile, content: Seq<char>)
    ensures
        session.write_cache_file(file, content).0.kept_since(session),
{
    lemma_write_follows_plan(session, file, content);
    let end = session.write_cache_file(file, content).0;
    let made = end.asked_since(session);
    let plan = write_plan(session.cache_dir, file, content);
    assert forall|i: int| session.asked.len() <= i < end.asked.len() implies !(
    #[trigger] end.asked[i] is RemoveFile) by {
        assert(end.asked[i] == made[i - session.asked.len()]);
        assert(made[i - session.asked.len()] == plan.subrange(0, made.len() as int)[i
            - session.asked.len()]);
    }
}

/// The temporary file of a cache file is another file.
pub proof fn lemma_temp_is_not_target(cache_dir: Seq<char>, file: CacheFile)
    ensures
        file.temp_path(cache_dir) != file.path(cache_dir),
{
    reveal_strlit(".tmp");
    assert(file.temp_path(cache_dir).len() == file.path(cache_dir).len() + 4);
}

/// No request of a write but the last, the rename, touches the file that
/// is written: a write that is cut short before the rename leaves the file
/// as it was, or leaves it absent.
pub proof fn lemma_write_touches_target_last(
    session: SessionView,
    file: CacheFile,
    content: Seq<char>,
    i: int,
)
    requires
        0 <= i < session.write_cache_file(file, content).0.asked_since(session).len(),
        !(session.write_cache_file(file, content).0.asked_since(session)[i] is Rename),
    ensures
        !touches(
            session.write_cache_file(file, content).0.asked_since(session)[i],
            file.path(session.cache_dir),
        ),
{
    lemma_write_follows_plan(session, file, content);
    lemma_temp_is_not_target(session.cache_dir, file);
    let made = session.write_cache_file(file, content).0.asked_since(session);
    let plan = write_plan(session.cache_dir, file, content);
    assert(made[i] == plan.subrange(0, made.len() as int)[i]);
    assert(made[i] == plan[i]);
}

} // verus!
