//! Unpinning: the three cache files are removed.

use crate::cache::read_cache_file;
use crate::emoji::{EMOJI_INFO, EMOJI_LIGHTBULB, EMOJI_UNLOCK};
use crate::paths::CacheFile;
use crate::session::{
    is_change, LineView, Phase, ReplyView, Request, RequestView, Session, SessionView, Stream,
};
use crate::text::{debug_quoted, quote, text2, text3, text4};
use vstd::prelude::*;
use vstd::string::*;

verus! {

/// The list of the names of the removed files after one more file: `name`
/// is added, behind a comma if it is not the first, where the file was
/// removed.
pub open spec fn listed(list: Seq<char>, removed: bool, name: Seq<char>) -> Seq<char> {
    if !removed {
        list
    } else if list.len() == 0 {
        name
    } else {
        list + ", "@ + name
    }
}

/// The warning for a file that could not be removed.
pub open spec fn remove_warning(path: Seq<char>, message: Seq<char>) -> Seq<char> {
    "Warning: Failed to remove "@ + debug_quoted(path) + ": "@ + message
}

impl SessionView {
    /// The session after one cache file was removed, and whether it was
    /// removed. A file that does not exist is left alone; a failure to
    /// remove one is a warning.
    pub open spec fn remove_cache_file(self, file: CacheFile) -> (SessionView, Option<bool>) {
        let path = file.path(self.cache_dir);
        let (checked, exists) = self.ask_flag(RequestView::PathExists { path });
        match exists {
            None => (checked, None),
            Some(false) => (checked, Some(false)),
            Some(true) => {
                let (tried, outcome) = checked.ask_change(RequestView::RemoveFile { path });
                match outcome {
                    None => (tried, None),
                    Some(Ok(_)) => (tried, Some(true)),
                    Some(Err(message)) => (
                        tried.complain(remove_warning(path, message)),
                        Some(false),
                    ),
                }
            },
        }
    }

    /// The session after the three cache files were removed, and the list
    /// of the names of those that were.
    pub open spec fn remove_cache_files(self) -> (SessionView, Option<Seq<char>>) {
        let (first, pin) = self.remove_cache_file(CacheFile::Pin);
        match pin {
            None => (first, None),
            Some(pin) => {
                let (second, hash) = first.remove_cache_file(CacheFile::Hash);
                match hash {
                    None => (second, None),
                    Some(hash) => {
                        let (third, store_path) = second.remove_cache_file(CacheFile::StorePath);
                        match store_path {
                            None => (third, None),
                            Some(store_path) => (
                                third,
                                Some(
                                    listed(
                                        listed(
                                            listed(Seq::empty(), pin, CacheFile::Pin.name()),
                                            hash,
                                            CacheFile::Hash.name(),
                                        ),
                                        store_path,
                                        CacheFile::StorePath.name(),
                                    ),
                                ),
                            ),
                        }
                    },
                }
            },
        }
    }

    /// The session after the pin was removed, and the exit code, which is 0
    /// whenever the operation comes to its end. Where no pin file is read,
    /// nothing is removed.
    pub open spec fn unpin(self) -> (SessionView, Option<i32>) {
        let (read, pinned) = self.read_cache_file(CacheFile::Pin);
        match pinned {
            None => (read, None),
            Some(None) => (
                read.say(EMOJI_INFO@ + " emacs-git is not currently pinned"@),
                Some(0),
            ),
            Some(Some(commit)) => {
                let (removed, list) = read.say(
                    EMOJI_UNLOCK@ + " Unpinning emacs-git from commit: "@ + commit,
                ).remove_cache_files();
                match list {
                    None => (removed, None),
                    Some(list) => {
                        let told = if list.len() > 0 {
                            removed.say("   Removed: "@ + list)
                        } else {
                            removed
                        };
                        (
                            told.say(
                                EMOJI_LIGHTBULB@ + " Rebuild your configuration: nb && ns"@,
                            ).say(
                                "   This will use the latest emacs-git commit from the overlay."@,
                            ),
                            Some(0),
                        )
                    },
                }
            },
        }
    }
}

/// Removes one cache file, if it exists.
pub fn remove_cache_file(session: &mut Session, file: CacheFile) -> (removed: Option<bool>)
    ensures
        final(session)@ == old(session)@.remove_cache_file(file).0,
        removed == old(session)@.remove_cache_file(file).1,
        removed is None ==> final(session)@.phase != Phase::Running,
        removed is Some && old(session)@.phase == Phase::Running ==> final(session)@.phase
            == Phase::Running,
{
    let path = file.file_path(session.cache_dir());
    match session.ask_flag(Request::PathExists { path: path.clone() }) {
        None => {
            return None;
        },
        Some(false) => {
            return Some(false);
        },
        Some(true) => {},
    }
    match session.ask_change(Request::RemoveFile { path: path.clone() }) {
        None => None,
        Some(Ok(_)) => Some(true),
        Some(Err(message)) => {
            let quoted = quote(path.as_str());
            session.complain(
                text4("Warning: Failed to remove ", quoted.as_str(), ": ", message.as_str()),
            );
            Some(false)
        },
    }
}

/// Adds the name of a file to the list of the removed ones, if it was
/// removed.
fn list_removed(list: &mut String, removed: bool, name: &str)
    ensures
        final(list)@ == listed(old(list)@, removed, name@),
{
    if removed {
        if list.as_str().is_empty() {
            assert(list@ + name@ =~= name@);
        } else {
            list.append(", ");
        }
        list.append(name);
    }
}

/// Removes the three cache files, and lists the names of those that were
/// removed.
pub fn remove_cache_files(session: &mut Session) -> (list: Option<String>)
    ensures
        final(session)@ == old(session)@.remove_cache_files().0,
        list.deep_view() == old(session)@.remove_cache_files().1,
        list is None ==> final(session)@.phase != Phase::Running,
        list is Some && old(session)@.phase == Phase::Running ==> final(session)@.phase
            == Phase::Running,
{
    let pin = match remove_cache_file(session, CacheFile::Pin) {
        Some(removed) => removed,
        None => {
            return None;
        },
    };
    let hash = match remove_cache_file(session, CacheFile::Hash) {
        Some(removed) => removed,
        None => {
            return None;
        },
    };
    let store_path = match remove_cache_file(session, CacheFile::StorePath) {
        Some(removed) => removed,
        None => {
            return None;
        },
    };
    let mut list = String::new();
    list_removed(&mut list, pin, CacheFile::Pin.file_name());
    list_removed(&mut list, hash, CacheFile::Hash.file_name());
    list_removed(&mut list, store_path, CacheFile::StorePath.file_name());
    Some(list)
}

/// Removes the pin, so that the next build follows the overlay again.
/// Returns the exit code, which is 0 whenever the operation comes to its
/// end.
pub fn unpin(session: &mut Session) -> (code: Option<i32>)
    ensures
        final(session)@ == old(session)@.unpin().0,
        code == old(session)@.unpin().1,
        code is None ==> final(session)@.phase != Phase::Running,
        code is Some && old(session)@.phase == Phase::Running ==> final(session)@.phase
            == Phase::Running,
        code matches Some(c) ==> c == 0,
{
    let commit = match read_cache_file(session, CacheFile::Pin) {
        None => {
            return None;
        },
        Some(None) => {
            session.say(text2(EMOJI_INFO, " emacs-git is not currently pinned"));
            return Some(0);
        },
        Some(Some(commit)) => commit,
    };
    session.say(text3(EMOJI_UNLOCK, " Unpinning emacs-git from commit: ", commit.as_str()));
    let list = match remove_cache_files(session) {
        Some(list) => list,
        None => {
            return None;
        },
    };
    if !list.as_str().is_empty() {
        session.say(text2("   Removed: ", list.as_str()));
    }
    session.say(text2(EMOJI_LIGHTBULB, " Rebuild your configuration: nb && ns"));
    session.say(
        String::from_str("   This will use the latest emacs-git commit from the overlay."),
    );
    Some(0)
}

/// Unpinning where there is no pin file succeeds, says that nothing is
/// pinned, and asks for nothing but the pin file: no file is removed. As
/// nothing has changed by then, the same holds of the next call, and of
/// every one after it.
pub proof fn lemma_unpin_of_unpinned(session: SessionView)
    requires
        session.reply_to(RequestView::ReadFile { path: CacheFile::Pin.path(session.cache_dir) })
            == Some(ReplyView::Text(None)),
    ensures
        session.unpin().1 == Some(0i32),
        session.unpin().0.phase == Phase::Running,
        session.unpin().0.asked == session.asked.push(
            RequestView::ReadFile { path: CacheFile::Pin.path(session.cache_dir) },
        ),
        session.unpin().0.output == session.output.push(
            LineView {
                stream: Stream::Stdout,
                text: EMOJI_INFO@ + " emacs-git is not currently pinned"@,
            },
        ),
{
}

/// Unpinning asks for a file to be removed only where it has read a pin,
/// and for no other change at all.
pub proof fn lemma_unpin_removes_only_a_pin(session: SessionView, i: int)
    requires
        0 <= i < session.unpin().0.asked_since(session).len(),
        is_change(session.unpin().0.asked_since(session)[i]),
    ensures
        session.unpin().0.asked_since(session)[i] is RemoveFile,
        session.reply_to(
            RequestView::ReadFile { path: CacheFile::Pin.path(session.cache_dir) },
        ) matches Some(ReplyView::Text(Some(_))),
{
    let read = session.read_cache_file(CacheFile::Pin).0.say(
        EMOJI_UNLOCK@ + " Unpinning emacs-git from commit: "@
            + session.read_cache_file(CacheFile::Pin).1->0->0,
    );
    let first = read.remove_cache_file(CacheFile::Pin).0;
    let second = first.remove_cache_file(CacheFile::Hash).0;
    let third = second.remove_cache_file(CacheFile::StorePath).0;
    let end = session.unpin().0;
    assert(end.asked == session.asked || end.asked == read.asked || end.asked == first.asked
        || end.asked == second.asked || end.asked == third.asked);
}

} // verus!
