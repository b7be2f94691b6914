//! The bridge to the hash-fetch helper.
//!
//! `nix-prefetch-github` prints a JSON object that may hold the hash of the
//! fetched source in the canonical encoding (field `hash`), in the legacy
//! encoding (field `sha256`), or both.

use crate::error::{step_view, EmacsError};
use crate::evaluator::{lemma_evaluator_looks, sri_from_base32};
use crate::session::{
    lemma_looked_chain, lemma_run_looks, Completion, CompletionView, Invocation, InvocationView,
    Phase, PrefetchResult, PrefetchView, Session, SessionView,
};
use crate::text::{copy_bytes, decode_lossy, same_text, text2, utf8_lossy};
use vstd::prelude::*;
use vstd::string::*;

verus! {

/// Which of the helper's two fields gives the hash.
#[derive(Debug, PartialEq, Eq)]
pub enum HashChoice {
    /// The hash in the canonical encoding.
    Canonical(String),
    /// Only a hash in the legacy encoding, which has to be converted.
    Legacy(String),
    /// No usable field.
    Neither,
}

pub enum HashChoiceView {
    Canonical(Seq<char>),
    Legacy(Seq<char>),
    Neither,
}

impl DeepView for HashChoice {
    type V = HashChoiceView;

    open spec fn deep_view(&self) -> HashChoiceView {
        match self {
            HashChoice::Canonical(hash) => HashChoiceView::Canonical(hash@),
            HashChoice::Legacy(hash) => HashChoiceView::Legacy(hash@),
            HashChoice::Neither => HashChoiceView::Neither,
        }
    }
}

/// Whether a field holds a hash: it is there, not empty, and not the word
/// `null`.
pub open spec fn usable(field: Option<Seq<char>>) -> bool {
    field matches Some(value) && value.len() > 0 && value != "null"@
}

/// The field that gives the hash: the canonical one if it is usable, else
/// the legacy one if that is.
pub open spec fn chosen_hash(fields: PrefetchView) -> HashChoiceView {
    if usable(fields.hash) {
        HashChoiceView::Canonical(fields.hash->0)
    } else if usable(fields.sha256) {
        HashChoiceView::Legacy(fields.sha256->0)
    } else {
        HashChoiceView::Neither
    }
}

/// The run of the helper for `commit` of the Emacs mirror.
pub open spec fn prefetch_invocation(commit: Seq<char>) -> InvocationView {
    InvocationView {
        program: "nix-prefetch-github"@,
        args: seq!["emacs-mirror"@, "emacs"@, "--rev"@, commit],
        dir: None,
    }
}

/// What the helper's run came to: the bytes on its standard output if it
/// succeeded, else the failure.
pub open spec fn prefetch_outcome(completion: CompletionView) -> Result<Seq<u8>, Seq<char>> {
    match completion {
        CompletionView::Failed { reason } => Err(
            "Failed to execute nix-prefetch-github: "@ + reason,
        ),
        CompletionView::Exited { success, stdout, stderr } => if success {
            Ok(stdout)
        } else {
            Err("nix-prefetch-github failed: "@ + utf8_lossy(stderr))
        },
    }
}

impl SessionView {
    /// The session after the hash of `commit` was fetched: the helper is
    /// run, its answer is read, and a hash in the legacy encoding is
    /// converted.
    pub open spec fn fetch_hash_for_commit(self, commit: Seq<char>) -> (
        SessionView,
        Option<Result<Seq<char>, Seq<char>>>,
    ) {
        let (ran, completion) = self.ask_run(prefetch_invocation(commit));
        match completion {
            None => (ran, None),
            Some(completion) => match prefetch_outcome(completion) {
                Err(failure) => (ran, Some(Err(failure))),
                Ok(json) => {
                    let (read, decoded) = ran.ask_decode(json);
                    match decoded {
                        None => (read, None),
                        Some(Err(message)) => (
                            read,
                            Some(Err("Failed to parse JSON output: "@ + message)),
                        ),
                        Some(Ok(fields)) => match chosen_hash(fields) {
                            HashChoiceView::Canonical(hash) => (read, Some(Ok(hash))),
                            HashChoiceView::Legacy(hash) => read.sri_from_base32(hash),
                            HashChoiceView::Neither => (
                                read,
                                Some(Err("nix-prefetch-github returned no valid hash"@)),
                            ),
                        },
                    }
                },
            },
        }
    }
}

/// Tests whether a field of the helper's answer holds a hash.
pub fn is_usable(field: &Option<String>) -> (yes: bool)
    ensures
        yes == usable(field.deep_view()),
{
    match field {
        Some(value) => !value.as_str().is_empty() && !same_text(value, "null"),
        None => false,
    }
}

/// Picks the field of the helper's answer that gives the hash.
pub fn choose_hash(fields: &PrefetchResult) -> (choice: HashChoice)
    ensures
        choice.deep_view() == chosen_hash(fields.deep_view()),
{
    if is_usable(&fields.hash) {
        match &fields.hash {
            Some(hash) => HashChoice::Canonical(hash.clone()),
            None => HashChoice::Neither,
        }
    } else if is_usable(&fields.sha256) {
        match &fields.sha256 {
            Some(hash) => HashChoice::Legacy(hash.clone()),
            None => HashChoice::Neither,
        }
    } else {
        HashChoice::Neither
    }
}

/// Builds the run of the helper for `commit`.
pub fn prefetch_command(commit: &str) -> (invocation: Invocation)
    ensures
        invocation.deep_view() == prefetch_invocation(commit@),
{
    let mut args: Vec<String> = Vec::new();
    args.push(String::from_str("emacs-mirror"));
    args.push(String::from_str("emacs"));
    args.push(String::from_str("--rev"));
    args.push(String::from_str(commit));
    assert(args.deep_view() =~= seq!["emacs-mirror"@, "emacs"@, "--rev"@, commit@]);
    Invocation { program: String::from_str("nix-prefetch-github"), args, dir: None }
}

/// Reads the end of the helper's run.
pub fn read_prefetch(completion: &Completion) -> (outcome: Result<Vec<u8>, EmacsError>)
    ensures
        match outcome {
            Ok(json) => Ok(json@),
            Err(e) => Err(e@),
        } == prefetch_outcome(completion.deep_view()),
{
    match completion {
        Completion::Failed { reason } => Err(
            EmacsError::new(text2("Failed to execute nix-prefetch-github: ", reason.as_str())),
        ),
        Completion::Exited { success, stdout, stderr } => {
            if *success {
                Ok(copy_bytes(stdout))
            } else {
                let detail = decode_lossy(stderr);
                Err(EmacsError::new(text2("nix-prefetch-github failed: ", detail.as_str())))
            }
        },
    }
}

/// Fetches the hash of the source of `commit_sha`, in the canonical
/// encoding.
pub fn fetch_hash_for_commit(session: &mut Session, commit_sha: &str) -> (hash: Option<
    Result<String, EmacsError>,
>)
    ensures
        final(session)@ == old(session)@.fetch_hash_for_commit(commit_sha@).0,
        step_view(hash) == old(session)@.fetch_hash_for_commit(commit_sha@).1,
        hash is None ==> final(session)@.phase != Phase::Running,
        hash is Some && old(session)@.phase == Phase::Running ==> final(session)@.phase
            == Phase::Running,
{
    let completion = match session.ask_run(prefetch_command(commit_sha)) {
        Some(completion) => completion,
        None => {
            return None;
        },
    };
    let json = match read_prefetch(completion) {
        Ok(json) => json,
        Err(e) => {
            return Some(Err(e));
        },
    };
    match session.ask_decode(json) {
        None => None,
        Some(Err(message)) => Some(
            Err(EmacsError::new(text2("Failed to parse JSON output: ", message.as_str()))),
        ),
        Some(Ok(fields)) => match choose_hash(fields) {
            HashChoice::Canonical(hash) => Some(Ok(hash)),
            HashChoice::Legacy(hash) => sri_from_base32(session, hash.as_str()),
            HashChoice::Neither => Some(
                Err(EmacsError::new(String::from_str("nix-prefetch-github returned no valid hash"))),
            ),
        },
    }
}

/// The hash of a commit is fetched without a change to the file system.
pub proof fn lemma_fetch_looks(session: SessionView, commit: Seq<char>)
    ensures
        session.fetch_hash_for_commit(commit).0.looked_since(session),
{
    let (ran, completion) = session.ask_run(prefetch_invocation(commit));
    lemma_run_looks(session, prefetch_invocation(commit), Seq::empty());
    if completion is Some && prefetch_outcome(completion->0) is Ok {
        let json = prefetch_outcome(completion->0)->Ok_0;
        let (read, decoded) = ran.ask_decode(json);
        lemma_run_looks(ran, prefetch_invocation(commit), json);
        lemma_looked_chain(session, ran, read);
        match decoded {
            Some(Ok(fields)) => match chosen_hash(fields) {
                HashChoiceView::Legacy(hash) => {
                    lemma_evaluator_looks(read, Seq::empty(), Seq::empty(), hash, Seq::empty());
                    lemma_looked_chain(session, read, read.sri_from_base32(hash).0);
                },
                _ => {},
            },
            _ => {},
        }
    }
}

} // verus!
