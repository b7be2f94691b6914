//! The bridge to the package manager's evaluator.
//!
//! Every query is one run of `nix eval` on a small expression, in the
//! directory of the configuration checkout. The text on standard output,
//! trimmed, is the answer; an exit status other than success is a failure
//! whose detail is the text on standard error.

use crate::error::{result_view, step_view, EmacsError};
use crate::session::{
    lemma_ask_continues, lemma_looked_chain, lemma_run_looks, Completion, CompletionView,
    Invocation, InvocationView, Phase, ReplyView, Request, RequestView, Session, SessionView,
};
use crate::text::{decode_lossy, text2, text4, text5, trim, trimmed, utf8_lossy};
use vstd::prelude::*;
use vstd::string::*;

verus! {

/// The expression that reads an attribute of the source of the overlay's
/// `emacs-git` package for the platform `system`.
pub open spec fn overlay_expression(system: Seq<char>, attribute: Seq<char>) -> Seq<char> {
    "\n        let\n          flake = builtins.getFlake (toString ./.);\n          em = flake.inputs.emacs-overlay.packages.\""@
        + system + "\".emacs-git;\n        in em.src."@ + attribute + "\n    "@
}

/// The expression that reads the output path of the configured Emacs that
/// the flake exports for `hostname` on the platform `system`.
pub open spec fn package_expression(system: Seq<char>, hostname: Seq<char>) -> Seq<char> {
    "\n        let\n          flake = builtins.getFlake (toString ./.);\n        in flake.packages.\""@
        + system + "\".\""@ + hostname + "-configuredEmacs\".outPath\n    "@
}

/// The run of the evaluator on `expression` in the checkout at
/// `config_path`.
pub open spec fn eval_invocation(config_path: Seq<char>, expression: Seq<char>) -> InvocationView {
    InvocationView {
        program: "nix"@,
        args: seq!["eval"@, "--raw"@, "--impure"@, "--expr"@, expression],
        dir: Some(config_path),
    }
}

/// The run that converts a hash in the legacy encoding to the canonical
/// one.
pub open spec fn to_sri_invocation(hash: Seq<char>) -> InvocationView {
    InvocationView {
        program: "nix"@,
        args: seq!["hash"@, "to-sri"@, "--type"@, "sha256"@, hash],
        dir: None,
    }
}

/// What the run of a program that prints one text came to: the trimmed text
/// of its standard output if it succeeded; if not, `failure` and the text of
/// its standard error; if it could not be started, the system's reason.
pub open spec fn text_outcome(
    completion: CompletionView,
    program: Seq<char>,
    failure: Seq<char>,
) -> Result<Seq<char>, Seq<char>> {
    match completion {
        CompletionView::Failed { reason } => Err("Failed to execute "@ + program + ": "@ + reason),
        CompletionView::Exited { success, stdout, stderr } => if success {
            Ok(trimmed(utf8_lossy(stdout)))
        } else {
            Err(failure + utf8_lossy(stderr))
        },
    }
}

impl SessionView {
    /// The session after one query to the evaluator, and the answer.
    pub open spec fn evaluate(self, config_path: Seq<char>, expression: Seq<char>) -> (
        SessionView,
        Option<Result<Seq<char>, Seq<char>>>,
    ) {
        let (next, completion) = self.ask_run(eval_invocation(config_path, expression));
        match completion {
            Some(c) => (next, Some(text_outcome(c, "nix"@, "Nix evaluation failed: "@))),
            None => (next, None),
        }
    }

    /// The session after the query for the commit that the overlay provides.
    pub open spec fn extract_current_emacs_commit(
        self,
        config_path: Seq<char>,
        system: Seq<char>,
    ) -> (SessionView, Option<Result<Seq<char>, Seq<char>>>) {
        self.evaluate(config_path, overlay_expression(system, "rev"@))
    }

    /// The session after the query for the store path of the overlay's
    /// source.
    pub open spec fn extract_current_emacs_src_outpath(
        self,
        config_path: Seq<char>,
        system: Seq<char>,
    ) -> (SessionView, Option<Result<Seq<char>, Seq<char>>>) {
        self.evaluate(config_path, overlay_expression(system, "outPath"@))
    }

    /// The session after the conversion of a hash to the canonical
    /// encoding.
    pub open spec fn sri_from_base32(self, hash: Seq<char>) -> (
        SessionView,
        Option<Result<Seq<char>, Seq<char>>>,
    ) {
        let (next, completion) = self.ask_run(to_sri_invocation(hash));
        match completion {
            Some(c) => (next, Some(text_outcome(c, "nix"@, "Hash conversion failed: "@))),
            None => (next, None),
        }
    }

    /// The session after the query for the hash of the overlay's source and
    /// its conversion to the canonical encoding.
    pub open spec fn extract_current_emacs_hash_sri(
        self,
        config_path: Seq<char>,
        system: Seq<char>,
    ) -> (SessionView, Option<Result<Seq<char>, Seq<char>>>) {
        let (next, raw) = self.evaluate(config_path, overlay_expression(system, "outputHash"@));
        match raw {
            Some(Ok(hash)) => next.sri_from_base32(hash),
            other => (next, other),
        }
    }

    /// The session after the query for the output path of the configured
    /// Emacs.
    pub open spec fn extract_configured_emacs_outpath(
        self,
        config_path: Seq<char>,
        hostname: Seq<char>,
        system: Seq<char>,
    ) -> (SessionView, Option<Result<Seq<char>, Seq<char>>>) {
        self.evaluate(config_path, package_expression(system, hostname))
    }

    /// The session after a store path was resolved: the path with its
    /// symbolic links followed, or the path as it was given where that
    /// fails.
    pub open spec fn resolve_store_path(self, path: Seq<char>) -> (
        SessionView,
        Option<Seq<char>>,
    ) {
        let (next, resolved) = self.ask_text(RequestView::Canonicalize { path });
        match resolved {
            Some(Some(target)) => (next, Some(target)),
            Some(None) => (next, Some(path)),
            None => (next, None),
        }
    }
}

/// Builds the expression that reads an attribute of the overlay's source.
pub fn overlay_query(system: &str, attribute: &str) -> (expression: String)
    ensures
        expression@ == overlay_expression(system@, attribute@),
{
    text5(
        "\n        let\n          flake = builtins.getFlake (toString ./.);\n          em = flake.inputs.emacs-overlay.packages.\"",
        system,
        "\".emacs-git;\n        in em.src.",
        attribute,
        "\n    ",
    )
}

/// Builds the expression that reads the output path of the configured
/// Emacs.
pub fn package_query(system: &str, hostname: &str) -> (expression: String)
    ensures
        expression@ == package_expression(system@, hostname@),
{
    text5(
        "\n        let\n          flake = builtins.getFlake (toString ./.);\n        in flake.packages.\"",
        system,
        "\".\"",
        hostname,
        "-configuredEmacs\".outPath\n    ",
    )
}

/// Builds the run of the evaluator on `expression`.
pub fn eval_command(config_path: &str, expression: String) -> (invocation: Invocation)
    ensures
        invocation.deep_view() == eval_invocation(config_path@, expression@),
{
    let mut args: Vec<String> = Vec::new();
    args.push(String::from_str("eval"));
    args.push(String::from_str("--raw"));
    args.push(String::from_str("--impure"));
    args.push(String::from_str("--expr"));
    args.push(expression);
    assert(args.deep_view() =~= seq!["eval"@, "--raw"@, "--impure"@, "--expr"@, expression@]);
    Invocation {
        program: String::from_str("nix"),
        args,
        dir: Some(String::from_str(config_path)),
    }
}

/// Builds the run that converts `hash` to the canonical encoding.
pub fn to_sri_command(hash: &str) -> (invocation: Invocation)
    ensures
        invocation.deep_view() == to_sri_invocation(hash@),
{
    let mut args: Vec<String> = Vec::new();
    args.push(String::from_str("hash"));
    args.push(String::from_str("to-sri"));
    args.push(String::from_str("--type"));
    args.push(String::from_str("sha256"));
    args.push(String::from_str(hash));
    assert(args.deep_view() =~= seq!["hash"@, "to-sri"@, "--type"@, "sha256"@, hash@]);
    Invocation { program: String::from_str("nix"), args, dir: None }
}

/// Reads the end of a run of a program that prints one text.
pub fn read_outcome(completion: &Completion, program: &str, failure: &str) -> (outcome: Result<
    String,
    EmacsError,
>)
    ensures
        result_view(outcome) == text_outcome(completion.deep_view(), program@, failure@),
{
    match completion {
        Completion::Failed { reason } => Err(
            EmacsError::new(text4("Failed to execute ", program, ": ", reason.as_str())),
        ),
        Completion::Exited { success, stdout, stderr } => {
            if *success {
                let text = decode_lossy(stdout);
                Ok(String::from_str(trim(text.as_str())))
            } else {
                let detail = decode_lossy(stderr);
                Err(EmacsError::new(text2(failure, detail.as_str())))
            }
        },
    }
}

/// Puts one query to the evaluator.
pub fn evaluate(session: &mut Session, config_path: &str, expression: String) -> (answer: Option<
    Result<String, EmacsError>,
>)
    ensures
        final(session)@ == old(session)@.evaluate(config_path@, expression@).0,
        step_view(answer) == old(session)@.evaluate(config_path@, expression@).1,
        answer is None ==> final(session)@.phase != Phase::Running,
        answer is Some && old(session)@.phase == Phase::Running ==> final(session)@.phase
            == Phase::Running,
{
    match session.ask_run(eval_command(config_path, expression)) {
        Some(completion) => Some(read_outcome(completion, "nix", "Nix evaluation failed: ")),
        None => None,
    }
}

/// Asks the evaluator for the commit of `emacs-git` that the overlay
/// provides for `system`.
pub fn extract_current_emacs_commit(session: &mut Session, config_path: &str, system: &str) -> (
    commit: Option<Result<String, EmacsError>>
)
    ensures
        final(session)@ == old(session)@.extract_current_emacs_commit(config_path@, system@).0,
        step_view(commit) == old(session)@.extract_current_emacs_commit(config_path@, system@).1,
        commit is None ==> final(session)@.phase != Phase::Running,
        commit is Some && old(session)@.phase == Phase::Running ==> final(session)@.phase
            == Phase::Running,
{
    evaluate(session, config_path, overlay_query(system, "rev"))
}

/// Asks the evaluator for the store path of the overlay's source.
pub fn extract_current_emacs_src_outpath(
    session: &mut Session,
    config_path: &str,
    system: &str,
) -> (path: Option<Result<String, EmacsError>>)
    ensures
        final(session)@ == old(session)@.extract_current_emacs_src_outpath(
            config_path@,
            system@,
        ).0,
        step_view(path) == old(session)@.extract_current_emacs_src_outpath(
            config_path@,
            system@,
        ).1,
        path is None ==> final(session)@.phase != Phase::Running,
        path is Some && old(session)@.phase == Phase::Running ==> final(session)@.phase
            == Phase::Running,
{
    evaluate(session, config_path, overlay_query(system, "outPath"))
}

/// Converts a hash in the legacy encoding to the canonical one, by a run of
/// `nix hash to-sri`.
pub fn sri_from_base32(session: &mut Session, base32_hash: &str) -> (sri: Option<
    Result<String, EmacsError>,
>)
    ensures
        final(session)@ == old(session)@.sri_from_base32(base32_hash@).0,
        step_view(sri) == old(session)@.sri_from_base32(base32_hash@).1,
        sri is None ==> final(session)@.phase != Phase::Running,
        sri is Some && old(session)@.phase == Phase::Running ==> final(session)@.phase
            == Phase::Running,
{
    match session.ask_run(to_sri_command(base32_hash)) {
        Some(completion) => Some(read_outcome(completion, "nix", "Hash conversion failed: ")),
        None => None,
    }
}

/// Asks the evaluator for the hash of the overlay's source, and converts it
/// to the canonical encoding.
pub fn extract_current_emacs_hash_sri(session: &mut Session, config_path: &str, system: &str) -> (
    sri: Option<Result<String, EmacsError>>
)
    ensures
        final(session)@ == old(session)@.extract_current_emacs_hash_sri(config_path@, system@).0,
        step_view(sri) == old(session)@.extract_current_emacs_hash_sri(config_path@, system@).1,
        sri is None ==> final(session)@.phase != Phase::Running,
        sri is Some && old(session)@.phase == Phase::Running ==> final(session)@.phase
            == Phase::Running,
{
    match evaluate(session, config_path, overlay_query(system, "outputHash")) {
        Some(Ok(base32_hash)) => sri_from_base32(session, base32_hash.as_str()),
        Some(Err(e)) => Some(Err(e)),
        None => None,
    }
}

/// Asks the evaluator for the output path of the configured Emacs of
/// `hostname`.
pub fn extract_configured_emacs_outpath(
    session: &mut Session,
    config_path: &str,
    hostname: &str,
    system: &str,
) -> (path: Option<Result<String, EmacsError>>)
    ensures
        final(session)@ == old(session)@.extract_configured_emacs_outpath(
            config_path@,
            hostname@,
            system@,
        ).0,
        step_view(path) == old(session)@.extract_configured_emacs_outpath(
            config_path@,
            hostname@,
            system@,
        ).1,
        path is None ==> final(session)@.phase != Phase::Running,
        path is Some && old(session)@.phase == Phase::Running ==> final(session)@.phase
            == Phase::Running,
{
    evaluate(session, config_path, package_query(system, hostname))
}

/// Resolves a store path to where it really is.
pub fn resolve_store_path(session: &mut Session, path_str: &str) -> (resolved: Option<String>)
    ensures
        final(session)@ == old(session)@.resolve_store_path(path_str@).0,
        resolved.deep_view() == old(session)@.resolve_store_path(path_str@).1,
        resolved is None ==> final(session)@.phase != Phase::Running,
        resolved is Some && old(session)@.phase == Phase::Running ==> final(session)@.phase
            == Phase::Running,
{
    match session.ask_text(Request::Canonicalize { path: String::from_str(path_str) }) {
        Some(Some(target)) => Some(target.clone()),
        Some(None) => Some(String::from_str(path_str)),
        None => None,
    }
}

/// A query to the evaluator, a conversion of a hash and the resolution of a
/// path change nothing in the file system.
pub proof fn lemma_evaluator_looks(
    session: SessionView,
    config_path: Seq<char>,
    expression: Seq<char>,
    hash: Seq<char>,
    path: Seq<char>,
)
    ensures
        session.evaluate(config_path, expression).0.looked_since(session),
        session.sri_from_base32(hash).0.looked_since(session),
        session.resolve_store_path(path).0.looked_since(session),
{
    lemma_run_looks(session, eval_invocation(config_path, expression), Seq::empty());
    lemma_run_looks(session, to_sri_invocation(hash), Seq::empty());
    lemma_ask_continues(session, RequestView::Canonicalize { path });
}

/// A query that fails is not put again: the evaluator is asked once, and
/// the failure, with the text that the evaluator wrote to standard error,
/// is the answer.
pub proof fn lemma_failed_query_is_final(
    session: SessionView,
    config_path: Seq<char>,
    expression: Seq<char>,
    stdout: Seq<u8>,
    stderr: Seq<u8>,
)
    requires
        session.reply_to(RequestView::Run(eval_invocation(config_path, expression))) == Some(
            ReplyView::Ran(CompletionView::Exited { success: false, stdout, stderr }),
        ),
    ensures
        session.evaluate(config_path, expression).1 == Some(
            Err::<Seq<char>, Seq<char>>("Nix evaluation failed: "@ + utf8_lossy(stderr)),
        ),
        session.evaluate(config_path, expression).0.asked == session.asked.push(
            RequestView::Run(eval_invocation(config_path, expression)),
        ),
{
}

/// The query for the hash of the overlay's source, with its conversion,
/// changes nothing in the file system.
pub proof fn lemma_hash_query_looks(session: SessionView, config_path: Seq<char>, system: Seq<char>)
    ensures
        session.extract_current_emacs_hash_sri(config_path, system).0.looked_since(session),
{
    let (next, raw) = session.evaluate(config_path, overlay_expression(system, "outputHash"@));
    lemma_evaluator_looks(
        session,
        config_path,
        overlay_expression(system, "outputHash"@),
        Seq::empty(),
        Seq::empty(),
    );
    match raw {
        Some(Ok(hash)) => {
            lemma_evaluator_looks(next, config_path, Seq::empty(), hash, Seq::empty());
            lemma_looked_chain(session, next, next.sri_from_base32(hash).0);
        },
        _ => {},
    }
}

} // verus!
