//! Where the configuration checkout is.

use crate::emoji::EMOJI_ERROR;
use crate::error::{step_view, EmacsError};
use crate::paths::{join, joined};
use crate::session::{
    lemma_ask_continues, lemma_looked_chain, Phase, Request, RequestView, Session, SessionView,
};
use crate::text::{text2, text5};
use vstd::prelude::*;
use vstd::string::*;

verus! {

/// What is reported when the variable that names the checkout is not set.
pub open spec fn config_path_unset() -> Seq<char> {
    EMOJI_ERROR@ + " DARWIN_CONFIG_PATH is not set\n  Please run: nix run .#record-config-path"@
}

/// What is reported when the directory `path` holds no `flake.nix`.
pub open spec fn config_path_invalid(path: Seq<char>) -> Seq<char> {
    EMOJI_ERROR@ + " DARWIN_CONFIG_PATH ("@ + path
        + ") does not point to a darwin-config checkout\n  Expected to find: "@ + joined(
        path,
        "flake.nix"@,
    )
}

impl SessionView {
    /// The session after the configuration checkout was looked up: the
    /// value of `DARWIN_CONFIG_PATH`, if it is set and a `flake.nix` exists
    /// in that directory.
    pub open spec fn resolve_config_path(self) -> (
        SessionView,
        Option<Result<Seq<char>, Seq<char>>>,
    ) {
        let (read, value) = self.ask_text(RequestView::ReadEnv { name: "DARWIN_CONFIG_PATH"@ });
        match value {
            None => (read, None),
            Some(None) => (read, Some(Err(config_path_unset()))),
            Some(Some(path)) => {
                let (checked, exists) = read.ask_flag(
                    RequestView::PathExists { path: joined(path, "flake.nix"@) },
                );
                match exists {
                    None => (checked, None),
                    Some(true) => (checked, Some(Ok(path))),
                    Some(false) => (checked, Some(Err(config_path_invalid(path)))),
                }
            },
        }
    }
}

/// Looks up the configuration checkout that `DARWIN_CONFIG_PATH` names. It
/// is an error if the variable is not set, or if the directory holds no
/// `flake.nix`.
pub fn resolve_config_path(session: &mut Session) -> (path: Option<Result<String, EmacsError>>)
    ensures
        final(session)@ == old(session)@.resolve_config_path().0,
        step_view(path) == old(session)@.resolve_config_path().1,
        path is None ==> final(session)@.phase != Phase::Running,
        path is Some && old(session)@.phase == Phase::Running ==> final(session)@.phase
            == Phase::Running,
{
    let value = session.ask_text(
        Request::ReadEnv { name: String::from_str("DARWIN_CONFIG_PATH") },
    );
    match value {
        None => None,
        Some(None) => Some(
            Err(
                EmacsError::new(
                    text2(
                        EMOJI_ERROR,
                        " DARWIN_CONFIG_PATH is not set\n  Please run: nix run .#record-config-path",
                    ),
                ),
            ),
        ),
        Some(Some(path)) => {
            let flake_file = join(path.as_str(), "flake.nix");
            match session.ask_flag(Request::PathExists { path: flake_file.clone() }) {
                None => None,
                Some(true) => Some(Ok(path.clone())),
                Some(false) => Some(
                    Err(
                        EmacsError::new(
                            text5(
                                EMOJI_ERROR,
                                " DARWIN_CONFIG_PATH (",
                                path.as_str(),
                                ") does not point to a darwin-config checkout\n  Expected to find: ",
                                flake_file.as_str(),
                            ),
                        ),
                    ),
                ),
            }
        },
    }
}

/// The lookup of the checkout changes nothing in the file system.
pub proof fn lemma_config_path_looks(session: SessionView)
    ensures
        session.resolve_config_path().0.looked_since(session),
{
    let name = RequestView::ReadEnv { name: "DARWIN_CONFIG_PATH"@ };
    let (read, value) = session.ask_text(name);
    lemma_ask_continues(session, name);
    match value {
        Some(Some(path)) => {
            let flake = RequestView::PathExists { path: joined(path, "flake.nix"@) };
            lemma_ask_continues(read, flake);
            lemma_looked_chain(session, read, read.ask_flag(flake).0);
        },
        _ => {},
    }
}

} // verus!
