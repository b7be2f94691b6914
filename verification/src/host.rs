//! What the tool knows of the machine it runs on.

use crate::session::{
    lemma_ask_continues, lemma_looked_chain, lemma_run_looks, Completion, CompletionView,
    Invocation, InvocationView, Phase, Reply, Request, RequestView, Session, SessionView,
};
use crate::text::{decode_lossy, same_text, short_name, shorten, trim, trimmed, utf8_lossy};
use vstd::prelude::*;
use vstd::string::*;

verus! {

/// The platform that the package manager builds for on a machine of the
/// architecture `arch`.
pub open spec fn system_of(arch: Seq<char>) -> Seq<char> {
    if arch == "x86_64"@ {
        "x86_64-darwin"@
    } else {
        "aarch64-darwin"@
    }
}

/// The run of `hostname -s`.
pub open spec fn hostname_invocation() -> InvocationView {
    InvocationView { program: "hostname"@, args: seq!["-s"@], dir: None }
}

/// The host name that a run of `hostname -s` gives: its trimmed output, or
/// `unknown` if it failed.
pub open spec fn hostname_outcome(completion: CompletionView) -> Seq<char> {
    match completion {
        CompletionView::Exited { success: true, stdout, .. } => trimmed(utf8_lossy(stdout)),
        _ => "unknown"@,
    }
}

impl SessionView {
    /// The session after the host name was determined: the name that the
    /// system reports, else the value of `HOSTNAME`, each without its
    /// domain, else what `hostname -s` prints, else `unknown`.
    pub open spec fn get_hostname(self) -> (SessionView, Option<Seq<char>>) {
        let (asked, reported) = self.ask_text(RequestView::Hostname);
        match reported {
            None => (asked, None),
            Some(Some(name)) => (asked, Some(short_name(name))),
            Some(None) => {
                let (read, value) = asked.ask_text(RequestView::ReadEnv { name: "HOSTNAME"@ });
                match value {
                    None => (read, None),
                    Some(Some(name)) => (read, Some(short_name(name))),
                    Some(None) => {
                        let (ran, completion) = read.ask_run(hostname_invocation());
                        match completion {
                            None => (ran, None),
                            Some(completion) => (ran, Some(hostname_outcome(completion))),
                        }
                    },
                }
            },
        }
    }
}

/// The platform string for the architecture `arch`: `x86_64-darwin` for
/// `x86_64`, and `aarch64-darwin` for `aarch64` and for every other one.
pub fn get_system_architecture(arch: &str) -> (system: String)
    ensures
        system@ == system_of(arch@),
{
    let arch = String::from_str(arch);
    if same_text(&arch, "x86_64") {
        String::from_str("x86_64-darwin")
    } else {
        String::from_str("aarch64-darwin")
    }
}

/// Reads the end of a run of `hostname -s`.
pub fn read_hostname(completion: &Completion) -> (name: String)
    ensures
        name@ == hostname_outcome(completion.deep_view()),
{
    match completion {
        Completion::Exited { success: true, stdout, .. } => {
            let text = decode_lossy(stdout);
            String::from_str(trim(text.as_str()))
        },
        _ => String::from_str("unknown"),
    }
}

/// Determines the short name of this host.
pub fn get_hostname(session: &mut Session) -> (hostname: Option<String>)
    ensures
        final(session)@ == old(session)@.get_hostname().0,
        hostname.deep_view() == old(session)@.get_hostname().1,
        hostname is None ==> final(session)@.phase != Phase::Running,
        hostname is Some && old(session)@.phase == Phase::Running ==> final(session)@.phase
            == Phase::Running,
{
    match session.ask_text(Request::Hostname) {
        None => {
            return None;
        },
        Some(Some(name)) => {
            return Some(String::from_str(shorten(name.as_str())));
        },
        Some(None) => {},
    }
    match session.ask_text(Request::ReadEnv { name: String::from_str("HOSTNAME") }) {
        None => {
            return None;
        },
        Some(Some(name)) => {
            return Some(String::from_str(shorten(name.as_str())));
        },
        Some(None) => {},
    }
    let mut args: Vec<String> = Vec::new();
    args.push(String::from_str("-s"));
    assert(args.deep_view() =~= seq!["-s"@]);
    let invocation = Invocation { program: String::from_str("hostname"), args, dir: None };
    match session.ask_run(invocation) {
        None => None,
        Some(completion) => Some(read_hostname(completion)),
    }
}

/// Asks the `hostname` crate for the name of this host (`hostname::get`).
/// The answer depends on the machine, so nothing is said of it. An error of
/// the system call, or a name that is not Unicode, comes back as `None`.
#[verifier::external_body]
fn system_hostname() -> (name: Option<String>) {
    hostname::get().ok().and_then(|name| name.into_string().ok())
}

/// Answers the one request that needs neither a file nor another program:
/// the host name that the system reports. For every other request the
/// result is `None`, and the caller has to perform it.
pub fn answer(request: &Request) -> (reply: Option<Reply>)
    ensures
        reply is Some <==> request.deep_view() is Hostname,
        reply matches Some(r) ==> r.deep_view() is Text,
{
    match request {
        Request::Hostname => Some(Reply::Text(system_hostname())),
        _ => None,
    }
}

/// The host name is determined without a change to the file system.
pub proof fn lemma_hostname_looks(session: SessionView)
    ensures
        session.get_hostname().0.looked_since(session),
{
    let (asked, reported) = session.ask_text(RequestView::Hostname);
    lemma_ask_continues(session, RequestView::Hostname);
    if reported == Some(None::<Seq<char>>) {
        let name = RequestView::ReadEnv { name: "HOSTNAME"@ };
        let (read, value) = asked.ask_text(name);
        lemma_ask_continues(asked, name);
        lemma_looked_chain(session, asked, read);
        if value == Some(None::<Seq<char>>) {
            lemma_run_looks(read, hostname_invocation(), Seq::empty());
            lemma_looked_chain(session, read, read.ask_run(hostname_invocation()).0);
        }
    }
}

} // verus!
