//! The record of what the outside world has answered.
//!
//! The library neither reads files nor starts programs. An operation that
//! needs something from outside makes a [`Request`]. If the [`Session`] has
//! that request on record, with its [`Reply`], the operation goes on with
//! the reply; if the record has come to its end, the session stops, and the
//! caller performs the pending request, adds the exchange to the record, and
//! runs the operation again on the longer record. A reply is never used for
//! another request than the one it was given to: where the record holds
//! another request than the operation makes, the session stops for good.

use vstd::prelude::*;

verus! {

/// Where a line of output goes.
#[derive(Clone, Copy, Debug, PartialEq, Eq, Structural)]
pub enum Stream {
    Stdout,
    Stderr,
}

/// One line of output, without its line end.
#[derive(Debug, PartialEq, Eq)]
pub struct Line {
    pub stream: Stream,
    pub text: String,
}

/// A line, with a text in place of the string.
pub struct LineView {
    pub stream: Stream,
    pub text: Seq<char>,
}

impl DeepView for Line {
    type V = LineView;

    open spec fn deep_view(&self) -> LineView {
        LineView { stream: self.stream, text: self.text@ }
    }
}

/// A program to start, its arguments, and the directory to start it in
/// (`None` for the caller's own).
#[derive(Debug, PartialEq, Eq)]
pub struct Invocation {
    pub program: String,
    pub args: Vec<String>,
    pub dir: Option<String>,
}

/// An invocation, with texts in place of the strings.
pub struct InvocationView {
    pub program: Seq<char>,
    pub args: Seq<Seq<char>>,
    pub dir: Option<Seq<char>>,
}

impl DeepView for Invocation {
    type V = InvocationView;

    open spec fn deep_view(&self) -> InvocationView {
        InvocationView {
            program: self.program@,
            args: self.args.deep_view(),
            dir: self.dir.deep_view(),
        }
    }
}

/// How the run of a program ended.
#[derive(Debug, PartialEq, Eq)]
pub enum Completion {
    /// The program could not be started; `reason` is the system's message.
    Failed { reason: String },
    /// The program ran and exited.
    Exited { success: bool, stdout: Vec<u8>, stderr: Vec<u8> },
}

/// A completion, with a text and bytes in place of the string and vectors.
pub enum CompletionView {
    Failed { reason: Seq<char> },
    Exited { success: bool, stdout: Seq<u8>, stderr: Seq<u8> },
}

impl DeepView for Completion {
    type V = CompletionView;

    open spec fn deep_view(&self) -> CompletionView {
        match self {
            Completion::Failed { reason } => CompletionView::Failed { reason: reason@ },
            Completion::Exited { success, stdout, stderr } => CompletionView::Exited {
                success: *success,
                stdout: stdout@,
                stderr: stderr@,
            },
        }
    }
}

/// The two fields of the hash-fetch helper's answer that the library reads.
/// A field that is missing or `null` is `None`.
#[derive(Debug, PartialEq, Eq)]
pub struct PrefetchResult {
    pub hash: Option<String>,
    pub sha256: Option<String>,
}

/// The fields of the helper's answer, with texts in place of the strings.
pub struct PrefetchView {
    pub hash: Option<Seq<char>>,
    pub sha256: Option<Seq<char>>,
}

impl DeepView for PrefetchResult {
    type V = PrefetchView;

    open spec fn deep_view(&self) -> PrefetchView {
        PrefetchView { hash: self.hash.deep_view(), sha256: self.sha256.deep_view() }
    }
}

/// Something that only the outside world can do or tell.
#[derive(Debug, PartialEq, Eq)]
pub enum Request {
    /// The value of an environment variable; no text if it is not set or
    /// is not Unicode.
    ReadEnv { name: String },
    /// Whether anything exists at a path.
    PathExists { path: String },
    /// The path with its symbolic links followed; no text if it cannot be
    /// resolved.
    Canonicalize { path: String },
    /// The host name that the system reports; no text if it reports none.
    Hostname,
    /// Start a program, wait for it to end, and collect its output.
    Run(Invocation),
    /// Read the hash-fetch helper's answer, a JSON object, for its fields
    /// `hash` and `sha256`.
    DecodePrefetch { json: Vec<u8> },
    /// The whole text of a file; no text if it cannot be read.
    ReadFile { path: String },
    /// Create a directory and the directories above it.
    CreateDirAll { path: String },
    /// Create an empty file, or empty the one that is there.
    CreateFile { path: String },
    /// Add text at the end of a file that is there.
    WriteText { path: String, text: String },
    /// Give a file another name, in one step, replacing what had that name.
    Rename { from: String, to: String },
    /// Delete a file.
    RemoveFile { path: String },
}

/// A request, with texts in place of the strings.
pub enum RequestView {
    ReadEnv { name: Seq<char> },
    PathExists { path: Seq<char> },
    Canonicalize { path: Seq<char> },
    Hostname,
    Run(InvocationView),
    DecodePrefetch { json: Seq<u8> },
    ReadFile { path: Seq<char> },
    CreateDirAll { path: Seq<char> },
    CreateFile { path: Seq<char> },
    WriteText { path: Seq<char>, text: Seq<char> },
    Rename { from: Seq<char>, to: Seq<char> },
    RemoveFile { path: Seq<char> },
}

impl DeepView for Request {
    type V = RequestView;

    open spec fn deep_view(&self) -> RequestView {
        match self {
            Request::ReadEnv { name } => RequestView::ReadEnv { name: name@ },
            Request::PathExists { path } => RequestView::PathExists { path: path@ },
            Request::Canonicalize { path } => RequestView::Canonicalize { path: path@ },
            Request::Hostname => RequestView::Hostname,
            Request::Run(invocation) => RequestView::Run(invocation.deep_view()),
            Request::DecodePrefetch { json } => RequestView::DecodePrefetch { json: json@ },
            Request::ReadFile { path } => RequestView::ReadFile { path: path@ },
            Request::CreateDirAll { path } => RequestView::CreateDirAll { path: path@ },
            Request::CreateFile { path } => RequestView::CreateFile { path: path@ },
            Request::WriteText { path, text } => RequestView::WriteText {
                path: path@,
                text: text@,
            },
            Request::Rename { from, to } => RequestView::Rename { from: from@, to: to@ },
            Request::RemoveFile { path } => RequestView::RemoveFile { path: path@ },
        }
    }
}

/// What the outside world answered to a request.
#[derive(Debug, PartialEq, Eq)]
pub enum Reply {
    /// A text, or `None` where there is none: the variable is not set, the
    /// file cannot be read, the path cannot be resolved, the host name is
    /// unknown.
    Text(Option<String>),
    /// Yes or no.
    Flag(bool),
    /// The end of a program's run.
    Ran(Completion),
    /// The fields of the helper's answer, or the parser's message.
    Decoded(Result<PrefetchResult, String>),
    /// A change to the file system was made, or failed with the system's
    /// message.
    Finished(Result<(), String>),
}

/// A reply, with texts in place of the strings.
pub enum ReplyView {
    Text(Option<Seq<char>>),
    Flag(bool),
    Ran(CompletionView),
    Decoded(Result<PrefetchView, Seq<char>>),
    Finished(Result<(), Seq<char>>),
}

impl DeepView for Reply {
    type V = ReplyView;

    open spec fn deep_view(&self) -> ReplyView {
        match self {
            Reply::Text(text) => ReplyView::Text(text.deep_view()),
            Reply::Flag(flag) => ReplyView::Flag(*flag),
            Reply::Ran(completion) => ReplyView::Ran(completion.deep_view()),
            Reply::Decoded(decoded) => ReplyView::Decoded(
                match decoded {
                    Ok(fields) => Ok(fields.deep_view()),
                    Err(message) => Err(message@),
                },
            ),
            Reply::Finished(outcome) => ReplyView::Finished(
                match outcome {
                    Ok(_) => Ok(()),
                    Err(message) => Err(message@),
                },
            ),
        }
    }
}

/// Whether `reply` is an answer of the kind that `request` asks for.
pub open spec fn answers(request: RequestView, reply: ReplyView) -> bool {
    match request {
        RequestView::ReadEnv { .. }
        | RequestView::Canonicalize { .. }
        | RequestView::Hostname
        | RequestView::ReadFile { .. } => reply is Text,
        RequestView::PathExists { .. } => reply is Flag,
        RequestView::Run(_) => reply is Ran,
        RequestView::DecodePrefetch { .. } => reply is Decoded,
        RequestView::CreateDirAll { .. }
        | RequestView::CreateFile { .. }
        | RequestView::WriteText { .. }
        | RequestView::Rename { .. }
        | RequestView::RemoveFile { .. } => reply is Finished,
    }
}

/// A request that was performed, and what came of it.
#[derive(Debug, PartialEq, Eq)]
pub struct Exchange {
    pub request: Request,
    pub reply: Reply,
}

/// An exchange, with texts in place of the strings.
pub struct ExchangeView {
    pub request: RequestView,
    pub reply: ReplyView,
}

impl DeepView for Exchange {
    type V = ExchangeView;

    open spec fn deep_view(&self) -> ExchangeView {
        ExchangeView { request: self.request.deep_view(), reply: self.reply.deep_view() }
    }
}

/// Whether `request` may change what the file at `path` holds, or whether
/// there is one.
pub open spec fn touches(request: RequestView, path: Seq<char>) -> bool {
    match request {
        RequestView::CreateFile { path: changed } => changed == path,
        RequestView::WriteText { path: changed, .. } => changed == path,
        RequestView::Rename { from, to } => from == path || to == path,
        RequestView::RemoveFile { path: changed } => changed == path,
        _ => false,
    }
}

/// Whether `request` changes the file system.
pub open spec fn is_change(request: RequestView) -> bool {
    request is CreateDirAll || request is CreateFile || request is WriteText || request is Rename
        || request is RemoveFile
}

/// Whether a session can go on.
#[derive(Clone, Copy, Debug, PartialEq, Eq, Structural)]
pub enum Phase {
    /// Every request so far has had its reply.
    Running,
    /// The last request has no reply yet.
    Waiting,
    /// The record does not fit the last request: it holds another request
    /// in its place, or a reply of the wrong kind.
    Mismatch,
}

/// What does not change while the tool runs.
#[derive(Debug, PartialEq, Eq)]
pub struct Settings {
    /// The directory that holds the three cache files.
    pub cache_dir: String,
    /// The machine's architecture, as the compiler names it.
    pub arch: String,
}

/// A session as the contracts see it: the settings, the record, and what
/// the run has asked and printed so far.
pub struct SessionView {
    pub cache_dir: Seq<char>,
    pub arch: Seq<char>,
    /// The exchanges on record, in the order in which they were made.
    pub record: Seq<ExchangeView>,
    /// The requests made so far, in order.
    pub asked: Seq<RequestView>,
    /// The lines printed so far, in order.
    pub output: Seq<LineView>,
    pub phase: Phase,
}

impl SessionView {
    /// The session at its start.
    pub open spec fn start(
        cache_dir: Seq<char>,
        arch: Seq<char>,
        record: Seq<ExchangeView>,
    ) -> SessionView {
        SessionView {
            cache_dir,
            arch,
            record,
            asked: Seq::empty(),
            output: Seq::empty(),
            phase: Phase::Running,
        }
    }

    /// The reply that the record holds for `request`, if `request` is made
    /// next: the next exchange on record is this request with a reply of the
    /// kind that it asks for.
    pub open spec fn reply_to(self, request: RequestView) -> Option<ReplyView> {
        if self.phase == Phase::Running && self.asked.len() < self.record.len()
            && self.record[self.asked.len() as int].request == request && answers(
            request,
            self.record[self.asked.len() as int].reply,
        ) {
            Some(self.record[self.asked.len() as int].reply)
        } else {
            None
        }
    }

    /// The session after `request` was made, and its reply where the record
    /// holds one. At the end of the record the session waits; where the
    /// record does not fit the request, the session stops for good. A session
    /// that has stopped stays as it is.
    pub open spec fn ask(self, request: RequestView) -> (SessionView, Option<ReplyView>) {
        if self.phase != Phase::Running {
            (self, None)
        } else if self.asked.len() >= self.record.len() {
            (SessionView { asked: self.asked.push(request), phase: Phase::Waiting, ..self }, None)
        } else if self.reply_to(request) is None {
            (SessionView { asked: self.asked.push(request), phase: Phase::Mismatch, ..self }, None)
        } else {
            (SessionView { asked: self.asked.push(request), ..self }, self.reply_to(request))
        }
    }

    /// The session after a request for a text. A reply of another kind
    /// stops the session as a mismatch.
    pub open spec fn ask_text(self, request: RequestView) -> (
        SessionView,
        Option<Option<Seq<char>>>,
    ) {
        let (next, reply) = self.ask(request);
        match reply {
            Some(ReplyView::Text(text)) => (next, Some(text)),
            Some(_) => (SessionView { phase: Phase::Mismatch, ..next }, None),
            None => (next, None),
        }
    }

    /// The session after a yes-or-no question.
    pub open spec fn ask_flag(self, request: RequestView) -> (SessionView, Option<bool>) {
        let (next, reply) = self.ask(request);
        match reply {
            Some(ReplyView::Flag(flag)) => (next, Some(flag)),
            Some(_) => (SessionView { phase: Phase::Mismatch, ..next }, None),
            None => (next, None),
        }
    }

    /// The session after the request to run a program.
    pub open spec fn ask_run(self, invocation: InvocationView) -> (
        SessionView,
        Option<CompletionView>,
    ) {
        let (next, reply) = self.ask(RequestView::Run(invocation));
        match reply {
            Some(ReplyView::Ran(completion)) => (next, Some(completion)),
            _ => (next, None),
        }
    }

    /// The session after the request to read the helper's answer.
    pub open spec fn ask_decode(self, json: Seq<u8>) -> (
        SessionView,
        Option<Result<PrefetchView, Seq<char>>>,
    ) {
        let (next, reply) = self.ask(RequestView::DecodePrefetch { json });
        match reply {
            Some(ReplyView::Decoded(decoded)) => (next, Some(decoded)),
            _ => (next, None),
        }
    }

    /// The session after a request to change the file system.
    pub open spec fn ask_change(self, request: RequestView) -> (
        SessionView,
        Option<Result<(), Seq<char>>>,
    ) {
        let (next, reply) = self.ask(request);
        match reply {
            Some(ReplyView::Finished(outcome)) => (next, Some(outcome)),
            Some(_) => (SessionView { phase: Phase::Mismatch, ..next }, None),
            None => (next, None),
        }
    }

    /// Whether this session is a later state of `earlier`: the settings and
    /// the record are the same, and what had been asked and printed then
    /// stands at the start of what has been asked and printed by now.
    pub open spec fn continues(self, earlier: SessionView) -> bool {
        &&& self.cache_dir == earlier.cache_dir
        &&& self.arch == earlier.arch
        &&& self.record == earlier.record
        &&& earlier.asked.len() <= self.asked.len()
        &&& forall|i: int|
            0 <= i < earlier.asked.len() ==> #[trigger] self.asked[i] == earlier.asked[i]
        &&& earlier.output.len() <= self.output.len()
        &&& forall|i: int|
            0 <= i < earlier.output.len() ==> #[trigger] self.output[i] == earlier.output[i]
    }

    /// Whether this session is a later state of `earlier` and no change to
    /// the file system has been asked for in between.
    pub open spec fn looked_since(self, earlier: SessionView) -> bool {
        &&& self.continues(earlier)
        &&& forall|i: int|
            earlier.asked.len() <= i < self.asked.len() ==> !is_change(#[trigger] self.asked[i])
    }

    /// Whether this session is a later state of `earlier` and no removal of
    /// a file has been asked for in between.
    pub open spec fn kept_since(self, earlier: SessionView) -> bool {
        &&& self.continues(earlier)
        &&& forall|i: int|
            earlier.asked.len() <= i < self.asked.len() ==> !(
            #[trigger] self.asked[i] is RemoveFile)
    }

    /// The requests that this session has made since it was `earlier`.
    pub open spec fn asked_since(self, earlier: SessionView) -> Seq<RequestView> {
        self.asked.skip(earlier.asked.len() as int)
    }

    /// The lines that this session has printed since it was `earlier`.
    pub open spec fn printed_since(self, earlier: SessionView) -> Seq<LineView> {
        self.output.skip(earlier.output.len() as int)
    }

    /// The session after a line was printed. A session that has stopped
    /// prints nothing.
    pub open spec fn print(self, stream: Stream, text: Seq<char>) -> SessionView {
        if self.phase == Phase::Running {
            SessionView { output: self.output.push(LineView { stream, text }), ..self }
        } else {
            self
        }
    }

    /// The session after a line on standard output.
    pub open spec fn say(self, text: Seq<char>) -> SessionView {
        self.print(Stream::Stdout, text)
    }

    /// The session after a line on standard error.
    pub open spec fn complain(self, text: Seq<char>) -> SessionView {
        self.print(Stream::Stderr, text)
    }
}

/// What a request to read the helper's answer came to, with texts in place
/// of strings.
pub open spec fn decoded_view(decoded: Option<&Result<PrefetchResult, String>>) -> Option<
    Result<PrefetchView, Seq<char>>,
> {
    match decoded {
        Some(Ok(fields)) => Some(Ok(fields.deep_view())),
        Some(Err(message)) => Some(Err(message@)),
        None => None,
    }
}

/// What a request to change the file system came to, with texts in place of
/// strings.
pub open spec fn change_view(outcome: Option<&Result<(), String>>) -> Option<
    Result<(), Seq<char>>,
> {
    match outcome {
        Some(Ok(_)) => Some(Ok(())),
        Some(Err(message)) => Some(Err(message@)),
        None => None,
    }
}

/// One run of an operation against the exchanges on record.
pub struct Session<'a> {
    settings: &'a Settings,
    record: &'a Vec<Exchange>,
    asked: Vec<Request>,
    output: Vec<Line>,
    phase: Phase,
}

impl<'a> View for Session<'a> {
    type V = SessionView;

    closed spec fn view(&self) -> SessionView {
        SessionView {
            cache_dir: self.settings.cache_dir@,
            arch: self.settings.arch@,
            record: self.record.deep_view(),
            asked: self.asked.deep_view(),
            output: self.output.deep_view(),
            phase: self.phase,
        }
    }
}

impl<'a> Session<'a> {
    /// A session at its start, with the exchanges made so far.
    pub fn new(settings: &'a Settings, record: &'a Vec<Exchange>) -> (session: Session<'a>)
        ensures
            session@ == SessionView::start(
                settings.cache_dir@,
                settings.arch@,
                record.deep_view(),
            ),
    {
        let session = Session {
            settings,
            record,
            asked: Vec::new(),
            output: Vec::new(),
            phase: Phase::Running,
        };
        assert(session.asked.deep_view() =~= Seq::empty());
        assert(session.output.deep_view() =~= Seq::empty());
        session
    }

    /// The directory of the cache files.
    pub fn cache_dir(&self) -> (dir: &'a str)
        ensures
            dir@ == self@.cache_dir,
    {
        self.settings.cache_dir.as_str()
    }

    /// The machine's architecture.
    pub fn arch(&self) -> (arch: &'a str)
        ensures
            arch@ == self@.arch,
    {
        self.settings.arch.as_str()
    }

    /// Whether the session can go on.
    pub fn phase(&self) -> (phase: Phase)
        ensures
            phase == self@.phase,
    {
        self.phase
    }

    /// The lines printed so far.
    pub fn output(&self) -> (lines: &Vec<Line>)
        ensures
            lines.deep_view() == self@.output,
    {
        &self.output
    }

    /// The requests made so far.
    pub fn requests(&self) -> (requests: &Vec<Request>)
        ensures
            requests.deep_view() == self@.asked,
    {
        &self.asked
    }

    /// Ends the session and hands out the requests that it made and the
    /// lines that it printed.
    pub fn into_parts(self) -> (parts: (Vec<Request>, Vec<Line>))
        ensures
            parts.0.deep_view() == self@.asked,
            parts.1.deep_view() == self@.output,
    {
        (self.asked, self.output)
    }

    /// The request that the session waits for, if it waits.
    pub fn pending(&self) -> (request: Option<&Request>)
        ensures
            match request {
                Some(r) => self@.phase == Phase::Waiting && self@.asked.len() > 0 && r.deep_view()
                    == self@.asked.last(),
                None => self@.phase != Phase::Waiting || self@.asked.len() == 0,
            },
    {
        match self.phase {
            Phase::Waiting => {
                let n = self.asked.len();
                if n > 0 {
                    Some(&self.asked[n - 1])
                } else {
                    None
                }
            },
            _ => None,
        }
    }

    /// Ends a session that waits, and hands out the request that it waits
    /// for.
    pub fn into_pending(self) -> (request: Option<Request>)
        ensures
            match request {
                Some(r) => self@.phase == Phase::Waiting && self@.asked.len() > 0 && r.deep_view()
                    == self@.asked.last(),
                None => self@.phase != Phase::Waiting || self@.asked.len() == 0,
            },
    {
        let mut asked = self.asked;
        match self.phase {
            Phase::Waiting => asked.pop(),
            _ => None,
        }
    }

    /// Makes a request, and returns its reply if the record holds the
    /// request with a reply of the right kind. Otherwise the session stops.
    pub fn ask(&mut self, request: Request) -> (reply: Option<&'a Reply>)
        ensures
            final(self)@ == old(self)@.ask(request.deep_view()).0,
            reply.deep_view() == old(self)@.ask(request.deep_view()).1,
            reply is None ==> final(self)@.phase != Phase::Running,
            reply is Some && old(self)@.phase == Phase::Running ==> final(self)@.phase
                == Phase::Running,
    {
        match self.phase {
            Phase::Running => {},
            _ => {
                return None;
            },
        }
        let at = self.asked.len();
        let ghost before = self.asked.deep_view();
        if at >= self.record.len() {
            self.asked.push(request);
            self.phase = Phase::Waiting;
            assert(self.asked.deep_view() =~= before.push(request.deep_view()));
            return None;
        }
        let exchange: &'a Exchange = &self.record[at];
        let fits = same_request(&exchange.request, &request) && is_answer(
            &request,
            &exchange.reply,
        );
        self.asked.push(request);
        assert(self.asked.deep_view() =~= before.push(request.deep_view()));
        if fits {
            Some(&exchange.reply)
        } else {
            self.phase = Phase::Mismatch;
            None
        }
    }

    /// Asks for a text.
    pub fn ask_text(&mut self, request: Request) -> (text: Option<Option<&'a String>>)
        ensures
            final(self)@ == old(self)@.ask_text(request.deep_view()).0,
            text.deep_view() == old(self)@.ask_text(request.deep_view()).1,
            text is None ==> final(self)@.phase != Phase::Running,
            text is Some && old(self)@.phase == Phase::Running ==> final(self)@.phase
                == Phase::Running,
    {
        match self.ask(request) {
            Some(Reply::Text(Some(text))) => Some(Some(text)),
            Some(Reply::Text(None)) => Some(None),
            Some(_) => {
                self.phase = Phase::Mismatch;
                None
            },
            None => None,
        }
    }

    /// Asks a yes-or-no question.
    pub fn ask_flag(&mut self, request: Request) -> (flag: Option<bool>)
        ensures
            final(self)@ == old(self)@.ask_flag(request.deep_view()).0,
            flag == old(self)@.ask_flag(request.deep_view()).1,
            flag is None ==> final(self)@.phase != Phase::Running,
            flag is Some && old(self)@.phase == Phase::Running ==> final(self)@.phase
                == Phase::Running,
    {
        match self.ask(request) {
            Some(Reply::Flag(flag)) => Some(*flag),
            Some(_) => {
                self.phase = Phase::Mismatch;
                None
            },
            None => None,
        }
    }

    /// Asks for a program to be run.
    pub fn ask_run(&mut self, invocation: Invocation) -> (completion: Option<&'a Completion>)
        ensures
            final(self)@ == old(self)@.ask_run(invocation.deep_view()).0,
            completion.deep_view() == old(self)@.ask_run(invocation.deep_view()).1,
            completion is None ==> final(self)@.phase != Phase::Running,
            completion is Some && old(self)@.phase == Phase::Running ==> final(self)@.phase
                == Phase::Running,
    {
        match self.ask(Request::Run(invocation)) {
            Some(Reply::Ran(completion)) => Some(completion),
            _ => None,
        }
    }

    /// Asks for the helper's answer to be read.
    pub fn ask_decode(&mut self, json: Vec<u8>) -> (decoded: Option<
        &'a Result<PrefetchResult, String>,
    >)
        ensures
            final(self)@ == old(self)@.ask_decode(json@).0,
            decoded_view(decoded) == old(self)@.ask_decode(json@).1,
            decoded is None ==> final(self)@.phase != Phase::Running,
            decoded is Some && old(self)@.phase == Phase::Running ==> final(self)@.phase
                == Phase::Running,
    {
        match self.ask(Request::DecodePrefetch { json }) {
            Some(Reply::Decoded(decoded)) => Some(decoded),
            _ => None,
        }
    }

    /// Asks for a change to the file system.
    pub fn ask_change(&mut self, request: Request) -> (outcome: Option<&'a Result<(), String>>)
        ensures
            final(self)@ == old(self)@.ask_change(request.deep_view()).0,
            change_view(outcome) == old(self)@.ask_change(request.deep_view()).1,
            outcome is None ==> final(self)@.phase != Phase::Running,
            outcome is Some && old(self)@.phase == Phase::Running ==> final(self)@.phase
                == Phase::Running,
    {
        match self.ask(request) {
            Some(Reply::Finished(outcome)) => Some(outcome),
            Some(_) => {
                self.phase = Phase::Mismatch;
                None
            },
            None => None,
        }
    }

    /// Prints a line, unless the session has stopped.
    pub fn print(&mut self, stream: Stream, text: String)
        ensures
            final(self)@ == old(self)@.print(stream, text@),
    {
        match self.phase {
            Phase::Running => {
                let ghost before = self.output.deep_view();
                let line = Line { stream, text };
                self.output.push(line);
                assert(self.output.deep_view() =~= before.push(line.deep_view()));
            },
            _ => {},
        }
    }

    /// Prints a line on standard output.
    pub fn say(&mut self, text: String)
        ensures
            final(self)@ == old(self)@.say(text@),
    {
        self.print(Stream::Stdout, text)
    }

    /// Prints a line on standard error.
    pub fn complain(&mut self, text: String)
        ensures
            final(self)@ == old(self)@.complain(text@),
    {
        self.print(Stream::Stderr, text)
    }
}

/// Tests whether two lists of strings hold the same texts.
pub fn same_texts(a: &Vec<String>, b: &Vec<String>) -> (same: bool)
    ensures
        same == (a.deep_view() == b.deep_view()),
{
    if a.len() != b.len() {
        assert(a.deep_view().len() != b.deep_view().len());
        return false;
    }
    let mut i: usize = 0;
    while i < a.len()
        invariant
            a.len() == b.len(),
            i <= a.len(),
            forall|j: int| 0 <= j < i ==> a[j]@ == b[j]@,
        decreases a.len() - i,
    {
        if a[i] != b[i] {
            assert(a.deep_view()[i as int] != b.deep_view()[i as int]);
            return false;
        }
        i = i + 1;
    }
    assert(a.deep_view() =~= b.deep_view());
    true
}

/// Tests whether two lists of bytes are the same.
pub fn same_bytes(a: &Vec<u8>, b: &Vec<u8>) -> (same: bool)
    ensures
        same == (a@ == b@),
{
    if a.len() != b.len() {
        return false;
    }
    let mut i: usize = 0;
    while i < a.len()
        invariant
            a.len() == b.len(),
            i <= a.len(),
            forall|j: int| 0 <= j < i ==> a[j] == b[j],
        decreases a.len() - i,
    {
        if a[i] != b[i] {
            return false;
        }
        i = i + 1;
    }
    assert(a@ =~= b@);
    true
}

/// Tests whether two runs are of the same program, with the same arguments,
/// in the same directory.
pub fn same_invocation(a: &Invocation, b: &Invocation) -> (same: bool)
    ensures
        same == (a.deep_view() == b.deep_view()),
{
    let same_dir = match (&a.dir, &b.dir) {
        (Some(x), Some(y)) => *x == *y,
        (None, None) => true,
        _ => false,
    };
    a.program == b.program && same_texts(&a.args, &b.args) && same_dir
}

/// Tests whether two requests ask for the same.
pub fn same_request(a: &Request, b: &Request) -> (same: bool)
    ensures
        same == (a.deep_view() == b.deep_view()),
{
    match (a, b) {
        (Request::ReadEnv { name: x }, Request::ReadEnv { name: y }) => *x == *y,
        (Request::PathExists { path: x }, Request::PathExists { path: y }) => *x == *y,
        (Request::Canonicalize { path: x }, Request::Canonicalize { path: y }) => *x == *y,
        (Request::Hostname, Request::Hostname) => true,
        (Request::Run(x), Request::Run(y)) => same_invocation(x, y),
        (Request::DecodePrefetch { json: x }, Request::DecodePrefetch { json: y }) => same_bytes(
            x,
            y,
        ),
        (Request::ReadFile { path: x }, Request::ReadFile { path: y }) => *x == *y,
        (Request::CreateDirAll { path: x }, Request::CreateDirAll { path: y }) => *x == *y,
        (Request::CreateFile { path: x }, Request::CreateFile { path: y }) => *x == *y,
        (
            Request::WriteText { path: x, text: s },
            Request::WriteText { path: y, text: t },
        ) => *x == *y && *s == *t,
        (Request::Rename { from: x, to: s }, Request::Rename { from: y, to: t }) => *x == *y && *s
            == *t,
        (Request::RemoveFile { path: x }, Request::RemoveFile { path: y }) => *x == *y,
        _ => false,
    }
}

/// Tests whether `reply` is an answer of the kind that `request` asks for.
pub fn is_answer(request: &Request, reply: &Reply) -> (fits: bool)
    ensures
        fits == answers(request.deep_view(), reply.deep_view()),
{
    match request {
        Request::ReadEnv { .. }
        | Request::Canonicalize { .. }
        | Request::Hostname
        | Request::ReadFile { .. } => {
            match reply {
                Reply::Text(_) => true,
                _ => false,
            }
        },
        Request::PathExists { .. } => {
            match reply {
                Reply::Flag(_) => true,
                _ => false,
            }
        },
        Request::Run(_) => {
            match reply {
                Reply::Ran(_) => true,
                _ => false,
            }
        },
        Request::DecodePrefetch { .. } => {
            match reply {
                Reply::Decoded(_) => true,
                _ => false,
            }
        },
        Request::CreateDirAll { .. }
        | Request::CreateFile { .. }
        | Request::WriteText { .. }
        | Request::Rename { .. }
        | Request::RemoveFile { .. } => {
            match reply {
                Reply::Finished(_) => true,
                _ => false,
            }
        },
    }
}

/// A later state of a later state of a session is a later state of that
/// session.
pub proof fn lemma_continues_chain(a: SessionView, b: SessionView, c: SessionView)
    requires
        b.continues(a),
        c.continues(b),
    ensures
        c.continues(a),
{
    assert forall|i: int| 0 <= i < a.asked.len() implies #[trigger] c.asked[i] == a.asked[i] by {
        assert(c.asked[i] == b.asked[i]);
    }
    assert forall|i: int| 0 <= i < a.output.len() implies #[trigger] c.output[i]
        == a.output[i] by {
        assert(c.output[i] == b.output[i]);
    }
}

/// Where no change was asked for from `a` to `b` nor from `b` to `c`, none
/// was asked for from `a` to `c`.
pub proof fn lemma_looked_chain(a: SessionView, b: SessionView, c: SessionView)
    requires
        b.looked_since(a),
        c.looked_since(b),
    ensures
        c.looked_since(a),
{
    lemma_continues_chain(a, b, c);
    assert forall|i: int| a.asked.len() <= i < c.asked.len() implies !is_change(
        #[trigger] c.asked[i],
    ) by {
        if i < b.asked.len() {
            assert(c.asked[i] == b.asked[i]);
        }
    }
}

/// Where no removal was asked for from `a` to `b` nor from `b` to `c`,
/// none was asked for from `a` to `c`.
pub proof fn lemma_kept_chain(a: SessionView, b: SessionView, c: SessionView)
    requires
        b.kept_since(a),
        c.kept_since(b),
    ensures
        c.kept_since(a),
{
    lemma_continues_chain(a, b, c);
    assert forall|i: int| a.asked.len() <= i < c.asked.len() implies !(
    #[trigger] c.asked[i] is RemoveFile) by {
        if i < b.asked.len() {
            assert(c.asked[i] == b.asked[i]);
        }
    }
}

/// Where no change was asked for, no removal was asked for.
pub proof fn lemma_looked_is_kept(a: SessionView, b: SessionView)
    requires
        b.looked_since(a),
    ensures
        b.kept_since(a),
{
    assert forall|i: int| a.asked.len() <= i < b.asked.len() implies !(
    #[trigger] b.asked[i] is RemoveFile) by {
        assert(!is_change(b.asked[i]));
    }
}

/// A longer record serves a request as the shorter one did. Take two
/// sessions that differ only in that the record of the second goes on where
/// the record of the first ends: after the same request, both have asked and
/// printed the same, and unless the first now waits, the second has the same
/// reply and is in the same state.
pub proof fn lemma_ask_replays(short: SessionView, long: SessionView, request: RequestView)
    requires
        long == (SessionView { record: long.record, ..short }),
        short.record.len() <= long.record.len(),
        forall|i: int| 0 <= i < short.record.len() ==> long.record[i] == short.record[i],
    ensures
        long.ask(request).0.asked == short.ask(request).0.asked,
        long.ask(request).0.output == short.ask(request).0.output,
        short.ask(request).0.phase != Phase::Waiting ==> long.ask(request) == (
            SessionView { record: long.record, ..short.ask(request).0 },
            short.ask(request).1,
        ),
{
}

/// A request leads to a later state of the session that makes it. A
/// request that is no change leads to a state before which no change was
/// asked for, and one that is no removal to a state before which no removal
/// was asked for.
pub proof fn lemma_ask_continues(session: SessionView, request: RequestView)
    ensures
        session.ask(request).0.continues(session),
        session.ask_text(request).0.continues(session),
        session.ask_flag(request).0.continues(session),
        session.ask_change(request).0.continues(session),
        !is_change(request) ==> session.ask(request).0.looked_since(session),
        !is_change(request) ==> session.ask_text(request).0.looked_since(session),
        !is_change(request) ==> session.ask_flag(request).0.looked_since(session),
        !(request is RemoveFile) ==> session.ask_change(request).0.kept_since(session),
{
}

/// To run a program, or to read the helper's answer, is no change to the
/// file system.
pub proof fn lemma_run_looks(session: SessionView, invocation: InvocationView, json: Seq<u8>)
    ensures
        session.ask_run(invocation).0.looked_since(session),
        session.ask_decode(json).0.looked_since(session),
{
}

/// To print a line is no change to the file system.
pub proof fn lemma_print_looks(session: SessionView, stream: Stream, text: Seq<char>)
    ensures
        session.print(stream, text).looked_since(session),
        session.say(text).looked_since(session),
        session.complain(text).looked_since(session),
{
}

} // verus!
