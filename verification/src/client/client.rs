//! The upload protocol as a state machine.
//!
//! A [`MossClient`] never touches the stream or the submitted files.  It is
//! told what happened ([`Event`]) and answers with what to do next
//! ([`Action`]): write a line, write bytes, read a reply, load a file, or
//! stop.  The caller carries each action out and reports the event that
//! followed, until the client stops.
use vstd::prelude::*;
use vstd::string::*;
use crate::client::config::{fresh_config, ConfigView, MossConfig};
use crate::client::error::{ErrorKind, MossError};
use crate::client::resolve::{lookup, lookup_fits, resolution_error, resolved_paths, Lookup};
use crate::client::wire::{
    as_moss_option, decimal, decimal_text, decode_lossy, directive, directive_text, file_line,
    file_line_text, flag_text, handshake_accepted, is_affirmative, leftmost_match, match_view,
    query_line, query_line_text, regex_leftmost, utf8_lossy,
};

verus! {

/// How far the upload of one file has come.
#[derive(Debug, Clone, Copy, PartialEq, Eq, Structural)]
pub enum Stage {
    /// The caller is loading the file.
    Loading,
    /// The line that announces the file is being written.
    Announcing,
    /// The bytes of the file are being written.
    Sending,
}

/// Where the protocol stands.  Each phase waits for the outcome of the one
/// operation that is in flight.
#[derive(Debug, Clone, Copy, PartialEq, Eq, Structural)]
pub enum Phase {
    /// Nothing was sent yet; the stream is being established.
    Connected,
    /// Line `line` of the six handshake lines is being written.
    Handshake { line: usize },
    /// The handshake was written; the reply is being read.
    HandshakeSent,
    /// The base file at `position` is being uploaded.
    BaseFilesUploading { position: usize, stage: Stage },
    /// The submission file at `position` is being uploaded.
    SubmissionFilesUploading { position: usize, stage: Stage },
    /// The query line is being written.
    QuerySent,
    /// The result is being read.
    AwaitingResult,
    /// The result was handed out.
    Done,
    /// An error was handed out.
    Failed,
}

/// What happened to the operation that the client asked for last.
#[derive(Debug, Clone)]
pub enum Event {
    /// The stream to the server is established.
    Connected,
    /// The write completed.
    Written,
    /// The read completed; the text that was read.
    Reply(String),
    /// The file is there and was read whole: its file name and its bytes.
    FileLoaded { file_name: String, bytes: Vec<u8> },
    /// The file is not there any more.
    FileMissing,
    /// The file could not be opened.
    FileUnopenable,
    /// The file could not be read.
    FileUnreadable,
    /// The file has no name that is text.
    FileNameInvalid,
    /// The operation failed.
    Failed,
}

/// What the caller has to do next.
#[derive(Debug, Clone)]
pub enum Action {
    /// Write this text to the stream, in one write.
    SendText(String),
    /// Write these bytes to the stream, in one write.
    SendBytes(Vec<u8>),
    /// Read once from the stream.
    ReadReply,
    /// Check that the file at this path is there and read it whole.
    LoadFile(String),
    /// Stop: this is the result.
    Finish(String),
    /// Stop: this is the error.
    Fail(MossError),
}

/// The model of an [`Action`].
pub enum ActionView {
    SendText(Seq<char>),
    SendBytes(Seq<u8>),
    ReadReply,
    LoadFile(Seq<char>),
    Finish(Seq<char>),
    Fail(ErrorKind, Seq<char>),
}

impl View for Action {
    type V = ActionView;

    open spec fn view(&self) -> ActionView {
        match self {
            Action::SendText(text) => ActionView::SendText(text@),
            Action::SendBytes(bytes) => ActionView::SendBytes(bytes@),
            Action::ReadReply => ActionView::ReadReply,
            Action::LoadFile(path) => ActionView::LoadFile(path@),
            Action::Finish(text) => ActionView::Finish(text@),
            Action::Fail(e) => ActionView::Fail(e.kind, e.message@),
        }
    }
}

/// The model of a [`MossClient`].
pub struct ClientView {
    pub config: ConfigView,
    pub phase: Phase,
    /// The bytes of the file that was announced and not sent yet.
    pub pending: Seq<u8>,
}

/// What one step gives: the phase and pending bytes after it, and the action.
pub struct Outcome {
    pub phase: Phase,
    pub pending: Seq<u8>,
    pub action: ActionView,
}

/// The number of lines in the handshake.
pub const HANDSHAKE_LINES: usize = 6;

/// The number of bytes that one read from the server may bring.
pub const REPLY_CAPACITY: usize = 512;

/// The handshake, line by line: user, directory mode, experimental mode,
/// how often a passage may repeat, how many matches to show, language.
pub open spec fn handshake_line_text(config: ConfigView, line: int) -> Seq<char> {
    if line == 0 {
        directive_text("moss"@, config.user_id)
    } else if line == 1 {
        directive_text("directory"@, flag_text(config.use_directory_mode))
    } else if line == 2 {
        directive_text("X"@, flag_text(config.use_experimental_mode))
    } else if line == 3 {
        directive_text("maxmatches"@, decimal_text(config.max_ignore_threshold))
    } else if line == 4 {
        directive_text("show"@, decimal_text(config.max_matches_displayed))
    } else {
        directive_text("language"@, config.language.token())
    }
}

/// What is reported when a line of the handshake cannot be written.
pub open spec fn handshake_failure_text(line: int) -> Seq<char> {
    if line == 0 {
        "Could not authenticate with Moss"@
    } else if line == 1 {
        "Error sending directory information to Moss server"@
    } else if line == 2 {
        "Error sending experimental information to Moss server"@
    } else if line == 3 {
        "Error sending match information to Moss server"@
    } else if line == 4 {
        "Error sending display information to Moss server"@
    } else {
        "Error sending language information to Moss server"@
    }
}

/// Stopping with an error.
pub open spec fn failure(kind: ErrorKind, message: Seq<char>) -> Outcome {
    Outcome { phase: Phase::Failed, pending: Seq::empty(), action: ActionView::Fail(kind, message) }
}

/// Going on with the submission file at `position`, or, when the submission
/// files are through, with the query.
pub open spec fn begin_submission(config: ConfigView, position: int) -> Outcome {
    if 0 <= position < config.submission_files.len() {
        Outcome {
            phase: Phase::SubmissionFilesUploading {
                position: position as usize,
                stage: Stage::Loading,
            },
            pending: Seq::empty(),
            action: ActionView::LoadFile(config.submission_files[position]),
        }
    } else {
        Outcome {
            phase: Phase::QuerySent,
            pending: Seq::empty(),
            action: ActionView::SendText(query_line_text(config.comment)),
        }
    }
}

/// Going on with the base file at `position`, or, when the base files are
/// through, with the first submission file.
pub open spec fn begin_base(config: ConfigView, position: int) -> Outcome {
    if 0 <= position < config.base_files.len() {
        Outcome {
            phase: Phase::BaseFilesUploading { position: position as usize, stage: Stage::Loading },
            pending: Seq::empty(),
            action: ActionView::LoadFile(config.base_files[position]),
        }
    } else {
        begin_submission(config, 0)
    }
}

/// The name under which a file is announced, before its spaces are
/// replaced: the file name where no pattern is set or the pattern finds
/// nothing in it, else what the pattern finds.  `None` where the pattern is
/// refused.
pub open spec fn shown_name(
    config: ConfigView,
    file_name: Seq<char>,
    found: Result<Option<Seq<char>>, ()>,
) -> Option<Seq<char>> {
    if config.transform is None {
        Some(file_name)
    } else {
        match found {
            Ok(Some(part)) => Some(part),
            Ok(None) => Some(file_name),
            Err(_) => None,
        }
    }
}

/// What follows the attempt to load the file at `path`, which is to be
/// announced under `index`; `announcing` is the phase in which its line is
/// written, and `found` what the search for the configured pattern in the
/// file name gave.
pub open spec fn after_load(
    config: ConfigView,
    path: Seq<char>,
    index: nat,
    announcing: Phase,
    event: Event,
    found: Result<Option<Seq<char>>, ()>,
) -> Outcome {
    match event {
        Event::FileLoaded { file_name, bytes } => match shown_name(config, file_name@, found) {
            Some(name) => Outcome {
                phase: announcing,
                pending: bytes@,
                action: ActionView::SendText(
                    file_line_text(index, config.language, bytes@.len(), name),
                ),
            },
            None => failure(ErrorKind::Encoding, "Invalid regex expression provided"@),
        },
        Event::FileMissing => failure(ErrorKind::FileAccess, "File does not exist: "@ + path),
        Event::FileUnopenable => failure(ErrorKind::FileAccess, "Could not open file"@),
        Event::FileNameInvalid => failure(ErrorKind::Encoding, "Invalid / Non UTF-8 file name"@),
        _ => failure(ErrorKind::FileAccess, "Could not read data from file"@),
    }
}

/// What follows the reply to the handshake.
pub open spec fn after_handshake(config: ConfigView, reply: Seq<char>) -> Outcome {
    if is_affirmative(reply) {
        begin_base(config, 0)
    } else {
        failure(ErrorKind::HandshakeRejected, "Unsupported language: "@ + config.language.token())
    }
}

/// The protocol: what a client in state `c` does when `event` comes.
///
/// In each phase one event means success; any event that the phase does not
/// name counts as the failure of the operation in flight.  `found` is read
/// only when a file was loaded and a pattern for shown names is set: it is
/// what the search for the pattern in the file name gave.
pub open spec fn next(
    c: ClientView,
    event: Event,
    found: Result<Option<Seq<char>>, ()>,
) -> Outcome {
    match c.phase {
        Phase::Connected => match event {
            Event::Connected => Outcome {
                phase: Phase::Handshake { line: 0 },
                pending: Seq::empty(),
                action: ActionView::SendText(handshake_line_text(c.config, 0)),
            },
            _ => failure(ErrorKind::Connection, "Unable to connect to the server"@),
        },
        Phase::Handshake { line } => match event {
            Event::Written => if line + 1 < HANDSHAKE_LINES {
                Outcome {
                    phase: Phase::Handshake { line: (line + 1) as usize },
                    pending: Seq::empty(),
                    action: ActionView::SendText(handshake_line_text(c.config, line + 1)),
                }
            } else {
                Outcome {
                    phase: Phase::HandshakeSent,
                    pending: Seq::empty(),
                    action: ActionView::ReadReply,
                }
            },
            _ => failure(ErrorKind::ProtocolWrite, handshake_failure_text(line as int)),
        },
        Phase::HandshakeSent => match event {
            Event::Reply(text) => after_handshake(c.config, text@),
            _ => failure(ErrorKind::ProtocolRead, "Unable to recieve server's header response"@),
        },
        Phase::BaseFilesUploading { position, stage } => match stage {
            Stage::Loading => after_load(
                c.config,
                c.config.base_files[position as int],
                0,
                Phase::BaseFilesUploading { position, stage: Stage::Announcing },
                event,
                found,
            ),
            Stage::Announcing => match event {
                Event::Written => Outcome {
                    phase: Phase::BaseFilesUploading { position, stage: Stage::Sending },
                    pending: Seq::empty(),
                    action: ActionView::SendBytes(c.pending),
                },
                _ => failure(ErrorKind::ProtocolWrite, "Unable to write file description"@),
            },
            Stage::Sending => match event {
                Event::Written => begin_base(c.config, position + 1),
                _ => failure(ErrorKind::ProtocolWrite, "Unable to write file description"@),
            },
        },
        Phase::SubmissionFilesUploading { position, stage } => match stage {
            Stage::Loading => after_load(
                c.config,
                c.config.submission_files[position as int],
                (position + 1) as nat,
                Phase::SubmissionFilesUploading { position, stage: Stage::Announcing },
                event,
                found,
            ),
            Stage::Announcing => match event {
                Event::Written => Outcome {
                    phase: Phase::SubmissionFilesUploading { position, stage: Stage::Sending },
                    pending: Seq::empty(),
                    action: ActionView::SendBytes(c.pending),
                },
                _ => failure(ErrorKind::ProtocolWrite, "Unable to write file description"@),
            },
            Stage::Sending => match event {
                Event::Written => begin_submission(c.config, position + 1),
                _ => failure(ErrorKind::ProtocolWrite, "Unable to write file description"@),
            },
        },
        Phase::QuerySent => match event {
            Event::Written => Outcome {
                phase: Phase::AwaitingResult,
                pending: Seq::empty(),
                action: ActionView::ReadReply,
            },
            _ => failure(ErrorKind::ProtocolWrite, "Could not send query to server"@),
        },
        Phase::AwaitingResult => match event {
            Event::Reply(text) => Outcome {
                phase: Phase::Done,
                pending: Seq::empty(),
                action: ActionView::Finish(text@),
            },
            _ => failure(ErrorKind::ProtocolRead, "Unable to read Url from server"@),
        },
        Phase::Done => Outcome {
            phase: Phase::Done,
            pending: Seq::empty(),
            action: ActionView::Fail(ErrorKind::ProtocolWrite, "The client is finished"@),
        },
        Phase::Failed => Outcome {
            phase: Phase::Failed,
            pending: Seq::empty(),
            action: ActionView::Fail(ErrorKind::ProtocolWrite, "The client is finished"@),
        },
    }
}

/// What the search for the configured pattern gives for an event: the
/// outcome of the search in the file name where a file was loaded and a
/// pattern is set, else nothing.
pub open spec fn search(config: ConfigView, event: Event) -> Result<Option<Seq<char>>, ()> {
    match (config.transform, event) {
        (Some(pattern), Event::FileLoaded { file_name, .. }) => regex_leftmost(
            pattern,
            file_name@,
        ),
        _ => Ok(None),
    }
}

/// A phase fits a configuration when the file or line it points at is there.
pub open spec fn phase_fits(config: ConfigView, phase: Phase) -> bool {
    match phase {
        Phase::Handshake { line } => line < HANDSHAKE_LINES,
        Phase::BaseFilesUploading { position, .. } => position < config.base_files.len(),
        Phase::SubmissionFilesUploading { position, .. } => position
            < config.submission_files.len(),
        _ => true,
    }
}

impl Phase {
    /// No step follows this phase.
    pub open spec fn is_terminal(self) -> bool {
        self == Phase::Done || self == Phase::Failed
    }

    /// Tells whether the protocol has come to its end.
    pub fn is_finished(&self) -> (r: bool)
        ensures
            r == self.is_terminal(),
    {
        match self {
            Phase::Done => true,
            Phase::Failed => true,
            _ => false,
        }
    }
}


/// The part of a buffer that counts as the reply: what one read may bring at
/// most, from the front.
pub open spec fn reply_part(buffer: Seq<u8>) -> Seq<u8> {
    if buffer.len() <= REPLY_CAPACITY {
        buffer
    } else {
        buffer.subrange(0, REPLY_CAPACITY as int)
    }
}

impl Event {
    /// The event for a completed read: the front of `buffer`, as far as one
    /// read may reach, is decoded as UTF-8, with each malformed stretch
    /// replaced, never rejected.
    pub fn reply(buffer: &[u8]) -> (e: Event)
        ensures
            e matches Event::Reply(text) && text@ == utf8_lossy(reply_part(buffer@)),
    {
        if buffer.len() <= REPLY_CAPACITY {
            Event::Reply(decode_lossy(buffer))
        } else {
            Event::Reply(decode_lossy(vstd::slice::slice_subrange(buffer, 0, REPLY_CAPACITY)))
        }
    }
}

/// A buffer to read a reply into: as many spaces as one read may bring
/// bytes, so that what a short reply leaves untouched is white space.
pub fn reply_buffer() -> (buffer: Vec<u8>)
    ensures
        buffer@ == Seq::new(REPLY_CAPACITY as nat, |i: int| 32u8),
{
    let mut buffer: Vec<u8> = Vec::new();
    let mut i: usize = 0;
    while i < REPLY_CAPACITY
        invariant
            i <= REPLY_CAPACITY,
            buffer@ == Seq::new(i as nat, |i: int| 32u8),
        decreases REPLY_CAPACITY - i,
    {
        buffer.push(32u8);
        i += 1;
        assert(buffer@ =~= Seq::new(i as nat, |i: int| 32u8));
    }
    buffer
}

/// One use of the protocol: a configuration and the phase the upload is in.
#[derive(Debug)]
pub struct MossClient<S> {
    config: MossConfig<S>,
    phase: Phase,
    pending: Vec<u8>,
}

impl<S> MossClient<S> {
    /// The configuration, the phase and the bytes that wait to be sent.
    pub closed spec fn view(&self) -> ClientView {
        ClientView { config: self.config@, phase: self.phase, pending: self.pending@ }
    }

    /// The address of the server.
    pub closed spec fn address(&self) -> S {
        self.config.address()
    }

    /// A client holds no more files than an index can count.
    pub proof fn lemma_counts_fit(&self)
        ensures
            self@.config.base_files.len() <= usize::MAX,
            self@.config.submission_files.len() <= usize::MAX,
    {
        self.config.lemma_counts_fit();
    }

    /// The phase points at a line or file that is there.
    pub open spec fn wf(&self) -> bool {
        phase_fits(self@.config, self@.phase)
    }

    /// A client for `user_id` with a fresh configuration, before anything
    /// was sent.
    pub fn new(server: S, user_id: &str) -> (r: Self)
        ensures
            r@ == (ClientView {
                config: fresh_config(user_id@),
                phase: Phase::Connected,
                pending: Seq::empty(),
            }),
            r.address() == server,
            r.wf(),
    {
        MossClient::from_config(MossConfig::new(user_id, server))
    }

    /// A client for a configuration, before anything was sent.
    pub fn from_config(config: MossConfig<S>) -> (r: Self)
        ensures
            r@ == (ClientView { config: config@, phase: Phase::Connected, pending: Seq::empty() }),
            r.address() == config.address(),
            r.wf(),
    {
        MossClient { config, phase: Phase::Connected, pending: Vec::new() }
    }

    /// The configuration.
    pub fn config(&self) -> (r: &MossConfig<S>)
        ensures
            r@ == self@.config,
            r.address() == self.address(),
    {
        &self.config
    }

    /// The phase the protocol is in.
    pub fn phase(&self) -> (r: Phase)
        ensures
            r == self@.phase,
    {
        self.phase
    }

    /// Resolves a path or pattern and appends what it denotes to the
    /// base files.  Whatever the lookup gave, it fits the path, the
    /// base files grow by exactly the paths that this outcome denotes,
    /// nothing else changes, and the call fails exactly when this outcome is
    /// an error, with that error.
    pub fn add_base_file(&mut self, path: &str) -> (r: Result<(), MossError>)
        requires
            old(self).wf(),
        ensures
            final(self).wf(),
            final(self).address() == old(self).address(),
            exists|found: Lookup|
                {
                    &&& lookup_fits(path@, found)
                    &&& final(self)@ == (ClientView {
                        config: ConfigView {
                            base_files: old(self)@.config.base_files
                                + #[trigger] resolved_paths(path@, found),
                            ..old(self)@.config
                        },
                        ..old(self)@
                    })
                    &&& match resolution_error(found) {
                        None => r is Ok,
                        Some(e) => r is Err && r->Err_0@ == e,
                    }
                },
    {
        let found = lookup(path);
        let ghost witness = found;
        let r = self.config.add_base_lookup(path, found);
        assert(self@.config.base_files == old(self)@.config.base_files + resolved_paths(
            path@,
            witness,
        ));
        r
    }

    /// Resolves a path or pattern and appends what it denotes to the
    /// submission files.  Whatever the lookup gave, it fits the path, the
    /// submission files grow by exactly the paths that this outcome denotes,
    /// nothing else changes, and the call fails exactly when this outcome is
    /// an error, with that error.
    pub fn add_file(&mut self, path: &str) -> (r: Result<(), MossError>)
        requires
            old(self).wf(),
        ensures
            final(self).wf(),
            final(self).address() == old(self).address(),
            exists|found: Lookup|
                {
                    &&& lookup_fits(path@, found)
                    &&& final(self)@ == (ClientView {
                        config: ConfigView {
                            submission_files: old(self)@.config.submission_files
                                + #[trigger] resolved_paths(path@, found),
                            ..old(self)@.config
                        },
                        ..old(self)@
                    })
                    &&& match resolution_error(found) {
                        None => r is Ok,
                        Some(e) => r is Err && r->Err_0@ == e,
                    }
                },
    {
        let found = lookup(path);
        let ghost witness = found;
        let r = self.config.add_lookup(path, found);
        assert(self@.config.submission_files == old(self)@.config.submission_files + resolved_paths(
            path@,
            witness,
        ));
        r
    }

    fn fail(&mut self, kind: ErrorKind, message: &str) -> (action: Action)
        ensures
            final(self)@ == (ClientView {
                phase: Phase::Failed,
                pending: Seq::empty(),
                ..old(self)@
            }),
            final(self).address() == old(self).address(),
            action@ == ActionView::Fail(kind, message@),
    {
        self.phase = Phase::Failed;
        self.pending = Vec::new();
        Action::Fail(MossError { kind, message: message.to_owned() })
    }

    fn handshake_line(&self, line: usize) -> (text: String)
        requires
            line < HANDSHAKE_LINES,
        ensures
            text@ == handshake_line_text(self@.config, line as int),
    {
        if line == 0 {
            directive("moss", self.config.user_id().as_str())
        } else if line == 1 {
            directive("directory", as_moss_option(*self.config.use_directory_mode()))
        } else if line == 2 {
            directive("X", as_moss_option(*self.config.use_experimental_mode()))
        } else if line == 3 {
            directive("maxmatches", decimal(*self.config.max_ignore_threshold()).as_str())
        } else if line == 4 {
            directive("show", decimal(*self.config.max_matches_displayed()).as_str())
        } else {
            directive("language", self.config.language().as_str())
        }
    }

    fn begin_submission(&mut self, position: usize) -> (action: Action)
        requires
            position <= old(self)@.config.submission_files.len(),
        ensures
            final(self).wf(),
            final(self)@.config == old(self)@.config,
            final(self).address() == old(self).address(),
            final(self)@.phase == begin_submission(old(self)@.config, position as int).phase,
            final(self)@.pending == begin_submission(old(self)@.config, position as int).pending,
            action@ == begin_submission(old(self)@.config, position as int).action,
    {
        self.pending = Vec::new();
        if position < self.config.submission_files().len() {
            self.phase = Phase::SubmissionFilesUploading { position, stage: Stage::Loading };
            Action::LoadFile(self.config.submission_files()[position].clone())
        } else {
            self.phase = Phase::QuerySent;
            Action::SendText(query_line(self.config.comment().as_str()))
        }
    }

    fn begin_base(&mut self, position: usize) -> (action: Action)
        requires
            position <= old(self)@.config.base_files.len(),
        ensures
            final(self).wf(),
            final(self)@.config == old(self)@.config,
            final(self).address() == old(self).address(),
            final(self)@.phase == begin_base(old(self)@.config, position as int).phase,
            final(self)@.pending == begin_base(old(self)@.config, position as int).pending,
            action@ == begin_base(old(self)@.config, position as int).action,
    {
        self.pending = Vec::new();
        if position < self.config.base_files().len() {
            self.phase = Phase::BaseFilesUploading { position, stage: Stage::Loading };
            Action::LoadFile(self.config.base_files()[position].clone())
        } else {
            self.begin_submission(0)
        }
    }

    fn after_load(
        &mut self,
        path: &str,
        index: usize,
        announcing: Phase,
        event: Event,
        found: Result<Option<String>, ()>,
    ) -> (action: Action)
        requires
            phase_fits(old(self)@.config, announcing),
        ensures
            final(self).wf(),
            final(self)@.config == old(self)@.config,
            final(self).address() == old(self).address(),
            final(self)@.phase == after_load(
                old(self)@.config,
                path@,
                index as nat,
                announcing,
                event,
                match_view(found),
            ).phase,
            final(self)@.pending == after_load(
                old(self)@.config,
                path@,
                index as nat,
                announcing,
                event,
                match_view(found),
            ).pending,
            action@ == after_load(
                old(self)@.config,
                path@,
                index as nat,
                announcing,
                event,
                match_view(found),
            ).action,
    {
        match event {
            Event::FileLoaded { file_name, bytes } => {
                let name = if self.config.transform().is_none() {
                    Some(file_name)
                } else {
                    match found {
                        Ok(Some(part)) => Some(part),
                        Ok(None) => Some(file_name),
                        Err(_) => None,
                    }
                };
                match name {
                    Some(name) => {
                        let line = file_line(
                            index,
                            *self.config.language(),
                            bytes.len(),
                            name.as_str(),
                        );
                        self.phase = announcing;
                        self.pending = bytes;
                        Action::SendText(line)
                    },
                    None => self.fail(ErrorKind::Encoding, "Invalid regex expression provided"),
                }
            },
            Event::FileMissing => {
                let mut message = "File does not exist: ".to_owned();
                message.append(path);
                self.fail(ErrorKind::FileAccess, message.as_str())
            },
            Event::FileUnopenable => self.fail(ErrorKind::FileAccess, "Could not open file"),
            Event::FileNameInvalid => self.fail(
                ErrorKind::Encoding,
                "Invalid / Non UTF-8 file name",
            ),
            _ => self.fail(ErrorKind::FileAccess, "Could not read data from file"),
        }
    }

    fn after_handshake(&mut self, reply: &str) -> (action: Action)
        ensures
            final(self).wf(),
            final(self)@.config == old(self)@.config,
            final(self).address() == old(self).address(),
            final(self)@.phase == after_handshake(old(self)@.config, reply@).phase,
            final(self)@.pending == after_handshake(old(self)@.config, reply@).pending,
            action@ == after_handshake(old(self)@.config, reply@).action,
    {
        if handshake_accepted(reply) {
            self.begin_base(0)
        } else {
            let mut message = "Unsupported language: ".to_owned();
            message.append(self.config.language().as_str());
            self.fail(ErrorKind::HandshakeRejected, message.as_str())
        }
    }

    fn take_pending(&mut self) -> (bytes: Vec<u8>)
        ensures
            bytes@ == old(self)@.pending,
            final(self)@ == (ClientView { pending: Seq::empty(), ..old(self)@ }),
            final(self).address() == old(self).address(),
    {
        let mut bytes: Vec<u8> = Vec::new();
        std::mem::swap(&mut self.pending, &mut bytes);
        bytes
    }

    /// Takes the protocol one step further: given what happened to the
    /// operation asked for last, says what to do next, as [`next`] has it.
    /// Where a file was loaded and a pattern for shown names is set, the
    /// pattern is searched in the file name first.
    pub fn step(&mut self, event: Event) -> (action: Action)
        requires
            old(self).wf(),
        ensures
            final(self).wf(),
            final(self)@.config == old(self)@.config,
            final(self).address() == old(self).address(),
            final(self)@.phase == next(old(self)@, event, search(old(self)@.config, event)).phase,
            final(self)@.pending == next(
                old(self)@,
                event,
                search(old(self)@.config, event),
            ).pending,
            action@ == next(old(self)@, event, search(old(self)@.config, event)).action,
    {
        let found = match self.config.transform() {
            Some(pattern) => match &event {
                Event::FileLoaded { file_name, .. } => leftmost_match(
                    pattern.as_str(),
                    file_name.as_str(),
                ),
                _ => Ok(None),
            },
            None => Ok(None),
        };
        self.advance(event, found)
    }

    /// Takes the protocol one step further, as [`next`] has it, given what
    /// happened to the operation asked for last and what the search for the
    /// configured pattern in the name of a loaded file gave.
    pub fn advance(&mut self, event: Event, found: Result<Option<String>, ()>) -> (action: Action)
        requires
            old(self).wf(),
        ensures
            final(self).wf(),
            final(self)@.config == old(self)@.config,
            final(self).address() == old(self).address(),
            final(self)@.phase == next(old(self)@, event, match_view(found)).phase,
            final(self)@.pending == next(old(self)@, event, match_view(found)).pending,
            action@ == next(old(self)@, event, match_view(found)).action,
    {
        match self.phase {
            Phase::Connected => match event {
                Event::Connected => {
                    self.phase = Phase::Handshake { line: 0 };
                    self.pending = Vec::new();
                    Action::SendText(self.handshake_line(0))
                },
                _ => self.fail(ErrorKind::Connection, "Unable to connect to the server"),
            },
            Phase::Handshake { line } => match event {
                Event::Written => {
                    self.pending = Vec::new();
                    if line + 1 < HANDSHAKE_LINES {
                        self.phase = Phase::Handshake { line: line + 1 };
                        Action::SendText(self.handshake_line(line + 1))
                    } else {
                        self.phase = Phase::HandshakeSent;
                        Action::ReadReply
                    }
                },
                _ => self.fail(ErrorKind::ProtocolWrite, handshake_failure(line)),
            },
            Phase::HandshakeSent => match event {
                Event::Reply(text) => self.after_handshake(text.as_str()),
                _ => self.fail(
                    ErrorKind::ProtocolRead,
                    "Unable to recieve server's header response",
                ),
            },
            Phase::BaseFilesUploading { position, stage } => match stage {
                Stage::Loading => {
                    let path = self.config.base_files()[position].clone();
                    self.after_load(
                        path.as_str(),
                        0,
                        Phase::BaseFilesUploading { position, stage: Stage::Announcing },
                        event,
                        found,
                    )
                },
                Stage::Announcing => match event {
                    Event::Written => {
                        self.phase = Phase::BaseFilesUploading { position, stage: Stage::Sending };
                        Action::SendBytes(self.take_pending())
                    },
                    _ => self.fail(ErrorKind::ProtocolWrite, "Unable to write file description"),
                },
                Stage::Sending => match event {
                    Event::Written => {
                        let count = self.config.base_files().len();
                        assert(position < count);
                        self.begin_base(position + 1)
                    },
                    _ => self.fail(ErrorKind::ProtocolWrite, "Unable to write file description"),
                },
            },
            Phase::SubmissionFilesUploading { position, stage } => match stage {
                Stage::Loading => {
                    let count = self.config.submission_files().len();
                    assert(position < count);
                    let path = self.config.submission_files()[position].clone();
                    self.after_load(
                        path.as_str(),
                        position + 1,
                        Phase::SubmissionFilesUploading { position, stage: Stage::Announcing },
                        event,
                        found,
                    )
                },
                Stage::Announcing => match event {
                    Event::Written => {
                        self.phase = Phase::SubmissionFilesUploading {
                            position,
                            stage: Stage::Sending,
                        };
                        Action::SendBytes(self.take_pending())
                    },
                    _ => self.fail(ErrorKind::ProtocolWrite, "Unable to write file description"),
                },
                Stage::Sending => match event {
                    Event::Written => {
                        let count = self.config.submission_files().len();
                        assert(position < count);
                        self.begin_submission(position + 1)
                    },
                    _ => self.fail(ErrorKind::ProtocolWrite, "Unable to write file description"),
                },
            },
            Phase::QuerySent => match event {
                Event::Written => {
                    self.phase = Phase::AwaitingResult;
                    self.pending = Vec::new();
                    Action::ReadReply
                },
                _ => self.fail(ErrorKind::ProtocolWrite, "Could not send query to server"),
            },
            Phase::AwaitingResult => match event {
                Event::Reply(text) => {
                    self.phase = Phase::Done;
                    self.pending = Vec::new();
                    Action::Finish(text)
                },
                _ => self.fail(ErrorKind::ProtocolRead, "Unable to read Url from server"),
            },
            Phase::Done => {
                self.pending = Vec::new();
                Action::Fail(
                    MossError {
                        kind: ErrorKind::ProtocolWrite,
                        message: "The client is finished".to_owned(),
                    },
                )
            },
            Phase::Failed => self.fail(ErrorKind::ProtocolWrite, "The client is finished"),
        }
    }
}

fn handshake_failure(line: usize) -> (message: &'static str)
    ensures
        message@ == handshake_failure_text(line as int),
{
    if line == 0 {
        "Could not authenticate with Moss"
    } else if line == 1 {
        "Error sending directory information to Moss server"
    } else if line == 2 {
        "Error sending experimental information to Moss server"
    } else if line == 3 {
        "Error sending match information to Moss server"
    } else if line == 4 {
        "Error sending display information to Moss server"
    } else {
        "Error sending language information to Moss server"
    }
}

} // verus!
