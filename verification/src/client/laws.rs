//! What holds of the protocol in every run, proved from its definition.
use vstd::prelude::*;
use crate::client::client::{
    begin_base, next, phase_fits, shown_name, ActionView, ClientView, Event, Outcome, Phase, Stage,
    HANDSHAKE_LINES,
};
use crate::client::error::ErrorKind;
use crate::client::language::MossLanguage;
use crate::client::wire::{file_line_text, is_affirmative, underscored};

verus! {

/// The state a client is in after a step that gave `o`.
pub open spec fn after(c: ClientView, o: Outcome) -> ClientView {
    ClientView { config: c.config, phase: o.phase, pending: o.pending }
}

/// A base file is announced under index 0, whatever its position among the
/// base files.
pub proof fn lemma_base_file_index(
    c: ClientView,
    position: usize,
    file_name: String,
    bytes: Vec<u8>,
    found: Result<Option<Seq<char>>, ()>,
)
    requires
        c.phase == (Phase::BaseFilesUploading { position, stage: Stage::Loading }),
        shown_name(c.config, file_name@, found) is Some,
    ensures
        next(c, Event::FileLoaded { file_name, bytes }, found).action == ActionView::SendText(
            file_line_text(
                0,
                c.config.language,
                bytes@.len(),
                shown_name(c.config, file_name@, found)->Some_0,
            ),
        ),
{
}

/// A submission file is announced under its position in the order of
/// adding, counted from 1.
pub proof fn lemma_submission_file_index(
    c: ClientView,
    position: usize,
    file_name: String,
    bytes: Vec<u8>,
    found: Result<Option<Seq<char>>, ()>,
)
    requires
        c.phase == (Phase::SubmissionFilesUploading { position, stage: Stage::Loading }),
        shown_name(c.config, file_name@, found) is Some,
    ensures
        next(c, Event::FileLoaded { file_name, bytes }, found).action == ActionView::SendText(
            file_line_text(
                (position + 1) as nat,
                c.config.language,
                bytes@.len(),
                shown_name(c.config, file_name@, found)->Some_0,
            ),
        ),
{
}

/// The files are taken in the order they were added: when the bytes of the
/// base file at `position` are written, the next base file is loaded, and
/// after the last one the first submission file; likewise for the submission
/// files, after the last of which the query follows.
pub proof fn lemma_files_in_order(
    c: ClientView,
    position: usize,
    found: Result<Option<Seq<char>>, ()>,
)
    ensures
        c.phase == (Phase::BaseFilesUploading { position, stage: Stage::Sending }) && position + 1
            < c.config.base_files.len() ==> {
            &&& next(c, Event::Written, found).action == ActionView::LoadFile(
                c.config.base_files[position + 1],
            )
            &&& next(c, Event::Written, found).phase == (Phase::BaseFilesUploading {
                position: (position + 1) as usize,
                stage: Stage::Loading,
            })
        },
        c.phase == (Phase::BaseFilesUploading { position, stage: Stage::Sending }) && position + 1
            == c.config.base_files.len() && c.config.submission_files.len() > 0 ==> {
            &&& next(c, Event::Written, found).action == ActionView::LoadFile(
                c.config.submission_files[0],
            )
            &&& next(c, Event::Written, found).phase == (Phase::SubmissionFilesUploading {
                position: 0,
                stage: Stage::Loading,
            })
        },
        c.phase == (Phase::SubmissionFilesUploading { position, stage: Stage::Sending })
            && position + 1 < c.config.submission_files.len() ==> {
            &&& next(c, Event::Written, found).action == ActionView::LoadFile(
                c.config.submission_files[position + 1],
            )
            &&& next(c, Event::Written, found).phase == (Phase::SubmissionFilesUploading {
                position: (position + 1) as usize,
                stage: Stage::Loading,
            })
        },
        c.phase == (Phase::SubmissionFilesUploading { position, stage: Stage::Sending })
            && position + 1 == c.config.submission_files.len() ==> next(
            c,
            Event::Written,
            found,
        ).phase == Phase::QuerySent,
{
}

/// The name at the end of a file's line holds no space: the line ends with
/// the name in which every space is an underscore, and a newline.
pub proof fn lemma_file_line_name_has_no_space(
    index: nat,
    language: MossLanguage,
    byte_len: nat,
    name: Seq<char>,
)
    ensures
        ({
            let line = file_line_text(index, language, byte_len, name);
            let start = line.len() - 1 - name.len();
            &&& start >= 0
            &&& line.last() == '\n'
            &&& line.subrange(start, line.len() - 1) == underscored(name)
            &&& forall|i: int| start <= i < line.len() - 1 ==> #[trigger] line[i] != ' '
        }),
{
    reveal_strlit("\n");
    let line = file_line_text(index, language, byte_len, name);
    let start = line.len() - 1 - name.len();
    assert(line.subrange(start, line.len() - 1) =~= underscored(name));
    assert forall|i: int| start <= i < line.len() - 1 implies #[trigger] line[i] != ' ' by {
        assert(line[i] == underscored(name)[i - start]);
    }
}

/// The upload begins exactly when the reply to the handshake is an
/// affirmative: then the client goes on with the first file (or, without
/// files, with the query); on any other reply it fails with
/// `HandshakeRejected` and asks for nothing more.
pub proof fn lemma_handshake_gates_upload(
    c: ClientView,
    reply: String,
    found: Result<Option<Seq<char>>, ()>,
)
    requires
        c.phase == Phase::HandshakeSent,
    ensures
        is_affirmative(reply@) ==> {
            &&& next(c, Event::Reply(reply), found) == begin_base(c.config, 0)
            &&& next(c, Event::Reply(reply), found).phase != Phase::Failed
        },
        !is_affirmative(reply@) ==> {
            &&& next(c, Event::Reply(reply), found).phase == Phase::Failed
            &&& next(c, Event::Reply(reply), found).action is Fail
            &&& next(c, Event::Reply(reply), found).action->Fail_0 == ErrorKind::HandshakeRejected
        },
{
}

/// There are two points at which the client reads, and no other: when the
/// last line of the handshake is written, and when the query is written.
pub proof fn lemma_two_read_points(
    c: ClientView,
    event: Event,
    found: Result<Option<Seq<char>>, ()>,
)
    requires
        phase_fits(c.config, c.phase),
    ensures
        next(c, event, found).action is ReadReply <==> event is Written && (c.phase
            == Phase::QuerySent || c.phase == (Phase::Handshake {
            line: (HANDSHAKE_LINES - 1) as usize,
        })),
{
}

/// Every read that does not complete ends the session with a read error:
/// while the client waits for the reply to the handshake or for the result,
/// any event but a reply makes it fail, and no text is made up in its place.
pub proof fn lemma_failed_read_fails(
    c: ClientView,
    event: Event,
    found: Result<Option<Seq<char>>, ()>,
)
    requires
        c.phase == Phase::HandshakeSent || c.phase == Phase::AwaitingResult,
        !(event is Reply),
    ensures
        next(c, event, found).phase == Phase::Failed,
        next(c, event, found).action is Fail,
        next(c, event, found).action->Fail_0 == ErrorKind::ProtocolRead,
{
}

/// Once failed, a client never asks for a write, a read or a file again.
pub proof fn lemma_failed_stays_failed(
    c: ClientView,
    event: Event,
    found: Result<Option<Seq<char>>, ()>,
)
    requires
        c.phase == Phase::Failed,
    ensures
        next(c, event, found).phase == Phase::Failed,
        next(c, event, found).action is Fail,
{
}

/// The number of bytes that a file's line declares is the number of bytes
/// written right after it: the line carries the length of what was loaded,
/// and once the line is written the next action is to write exactly those
/// bytes.
pub proof fn lemma_declared_length_is_sent(
    c: ClientView,
    file_name: String,
    bytes: Vec<u8>,
    found: Result<Option<Seq<char>>, ()>,
    later: Result<Option<Seq<char>>, ()>,
)
    requires
        c.phase matches Phase::BaseFilesUploading { stage: Stage::Loading, .. }
            || c.phase matches Phase::SubmissionFilesUploading { stage: Stage::Loading, .. },
        shown_name(c.config, file_name@, found) is Some,
    ensures
        ({
            let announced = next(c, Event::FileLoaded { file_name, bytes }, found);
            let sent = next(after(c, announced), Event::Written, later);
            &&& exists|index: nat, name: Seq<char>|
                announced.action == ActionView::SendText(
                    #[trigger] file_line_text(index, c.config.language, bytes@.len(), name),
                )
            &&& sent.action == ActionView::SendBytes(bytes@)
        }),
{
    match c.phase {
        Phase::BaseFilesUploading { position, .. } => {
            lemma_base_file_index(c, position, file_name, bytes, found);
        },
        Phase::SubmissionFilesUploading { position, .. } => {
            lemma_submission_file_index(c, position, file_name, bytes, found);
        },
        _ => {},
    }
}

} // verus!
