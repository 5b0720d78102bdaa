//! A whole session: the client driven to its end over a transport.
use vstd::prelude::*;
use crate::client::client::{
    begin_base, begin_submission, next, phase_fits, reply_buffer, search, shown_name, Action,
    ActionView, ClientView, Event, MossClient, Outcome, Phase, Stage,
};
use crate::client::error::MossError;
use crate::client::laws::after;
use crate::client::wire::{file_line_text, is_affirmative};

verus! {

/// How the attempt to read a file ended.
#[derive(Debug, Clone)]
pub enum Loaded {
    /// The file is there and was read whole: its bytes.
    Whole(Vec<u8>),
    /// The file is not there any more.
    Missing,
    /// The file could not be opened.
    Unopenable,
    /// The file could not be read.
    Unreadable,
}

/// The last component of `path` as text, with `std::path::Path::file_name`:
/// `None` where the path has none (it ends in `..`) or where it is no valid
/// text.  What counts as a component differs between systems, so nothing is
/// claimed of the result.
#[verifier::external_body]
pub(crate) fn file_name_of(path: &str) -> (name: Option<String>) {
    std::path::Path::new(path).file_name().and_then(|n| n.to_str()).map(|n| n.to_owned())
}

/// The event for the attempt to read a file, given the name that its path
/// ends in: a failure as it is; a file that was read whole, with its bytes,
/// under that name, or as a file without a name where there is none.
pub fn named_event(name: Option<String>, loaded: Loaded) -> (event: Event)
    ensures
        match loaded {
            Loaded::Whole(bytes) => match name {
                Some(given) => event == (Event::FileLoaded { file_name: given, bytes }),
                None => event is FileNameInvalid,
            },
            Loaded::Missing => event is FileMissing,
            Loaded::Unopenable => event is FileUnopenable,
            Loaded::Unreadable => event is FileUnreadable,
        },
{
    match loaded {
        Loaded::Whole(bytes) => match name {
            Some(file_name) => Event::FileLoaded { file_name, bytes },
            None => Event::FileNameInvalid,
        },
        Loaded::Missing => Event::FileMissing,
        Loaded::Unopenable => Event::FileUnopenable,
        Loaded::Unreadable => Event::FileUnreadable,
    }
}

/// The event for the attempt to read the file at `path`: a failure as it
/// is; a file that was read, with its bytes, under the last component of its
/// path, or as a file without a name where the path has none.
pub fn loaded_event(path: &str, loaded: Loaded) -> (event: Event)
    ensures
        match loaded {
            Loaded::Whole(bytes) => event is FileNameInvalid || (event matches Event::FileLoaded {
                bytes: kept,
                ..
            } && kept == bytes),
            Loaded::Missing => event is FileMissing,
            Loaded::Unopenable => event is FileUnopenable,
            Loaded::Unreadable => event is FileUnreadable,
        },
{
    named_event(file_name_of(path), loaded)
}

/// What a session needs from the outside: a stream to the server that is
/// already established, and the files on disk.  Nothing is assumed of an
/// implementation: the session is correct whatever it reports.
pub trait Transport {
    /// Writes all of `bytes` to the stream in one write and tells whether
    /// that succeeded.
    fn write(&mut self, bytes: &[u8]) -> bool;

    /// Reads once from the stream into the front of `buffer` and tells
    /// whether that succeeded.
    fn read(&mut self, buffer: &mut Vec<u8>) -> bool;

    /// Checks that the file at `path` is there and reads it whole.
    fn load(&mut self, path: &str) -> Loaded;
}

/// The state of a client after the events of `events`, one after the other.
#[verifier::opaque]
pub open spec fn state_after(c: ClientView, events: Seq<Event>) -> ClientView
    decreases events.len(),
{
    if events.len() == 0 {
        c
    } else {
        let before = state_after(c, events.drop_last());
        after(before, next(before, events.last(), search(c.config, events.last())))
    }
}

/// The action that a client answers the last of `events` with, after the
/// others.
pub open spec fn last_action(c: ClientView, events: Seq<Event>) -> ActionView
    recommends
        events.len() > 0,
{
    let before = state_after(c, events.drop_last());
    next(before, events.last(), search(c.config, events.last())).action
}

/// Without events a client stays as it is.
pub proof fn lemma_state_after_nothing(c: ClientView)
    ensures
        state_after(c, Seq::<Event>::empty()) == c,
{
    reveal(state_after);
}

/// One more event: the state after it is the state after the others, taken
/// one step further.  The configuration stays.
pub proof fn lemma_state_after_push(c: ClientView, events: Seq<Event>, event: Event)
    ensures
        state_after(c, events.push(event)) == after(
            state_after(c, events),
            next(state_after(c, events), event, search(c.config, event)),
        ),
        state_after(c, events).config == c.config,
        state_after(c, events.push(event)).config == c.config,
    decreases events.len(),
{
    reveal(state_after);
    assert(events.push(event).drop_last() =~= events);
    if events.len() > 0 {
        lemma_state_after_push(c, events.drop_last(), events.last());
        assert(events.drop_last().push(events.last()) =~= events);
    }
}

/// Events one after the other: first those of `a`, then, from the state
/// they lead to, those of `b`.
pub proof fn lemma_state_after_concat(c: ClientView, a: Seq<Event>, b: Seq<Event>)
    ensures
        state_after(c, a + b) == state_after(state_after(c, a), b),
    decreases b.len(),
{
    let from = state_after(c, a);
    if b.len() == 0 {
        assert(a + b =~= a);
        assert(b =~= Seq::<Event>::empty());
        lemma_state_after_nothing(from);
    } else {
        let earlier = b.drop_last();
        lemma_state_after_concat(c, a, earlier);
        assert((a + earlier).push(b.last()) =~= a + b);
        assert(earlier.push(b.last()) =~= b);
        lemma_state_after_push(c, a + earlier, b.last());
        lemma_state_after_push(from, earlier, b.last());
        lemma_state_after_push(c, a, b.last());
    }
}

/// The position of a stage within the upload of a file.
pub open spec fn stage_rank(stage: Stage) -> nat {
    match stage {
        Stage::Loading => 0,
        Stage::Announcing => 1,
        Stage::Sending => 2,
    }
}

/// An upper bound on the number of steps that a client still takes.
pub open spec fn steps_left(c: ClientView) -> nat {
    let base = c.config.base_files.len();
    let submission = c.config.submission_files.len();
    match c.phase {
        Phase::Connected => 3 * base + 3 * submission + 10,
        Phase::Handshake { line } => (3 * base + 3 * submission + 9 - line) as nat,
        Phase::HandshakeSent => 3 * base + 3 * submission + 3,
        Phase::BaseFilesUploading { position, stage } => (3 * (base - position) + 3 * submission
            + 2 - stage_rank(stage)) as nat,
        Phase::SubmissionFilesUploading { position, stage } => (3 * (submission - position) + 2
            - stage_rank(stage)) as nat,
        Phase::QuerySent => 2,
        Phase::AwaitingResult => 1,
        Phase::Done => 0,
        Phase::Failed => 0,
    }
}

/// Every step that does not end the session brings its end nearer: the
/// protocol never goes back and never stalls.
pub proof fn lemma_steps_decrease(
    c: ClientView,
    event: Event,
    found: Result<Option<Seq<char>>, ()>,
)
    requires
        phase_fits(c.config, c.phase),
        c.config.base_files.len() <= usize::MAX,
        c.config.submission_files.len() <= usize::MAX,
    ensures
        next(c, event, found).action is Finish || next(c, event, found).action is Fail
            || steps_left(after(c, next(c, event, found))) < steps_left(c),
        next(c, event, found).action is Finish ==> next(c, event, found).phase == Phase::Done,
        next(c, event, found).action is Fail ==> next(c, event, found).phase.is_terminal(),
{
}

/// The handshake was accepted in the course of `events`: one of them is a
/// reply that came while the client waited for the answer to the handshake,
/// and it is an affirmative.
pub open spec fn accepted_within(c: ClientView, events: Seq<Event>) -> bool {
    exists|k: int|
        {
            &&& 0 <= k < events.len()
            &&& state_after(c, events.subrange(0, k)).phase == Phase::HandshakeSent
            &&& (#[trigger] events[k]) matches Event::Reply(text) && is_affirmative(text@)
        }
}

/// The phases in which files or the query are on their way, or the result.
pub open spec fn past_handshake(phase: Phase) -> bool {
    ||| phase is BaseFilesUploading
    ||| phase is SubmissionFilesUploading
    ||| phase is QuerySent
    ||| phase is AwaitingResult
    ||| phase is Done
}

/// No file, no query and no result without an accepted handshake: whatever
/// events a client that has not sent anything yet is given, it gets past the
/// handshake only if one of them was an affirmative reply to it.
#[verifier::rlimit(50)]
pub proof fn lemma_upload_only_after_acceptance(c: ClientView, events: Seq<Event>)
    requires
        c.phase == Phase::Connected,
    ensures
        past_handshake(state_after(c, events).phase) ==> accepted_within(c, events),
    decreases events.len(),
{
    if events.len() == 0 {
        assert(events =~= Seq::<Event>::empty());
        lemma_state_after_nothing(c);
    } else {
        let earlier = events.drop_last();
        let before = state_after(c, earlier);
        lemma_upload_only_after_acceptance(c, earlier);
        assert(earlier.push(events.last()) =~= events);
        lemma_state_after_push(c, earlier, events.last());
        if past_handshake(state_after(c, events).phase) {
            if past_handshake(before.phase) {
                let k = choose|k: int|
                    {
                        &&& 0 <= k < earlier.len()
                        &&& state_after(c, earlier.subrange(0, k)).phase == Phase::HandshakeSent
                        &&& (#[trigger] earlier[k]) matches Event::Reply(text) && is_affirmative(
                            text@,
                        )
                    };
                assert(events.subrange(0, k) =~= earlier.subrange(0, k));
                assert(events[k] == earlier[k]);
            } else {
                let k = earlier.len() as int;
                assert(events.subrange(0, k) =~= earlier);
                assert(before.phase == Phase::HandshakeSent);
                assert(events[k] == events.last());
            }
        }
    }
}

/// The phase is one in which the client waits for a file to be loaded.
pub open spec fn awaits_file(phase: Phase) -> bool {
    match phase {
        Phase::BaseFilesUploading { stage, .. } => stage == Stage::Loading,
        Phase::SubmissionFilesUploading { stage, .. } => stage == Stage::Loading,
        _ => false,
    }
}

/// The index under which the file of an upload phase is announced: 0 for a
/// base file, the position counted from 1 for a submission file.
pub open spec fn frame_index(phase: Phase) -> nat {
    match phase {
        Phase::SubmissionFilesUploading { position, .. } => (position + 1) as nat,
        _ => 0,
    }
}

/// What follows the file of an upload phase: the next file of its list, or
/// what comes after the list.
pub open spec fn following(c: ClientView) -> Outcome {
    match c.phase {
        Phase::SubmissionFilesUploading { position, .. } => begin_submission(
            c.config,
            position + 1,
        ),
        Phase::BaseFilesUploading { position, .. } => begin_base(c.config, position + 1),
        _ => begin_base(c.config, 0),
    }
}

/// The upload of one file, from the moment it is loaded: the client writes
/// the line that announces it, with its index, the number of its bytes and
/// its shown name; then exactly those bytes; then it turns to what follows
/// the file.
pub proof fn lemma_frame(c: ClientView, file_name: String, bytes: Vec<u8>)
    requires
        awaits_file(c.phase),
        shown_name(
            c.config,
            file_name@,
            search(c.config, Event::FileLoaded { file_name, bytes }),
        ) is Some,
    ensures
        ({
            let loaded = Event::FileLoaded { file_name, bytes };
            let name = shown_name(c.config, file_name@, search(c.config, loaded))->Some_0;
            &&& last_action(c, seq![loaded]) == ActionView::SendText(
                file_line_text(frame_index(c.phase), c.config.language, bytes@.len(), name),
            )
            &&& last_action(c, seq![loaded, Event::Written]) == ActionView::SendBytes(bytes@)
            &&& last_action(c, seq![loaded, Event::Written, Event::Written]) == following(
                c,
            ).action
            &&& state_after(c, seq![loaded, Event::Written, Event::Written]) == after(
                c,
                following(c),
            )
        }),
{
    let loaded = Event::FileLoaded { file_name, bytes };
    let none = Seq::<Event>::empty();
    let one = seq![loaded];
    let two = seq![loaded, Event::Written];
    let three = seq![loaded, Event::Written, Event::Written];
    assert(none.push(loaded) =~= one);
    assert(one.push(Event::Written) =~= two);
    assert(two.push(Event::Written) =~= three);
    assert(one.drop_last() =~= none);
    assert(two.drop_last() =~= one);
    assert(three.drop_last() =~= two);
    lemma_state_after_nothing(c);
    lemma_state_after_push(c, none, loaded);
    lemma_state_after_push(c, one, Event::Written);
    lemma_state_after_push(c, two, Event::Written);
}

/// The events of uploads that all succeed: for each file what loading it
/// gave, then the two completed writes of its line and of its bytes.
pub open spec fn upload_events(loads: Seq<Event>) -> Seq<Event>
    decreases loads.len(),
{
    if loads.len() == 0 {
        Seq::empty()
    } else {
        upload_events(loads.drop_last()) + seq![loads.last(), Event::Written, Event::Written]
    }
}

/// Where a client stands when `done` files are uploaded, base files first:
/// at the next base file, the next submission file, or the query.
pub open spec fn standing_at(c: ClientView, done: int) -> ClientView {
    if done < c.config.base_files.len() {
        after(c, begin_base(c.config, done))
    } else {
        after(c, begin_submission(c.config, done - c.config.base_files.len()))
    }
}

/// The event tells that a file was read whole and that its shown name can be
/// told.
pub open spec fn is_good_load(c: ClientView, event: Event) -> bool {
    match event {
        Event::FileLoaded { file_name, .. } => shown_name(
            c.config,
            file_name@,
            search(c.config, event),
        ) is Some,
        _ => false,
    }
}

/// From one file to the next: a client that stands at a file stands, when
/// that file is through, at the file that follows it among all files, base
/// files first, or at the query.
pub proof fn lemma_standing_next(c: ClientView, done: int)
    requires
        c.config.base_files.len() <= usize::MAX,
        c.config.submission_files.len() <= usize::MAX,
        0 <= done < c.config.base_files.len() + c.config.submission_files.len(),
    ensures
        ({
            let at = standing_at(c, done);
            &&& at.config == c.config
            &&& awaits_file(at.phase)
            &&& after(at, following(at)) == standing_at(c, done + 1)
        }),
{
}

/// The files are uploaded one by one in the order they were added, base
/// files first: a client that stands at the first file and is given, for
/// each of the first files, its contents and two completed writes, stands at
/// the file that follows them, or at the query when none is left.  What it
/// writes for each file on the way is told by [`lemma_frame`].
#[verifier::rlimit(50)]
pub proof fn lemma_uploads_in_order(c: ClientView, loads: Seq<Event>)
    requires
        c == standing_at(c, 0),
        c.config.base_files.len() <= usize::MAX,
        c.config.submission_files.len() <= usize::MAX,
        loads.len() <= c.config.base_files.len() + c.config.submission_files.len(),
        forall|k: int| 0 <= k < loads.len() ==> is_good_load(c, #[trigger] loads[k]),
    ensures
        state_after(c, upload_events(loads)) == standing_at(c, loads.len() as int),
    decreases loads.len(),
{
    if loads.len() == 0 {
        lemma_state_after_nothing(c);
    } else {
        let earlier = loads.drop_last();
        let done = earlier.len() as int;
        assert forall|k: int| 0 <= k < earlier.len() implies is_good_load(
            c,
            #[trigger] earlier[k],
        ) by {
            assert(earlier[k] == loads[k]);
        }
        lemma_uploads_in_order(c, earlier);
        let at = standing_at(c, done);
        let three = seq![loads.last(), Event::Written, Event::Written];
        lemma_state_after_concat(c, upload_events(earlier), three);
        lemma_standing_next(c, done);
        assert(is_good_load(c, loads[done]));
        match loads.last() {
            Event::FileLoaded { file_name, bytes } => {
                lemma_frame(at, file_name, bytes);
            },
            _ => {},
        }
    }
}

/// The events of a handshake that is written without a failure: the
/// connection, and one completed write for each line.
pub open spec fn handshake_events() -> Seq<Event> {
    seq![
        Event::Connected,
        Event::Written,
        Event::Written,
        Event::Written,
        Event::Written,
        Event::Written,
        Event::Written,
    ]
}

/// The events of a session in which nothing fails: the handshake and the
/// reply to it, the uploads, the completed write of the query and the reply
/// with the result.
pub open spec fn session_events(reply: String, loads: Seq<Event>, result: String) -> Seq<Event> {
    handshake_events() + seq![Event::Reply(reply)] + upload_events(loads) + seq![
        Event::Written,
        Event::Reply(result),
    ]
}

/// A session in which nothing fails ends with the result: when every write
/// completes, the reply to the handshake is an affirmative, every file is
/// loaded and the last read brings `result`, the client hands out `result`
/// and is done.
#[verifier::rlimit(50)]
pub proof fn lemma_successful_session(
    c: ClientView,
    reply: String,
    loads: Seq<Event>,
    result: String,
)
    requires
        c.phase == Phase::Connected,
        c.config.base_files.len() <= usize::MAX,
        c.config.submission_files.len() <= usize::MAX,
        is_affirmative(reply@),
        loads.len() == c.config.base_files.len() + c.config.submission_files.len(),
        forall|k: int| 0 <= k < loads.len() ==> is_good_load(c, #[trigger] loads[k]),
    ensures
        last_action(c, session_events(reply, loads, result)) == ActionView::Finish(result@),
        state_after(c, session_events(reply, loads, result)).phase == Phase::Done,
{
    let written = Event::Written;
    let h1 = Seq::<Event>::empty().push(Event::Connected);
    let h2 = h1.push(written);
    let h3 = h2.push(written);
    let h4 = h3.push(written);
    let h5 = h4.push(written);
    let h6 = h5.push(written);
    let h7 = h6.push(written);
    lemma_state_after_nothing(c);
    lemma_state_after_push(c, Seq::<Event>::empty(), Event::Connected);
    lemma_state_after_push(c, h1, written);
    lemma_state_after_push(c, h2, written);
    lemma_state_after_push(c, h3, written);
    lemma_state_after_push(c, h4, written);
    lemma_state_after_push(c, h5, written);
    lemma_state_after_push(c, h6, written);
    assert(h7 =~= handshake_events());
    assert(state_after(c, h7).phase == Phase::HandshakeSent);
    let answered = h7.push(Event::Reply(reply));
    lemma_state_after_push(c, h7, Event::Reply(reply));
    let first = state_after(c, answered);
    assert(first == standing_at(first, 0));
    assert forall|k: int| 0 <= k < loads.len() implies is_good_load(first, #[trigger] loads[k]) by {
        assert(is_good_load(c, loads[k]));
    }
    lemma_uploads_in_order(first, loads);
    lemma_state_after_concat(c, answered, upload_events(loads));
    let uploaded = answered + upload_events(loads);
    assert(state_after(c, uploaded).phase == Phase::QuerySent);
    lemma_state_after_push(c, uploaded, written);
    let queried = uploaded.push(written);
    lemma_state_after_push(c, queried, Event::Reply(result));
    let all = queried.push(Event::Reply(result));
    assert(all =~= session_events(reply, loads, result));
    assert(all.drop_last() =~= queried);
}

/// The event is one that the outcome of the action can be: a completed or
/// failed write for a write, a reply or a failure for a read, and for a file
/// what loading it gave.
pub open spec fn answers(action: ActionView, event: Event) -> bool {
    match action {
        ActionView::SendText(_) => event is Written || event is Failed,
        ActionView::SendBytes(_) => event is Written || event is Failed,
        ActionView::ReadReply => event is Reply || event is Failed,
        ActionView::LoadFile(_) => {
            ||| event is FileLoaded
            ||| event is FileNameInvalid
            ||| event is FileMissing
            ||| event is FileUnopenable
            ||| event is FileUnreadable
        },
        _ => false,
    }
}

/// What a session ends with, as an action.
pub open spec fn ending(r: Result<String, MossError>) -> ActionView {
    match r {
        Ok(text) => ActionView::Finish(text@),
        Err(e) => ActionView::Fail(e.kind, e.message@),
    }
}

impl<S> MossClient<S> {
    /// Runs the protocol to its end over an established stream: handshake,
    /// base files, submission files, query, result.
    ///
    /// The session always ends.  Its result is what the protocol answers to
    /// a sequence of events that begins with the established connection:
    /// each later event is an outcome of the action that the client asked
    /// for just before, none but the last ended the session, and the last is
    /// answered with the result or the error that is returned.
    pub fn send<T: Transport>(self, transport: &mut T) -> (r: Result<String, MossError>)
        requires
            self.wf(),
        ensures
            exists|events: Seq<Event>|
                {
                    &&& events.len() > 0
                    &&& events[0] is Connected
                    &&& #[trigger] last_action(self@, events) == ending(r)
                    &&& forall|k: int|
                        0 < k < events.len() ==> answers(
                            #[trigger] last_action(self@, events.subrange(0, k)),
                            events[k],
                        )
                },
    {
        let mut client = self;
        let mut event = Event::Connected;
        let ghost mut fed: Seq<Event> = Seq::empty();
        proof {
            lemma_state_after_nothing(self@);
        }
        loop
            invariant
                client.wf(),
                client@ == state_after(self@, fed),
                client@.config == self@.config,
                fed.len() == 0 ==> event is Connected,
                fed.len() > 0 ==> fed[0] is Connected,
                fed.len() > 0 ==> answers(last_action(self@, fed), event),
                forall|k: int|
                    0 < k < fed.len() ==> answers(
                        #[trigger] last_action(self@, fed.subrange(0, k)),
                        fed[k],
                    ),
            decreases steps_left(client@),
        {
            let ghost before = client@;
            let ghost events = fed.push(event);
            proof {
                client.lemma_counts_fit();
                lemma_steps_decrease(before, event, search(before.config, event));
                lemma_state_after_push(self@, fed, event);
                assert(events.drop_last() =~= fed);
                assert(events.subrange(0, events.len() as int) =~= events);
                assert(fed.subrange(0, fed.len() as int) =~= fed);
                assert forall|k: int| 0 < k < events.len() implies answers(
                    #[trigger] last_action(self@, events.subrange(0, k)),
                    events[k],
                ) by {
                    assert(events.subrange(0, k) =~= fed.subrange(0, k));
                }
            }
            let action = client.step(event);
            assert(action@ == last_action(self@, events));
            assert(client@ == state_after(self@, events));
            event = match action {
                Action::Finish(text) => {
                    return Ok(text);
                },
                Action::Fail(e) => {
                    return Err(e);
                },
                Action::SendText(text) => written(transport.write(text.as_str().as_bytes())),
                Action::SendBytes(bytes) => written(transport.write(bytes.as_slice())),
                Action::ReadReply => {
                    let mut buffer = reply_buffer();
                    if transport.read(&mut buffer) {
                        Event::reply(buffer.as_slice())
                    } else {
                        Event::Failed
                    }
                },
                Action::LoadFile(path) => {
                    let loaded = transport.load(path.as_str());
                    loaded_event(path.as_str(), loaded)
                },
            };
            proof {
                fed = events;
            }
        }
    }
}

/// The event for the outcome of a write.
pub fn written(done: bool) -> (event: Event)
    ensures
        done ==> event is Written,
        !done ==> event is Failed,
{
    if done {
        Event::Written
    } else {
        Event::Failed
    }
}

} // verus!
