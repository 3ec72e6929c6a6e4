//! First stage: an input message becomes an upload, a wait for the end of the
//! recognition, and a result message.

use vstd::prelude::*;
use vstd::string::*;
use rand::Rng;
use crate::api::{ASRMessage, ResultMessage, ResultMessageView};
use crate::client::{get_status, status_error, status_finished, StatusResponse};
use crate::queue::{after_extend, after_read, visible, Messages, READ_VISIBILITY_SECS};
use crate::store::{needs_upload, set_external_id, upload_due, WorkData};
use crate::text::owned;

verus! {

/// Deliveries of one message after which a worker gives it up.
pub const MAX_READS: i32 = 3;

/// Seconds between two extensions of a message's visibility.
pub const HEARTBEAT_SECS: u64 = 20;

/// Seconds by which each heartbeat extends the visibility.
pub const HEARTBEAT_EXTEND_SECS: u64 = 60;

/// Seconds that the wait for the end of a recognition may take.
pub const POLL_WINDOW_SECS: u64 = 3600;

/// Fixed part of the pause before a status request, in milliseconds.
pub const POLL_BASE_MILLIS: u64 = 8000;

/// Largest random part of the pause before a status request, in milliseconds.
pub const POLL_JITTER_MILLIS: u64 = 5000;

/// Failed status requests in a row that the wait puts up with.
pub const MAX_STATUS_ERRORS: u32 = 3;

/// Whether a message that is delivered for the `read_ct`-th time is given up.
pub fn retries_exhausted(read_ct: i32) -> (r: bool)
    ensures
        r == (read_ct > 3),
{
    read_ct > MAX_READS
}

/// The file that is uploaded for `msg`: it stands in the working directory.
pub fn upload_path(msg: &ASRMessage) -> (r: String)
    ensures
        r@ == msg.base_dir@ + "/working/"@ + msg.file@,
{
    let mut r = owned(msg.base_dir.as_str());
    r.append("/working/");
    r.append(msg.file.as_str());
    r
}

/// The result message for `orig`. An empty `error` means none.
pub open spec fn status_message(
    orig: ASRMessage,
    finished: bool,
    error: Seq<char>,
    external_id: Seq<char>,
) -> ResultMessageView {
    ResultMessageView {
        id: orig.id@,
        finished,
        file: orig.file@,
        base_dir: orig.base_dir@,
        external_id,
        error: if error.len() == 0 {
            None
        } else {
            Some(error)
        },
    }
}

/// Builds the result message that reports how the job of `orig` ended.
pub fn send_status(orig: &ASRMessage, finished: bool, error: &str, external_id: &str) -> (r:
    ResultMessage)
    ensures
        r@ == status_message(*orig, finished, error@, external_id@),
{
    ResultMessage {
        id: owned(orig.id.as_str()),
        file: owned(orig.file.as_str()),
        base_dir: owned(orig.base_dir.as_str()),
        finished,
        external_id: owned(external_id),
        error: if error.unicode_len() == 0 {
            None
        } else {
            Some(owned(error))
        },
    }
}

/// The result message of a job that is given up: finished, with the error
/// `max retries reached`, and with the external id of its record where one
/// could be read.
pub fn max_retries_status(orig: &ASRMessage, recovered: &Option<WorkData>) -> (r: ResultMessage)
    ensures
        r@ == status_message(
            *orig,
            true,
            "max retries reached"@,
            match *recovered {
                Some(item) => item.external_id@,
                None => Seq::empty(),
            },
        ),
{
    proof {
        reveal_strlit("");
        assert(""@ =~= Seq::<char>::empty());
    }
    match recovered {
        Some(item) => send_status(orig, true, "max retries reached", item.external_id.as_str()),
        None => send_status(orig, true, "max retries reached", ""),
    }
}

/// What a heartbeat does when it wakes: nothing more once the handler is
/// done, else it extends the visibility by the returned number of seconds.
pub fn keep_in_progress(done: bool) -> (r: Option<u64>)
    ensures
        r == if done {
            None::<u64>
        } else {
            Some(60u64)
        },
{
    if done {
        None
    } else {
        Some(HEARTBEAT_EXTEND_SECS)
    }
}

/// The queue after the message `id` was read and its visibility extended at
/// each of the times `beats`.
pub open spec fn beaten(q: Messages, id: int, beats: Seq<int>) -> Messages
    decreases beats.len(),
{
    if beats.len() == 0 {
        q
    } else {
        after_extend(beaten(q, id, beats.drop_last()), id, beats.last(), HEARTBEAT_EXTEND_SECS as int)
    }
}

/// Until when a message that was read at `read_at` stays hidden after the
/// heartbeats at `beats`.
pub open spec fn hidden_until(read_at: int, beats: Seq<int>) -> int {
    if beats.len() == 0 {
        read_at + READ_VISIBILITY_SECS
    } else {
        beats.last() + HEARTBEAT_EXTEND_SECS
    }
}

/// Whether each heartbeat comes while the message is still hidden: the first
/// before the visibility timeout of the read is over, each later one before
/// the extension of the one before it is.
pub open spec fn in_time(read_at: int, beats: Seq<int>) -> bool {
    forall|i: int|
        0 <= i < beats.len() ==> read_at <= #[trigger] beats[i] < hidden_until(
            read_at,
            beats.take(i),
        )
}

/// The times of `n` heartbeats in the worker's rhythm, one every twenty
/// seconds after the read.
pub open spec fn rhythm(read_at: int, n: nat) -> Seq<int> {
    Seq::new(n, |i: int| read_at + HEARTBEAT_SECS * (i + 1))
}

/// Heartbeats that come in time keep a message to its handler: after the
/// read and the heartbeats it counts one delivery more, and no other reader
/// gets it before the last extension is over.
pub proof fn lemma_heartbeats_keep_hidden(
    q: Messages,
    id: int,
    read_at: int,
    beats: Seq<int>,
    later: int,
)
    requires
        visible(q, id, read_at),
        in_time(read_at, beats),
        later < hidden_until(read_at, beats),
    ensures
        beaten(after_read(q, id, read_at, READ_VISIBILITY_SECS as int), id, beats).contains_key(id),
        beaten(after_read(q, id, read_at, READ_VISIBILITY_SECS as int), id, beats)[id].read_ct == q[id].read_ct + 1,
        !visible(beaten(after_read(q, id, read_at, READ_VISIBILITY_SECS as int), id, beats), id, later),
    decreases beats.len(),
{
    if beats.len() > 0 {
        let before = beats.drop_last();
        assert forall|i: int| 0 <= i < before.len() implies read_at <= #[trigger] before[i]
            < hidden_until(read_at, before.take(i)) by {
            assert(before[i] == beats[i]);
            assert(before.take(i) =~= beats.take(i));
        }
        assert(beats.take(beats.len() - 1) =~= before);
        assert(beats[beats.len() - 1] < hidden_until(read_at, before));
        lemma_heartbeats_keep_hidden(q, id, read_at, before, beats.last());
    }
}

/// The worker's rhythm is in time: a heartbeat every twenty seconds comes
/// before a visibility timeout of thirty seconds, and before an extension by
/// sixty seconds, is over.
pub proof fn lemma_rhythm_is_in_time(read_at: int, n: nat)
    ensures
        in_time(read_at, rhythm(read_at, n)),
        n > 0 ==> hidden_until(read_at, rhythm(read_at, n)) == read_at + HEARTBEAT_SECS * n
            + HEARTBEAT_EXTEND_SECS,
{
    let beats = rhythm(read_at, n);
    assert forall|i: int| 0 <= i < beats.len() implies read_at <= #[trigger] beats[i]
        < hidden_until(read_at, beats.take(i)) by {
        if i > 0 {
            assert(beats.take(i).last() == beats[i - 1]);
        }
    }
}

/// How the wait for the end of a recognition ended.
#[derive(Debug)]
pub enum WaitEnd {
    /// The wait came to an outcome: the job is `finished` or not, with this
    /// error text.
    Ended { finished: bool, error: String },
    /// The wait ran out of its hour.
    TimedOut,
    /// The wait was cancelled.
    Cancelled,
}

/// What is reported of a job after its wait: whether it is finished, and the
/// error. A wait that ran out of time is a failure for good: the job is
/// reported as finished with the error `status wait timeout`. A cancelled
/// wait is not reported; the message stays in its queue.
pub open spec fn wait_report(end: WaitEnd) -> Option<(bool, Seq<char>)> {
    match end {
        WaitEnd::Ended { finished, error } => Some((finished, error@)),
        WaitEnd::TimedOut => Some((true, "status wait timeout"@)),
        WaitEnd::Cancelled => None,
    }
}

impl WaitEnd {
    /// What is reported of the job: whether it is finished, and the error.
    pub fn report(self) -> (r: Option<(bool, String)>)
        ensures
            match (wait_report(self), r) {
                (Some(w), Some(got)) => got.0 == w.0 && got.1@ == w.1,
                (None, None) => true,
                _ => false,
            },
    {
        match self {
            WaitEnd::Ended { finished, error } => Some((finished, error)),
            WaitEnd::TimedOut => Some((true, owned("status wait timeout"))),
            WaitEnd::Cancelled => None,
        }
    }

    /// Why the wait ended, as a line of text.
    pub fn reason(&self) -> (r: String)
        ensures
            match *self {
                WaitEnd::Ended { finished, error } => r@ == error@,
                WaitEnd::TimedOut => r@ == "status wait timeout"@,
                WaitEnd::Cancelled => r@ == "cancelled"@,
            },
    {
        match self {
            WaitEnd::Ended { finished: _, error } => owned(error.as_str()),
            WaitEnd::TimedOut => owned("status wait timeout"),
            WaitEnd::Cancelled => owned("cancelled"),
        }
    }
}

/// How the wait for the end of a recognition goes on.
#[derive(Debug)]
pub enum PollStep {
    /// Pause for so many milliseconds, then ask for the status.
    Pause(u64),
    /// Go into the next round.
    Again,
    /// The wait is over.
    Stop(WaitEnd),
}

/// State of the wait: failed status requests in a row.
#[derive(Debug)]
pub struct PollState {
    pub err_count: u32,
}

impl PollState {
    /// The state at the start of a wait.
    pub fn new() -> (r: Self)
        ensures
            r.err_count == 0,
    {
        PollState { err_count: 0 }
    }
}

/// A random number from 0 to `max`, both included. Wraps
/// `rand::Rng::gen_range` on the thread's generator with that inclusive
/// range, which is never empty; all that is claimed is that the value lies
/// in the range.
#[verifier::external_body]
fn random_up_to(max: u64) -> (r: u64)
    ensures
        r <= max,
{
    rand::thread_rng().gen_range(0..=max)
}

/// Start of a round with a given random part of the pause: after an hour the
/// wait has run out of time, else it pauses for eight seconds and the random part.
pub fn round_with_jitter(elapsed_secs: u64, jitter_millis: u64) -> (r: PollStep)
    requires
        jitter_millis <= 5000,
    ensures
        elapsed_secs >= 3600 ==> r is Stop && r->Stop_0 is TimedOut,
        elapsed_secs < 3600 ==> r == PollStep::Pause((8000 + jitter_millis) as u64),
{
    if elapsed_secs >= POLL_WINDOW_SECS {
        PollStep::Stop(WaitEnd::TimedOut)
    } else {
        PollStep::Pause(POLL_BASE_MILLIS + jitter_millis)
    }
}

/// Start of a round, `elapsed_secs` after the wait began: after an hour the
/// wait has run out of time, else it pauses between eight and thirteen seconds.
pub fn round_start(elapsed_secs: u64) -> (r: PollStep)
    ensures
        elapsed_secs >= 3600 ==> r is Stop && r->Stop_0 is TimedOut,
        elapsed_secs < 3600 ==> r is Pause && 8000 <= r->Pause_0 <= 13000,
{
    let jitter = random_up_to(POLL_JITTER_MILLIS);
    round_with_jitter(elapsed_secs, jitter)
}

/// End of a pause: a cancelled wait is over, else the status is asked for.
pub fn pause_ended(cancelled: bool) -> (r: Option<WaitEnd>)
    ensures
        cancelled ==> r is Some && r->0 is Cancelled,
        !cancelled ==> r is None,
{
    if cancelled {
        Some(WaitEnd::Cancelled)
    } else {
        None
    }
}

/// How a status request ends the wait, if it does: an answer ends it where
/// the job completed or failed on the service; a failed request ends it
/// where three requests in a row have failed before it, as not finished and
/// with the failure text.
pub open spec fn wait_end(err_count: u32, answer: Result<StatusResponse, String>) -> Option<
    (bool, Seq<char>),
> {
    match answer {
        Ok(res) => if status_finished(&res) {
            Some((true, status_error(&res)))
        } else {
            None
        },
        Err(text) => if err_count >= 3 {
            Some((false, text@))
        } else {
            None
        },
    }
}

/// Takes in the outcome of a status request. An answer resets the failure
/// count and ends the wait where the job completed or failed on the service;
/// a running job goes into the next round. A failed request is counted, and
/// the fourth in a row ends the wait as not finished, with the failure text.
pub fn check_status(state: &mut PollState, answer: Result<StatusResponse, String>) -> (r: PollStep)
    ensures
        match wait_end(old(state).err_count, answer) {
            Some((finished, error)) => r is Stop && r->Stop_0 is Ended && r->Stop_0->finished
                == finished && r->Stop_0->error@ == error,
            None => r is Again,
        },
        answer is Ok ==> final(state).err_count == 0,
        answer is Err && old(state).err_count < 3 ==> final(state).err_count == old(
            state,
        ).err_count + 1,
        answer is Err && old(state).err_count >= 3 ==> final(state).err_count == old(
            state,
        ).err_count,
{
    match answer {
        Ok(res) => {
            state.err_count = 0;
            let (finished, error) = get_status(&res);
            if finished {
                PollStep::Stop(WaitEnd::Ended { finished: true, error })
            } else {
                PollStep::Again
            }
        },
        Err(text) => {
            if state.err_count >= MAX_STATUS_ERRORS {
                PollStep::Stop(WaitEnd::Ended { finished: false, error: text })
            } else {
                state.err_count = state.err_count + 1;
                PollStep::Again
            }
        },
    }
}

/// What the handler of an input message does once the job's record is read.
#[derive(Debug)]
pub enum InputStep {
    /// Upload the audio at this path, then store the external id.
    Upload(String),
    /// The job was uploaded before: wait for its end under this external id.
    Poll(String),
}

/// Decides whether a job is uploaded: only where its record has no external
/// id yet. A job that was uploaded before goes on with the id that is stored.
pub fn after_load(msg: &ASRMessage, item: &WorkData) -> (r: InputStep)
    ensures
        item.external_id@.len() == 0 ==> r is Upload && r->Upload_0@ == msg.base_dir@
            + "/working/"@ + msg.file@,
        item.external_id@.len() > 0 ==> r is Poll && r->Poll_0@ == item.external_id@,
{
    if needs_upload(item) {
        InputStep::Upload(upload_path(msg))
    } else {
        InputStep::Poll(owned(item.external_id.as_str()))
    }
}


/// Where the handler of an input message stands.
#[derive(Debug)]
pub enum InputState {
    /// The message is given up; its record is being read for the external id.
    Recovering,
    /// The record of the job is being read or created.
    Loading,
    /// The audio is being uploaded.
    Uploading(WorkData),
    /// The external id that the upload returned is being stored.
    Storing(WorkData, String),
    /// The end of the recognition is waited for.
    Polling(WorkData),
    /// The result message is being sent. Where the message was given up, a
    /// failure to send is put up with.
    Reporting { forgiving: bool },
    /// The handler is done.
    Finished,
}

/// What came of the last action.
#[derive(Debug)]
pub enum InputEvent {
    /// The record was read or created; none where the store failed.
    Loaded(Option<WorkData>),
    /// The upload returned this external id; none where it failed.
    Uploaded(Option<String>),
    /// Whether the external id was stored.
    Stored(bool),
    /// How the wait ended.
    Polled(WaitEnd),
    /// Whether the result message was sent.
    Sent(bool),
}

/// What the handler does next.
#[derive(Debug)]
pub enum InputAction {
    /// Read the record of the job, if it has one.
    Read,
    /// Read the record of the job, or create it.
    Load,
    /// Upload the audio at this path.
    Upload(String),
    /// Store this external id for the job.
    Store { id: String, external_id: String },
    /// Wait for the end of the recognition under this external id.
    Poll(String),
    /// Send this result message.
    Send(ResultMessage),
    /// Return; the message is deleted from its queue or stays for another
    /// delivery.
    Finish { delete: bool },
}

/// Whether an event answers the action that led into a state.
pub open spec fn answers(state: InputState, event: InputEvent) -> bool {
    match state {
        InputState::Recovering => event is Loaded,
        InputState::Loading => event is Loaded,
        InputState::Uploading(_) => event is Uploaded,
        InputState::Storing(_, _) => event is Stored,
        InputState::Polling(_) => event is Polled,
        InputState::Reporting { .. } => event is Sent,
        InputState::Finished => false,
    }
}

/// Whether an event lets the handler go on; else it returns and the message
/// stays in its queue.
pub open spec fn goes_on(state: InputState, event: InputEvent) -> bool {
    answers(state, event) && match event {
        InputEvent::Loaded(item) => state is Recovering || item is Some,
        InputEvent::Uploaded(id) => id is Some,
        InputEvent::Stored(ok) => ok,
        InputEvent::Polled(end) => wait_report(end) is Some,
        InputEvent::Sent(_) => true,
    }
}

/// Whether a job is reported as finished after its wait.
pub open spec fn reported_finished(event: InputEvent) -> bool {
    let report = wait_report(event->Polled_0)->0;
    report.0
}

/// The error that is reported of a job after its wait.
pub open spec fn reported_error(event: InputEvent) -> Seq<char> {
    let report = wait_report(event->Polled_0)->0;
    report.1
}

/// First step on the `read_ct`-th delivery of an input message. A message
/// that was delivered too often is given up: its record is only read, for
/// the external id. Else the record is read or created.
pub fn process_msg(read_ct: i32) -> (r: (InputState, InputAction))
    ensures
        read_ct > 3 ==> r.0 is Recovering && r.1 is Read,
        read_ct <= 3 ==> r.0 is Loading && r.1 is Load,
{
    if retries_exhausted(read_ct) {
        (InputState::Recovering, InputAction::Read)
    } else {
        (InputState::Loading, InputAction::Load)
    }
}

/// Next step of the handler of the input message `msg`.
///
/// A message that is given up is reported as finished with the error
/// `max retries reached`, and deleted whether or not the report could be
/// sent. Else the job is uploaded only where its record has no external id
/// yet; the id that the upload returned is stored before the wait begins; the
/// outcome of the wait is reported, a wait that ran out of time as a job
/// that is finished with the error `status wait timeout`; and the message is
/// deleted once the report is sent. No other step uploads anything. A
/// cancelled wait is not reported. A failure on the way, or an event that does not answer
/// the last action, ends the handler with the message left in its queue.
pub fn step(msg: &ASRMessage, state: InputState, event: InputEvent) -> (r: (
    InputState,
    InputAction,
))
    ensures
        r.1 is Upload ==> state is Loading && event is Loaded && event->Loaded_0 is Some
            && upload_due(event->Loaded_0->0.external_id@),
        !goes_on(state, event) ==> r.0 is Finished && r.1 == (InputAction::Finish {
            delete: false,
        }),
        goes_on(state, event) && state is Recovering ==> r.0 == (InputState::Reporting {
            forgiving: true,
        }) && r.1 is Send && r.1->Send_0@ == status_message(
            *msg,
            true,
            "max retries reached"@,
            match event->Loaded_0 {
                Some(item) => item.external_id@,
                None => Seq::empty(),
            },
        ),
        goes_on(state, event) && state is Loading && event->Loaded_0->0.external_id@.len() == 0
            ==> r.0 == InputState::Uploading(event->Loaded_0->0) && r.1 is Upload
            && r.1->Upload_0@ == msg.base_dir@ + "/working/"@ + msg.file@,
        goes_on(state, event) && state is Loading && event->Loaded_0->0.external_id@.len() > 0
            ==> r.0 == InputState::Polling(event->Loaded_0->0) && r.1 is Poll && r.1->Poll_0@
            == event->Loaded_0->0.external_id@,
        goes_on(state, event) && state is Uploading ==> r.0 == InputState::Storing(
            state->Uploading_0,
            event->Uploaded_0->0,
        ) && r.1 is Store && r.1->id@ == msg.id@ && r.1->external_id@ == event->Uploaded_0->0@,
        goes_on(state, event) && state is Storing ==> r.0 is Polling
            && r.0->Polling_0.external_id@ == state->Storing_1@ && r.0->Polling_0.id
            == state->Storing_0.id && r.0->Polling_0.file_name == state->Storing_0.file_name
            && r.0->Polling_0.base_dir == state->Storing_0.base_dir && r.1 is Poll && r.1->Poll_0@
            == state->Storing_1@,
        goes_on(state, event) && state is Polling ==> r.0 == (InputState::Reporting {
            forgiving: false,
        }) && r.1 is Send && r.1->Send_0@ == status_message(
            *msg,
            reported_finished(event),
            reported_error(event),
            state->Polling_0.external_id@,
        ),
        goes_on(state, event) && state is Reporting ==> r.0 is Finished && r.1 == (
            InputAction::Finish { delete: state->forgiving || event->Sent_0 }
        ),
{
    match (state, event) {
        (InputState::Recovering, InputEvent::Loaded(recovered)) => {
            let status = max_retries_status(msg, &recovered);
            (InputState::Reporting { forgiving: true }, InputAction::Send(status))
        },
        (InputState::Loading, InputEvent::Loaded(Some(item))) => {
            match after_load(msg, &item) {
                InputStep::Upload(path) => (InputState::Uploading(item), InputAction::Upload(path)),
                InputStep::Poll(id) => (InputState::Polling(item), InputAction::Poll(id)),
            }
        },
        (InputState::Uploading(item), InputEvent::Uploaded(Some(external_id))) => {
            let store = InputAction::Store {
                id: owned(msg.id.as_str()),
                external_id: owned(external_id.as_str()),
            };
            (InputState::Storing(item, external_id), store)
        },
        (InputState::Storing(item, external_id), InputEvent::Stored(true)) => {
            let mut item = item;
            set_external_id(&mut item, external_id.as_str());
            (InputState::Polling(item), InputAction::Poll(external_id))
        },
        (InputState::Polling(item), InputEvent::Polled(end)) => {
            match end.report() {
                Some((finished, error)) => {
                    let status = send_status(
                        msg,
                        finished,
                        error.as_str(),
                        item.external_id.as_str(),
                    );
                    (InputState::Reporting { forgiving: false }, InputAction::Send(status))
                },
                None => (InputState::Finished, InputAction::Finish { delete: false }),
            }
        },
        (InputState::Reporting { forgiving }, InputEvent::Sent(ok)) => {
            (InputState::Finished, InputAction::Finish { delete: forgiving || ok })
        },
        _ => (InputState::Finished, InputAction::Finish { delete: false }),
    }
}

} // verus!
