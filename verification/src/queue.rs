//! The loop that every worker runs on its queue: read one message, hand it to
//! the handler, delete it where the handler is done with it, rest where the
//! queue is empty, and leave on cancellation.

use vstd::prelude::*;

verus! {

/// Seconds for which a message that was read stays hidden from other readers.
pub const READ_VISIBILITY_SECS: i32 = 30;

/// Seconds that the loop rests after a round without a message.
pub const IDLE_SECS: u64 = 1;

/// How one round of the loop went.
#[derive(Debug, Clone, Copy, PartialEq, Eq, Structural)]
pub enum Round {
    /// The queue could not be read.
    ReadFailed,
    /// The queue held no visible message.
    Empty,
    /// A message was handled and stays in the queue, by the handler's word or
    /// by its failure.
    Kept,
    /// A message was handled and deleted.
    Deleted,
    /// A message was handled, and the queue refused or failed to delete it.
    DeleteFailed,
}

/// What the loop does next.
#[derive(Debug, Clone, Copy, PartialEq, Eq, Structural)]
pub enum LoopStep {
    /// Leave the loop.
    Exit,
    /// Read the queue, with this visibility timeout in seconds.
    Read(i32),
    /// Rest for so many seconds, or until cancellation, then go on.
    Rest(u64),
}

/// Whether a message is deleted after its handler ended: only where the
/// handler returned that it is done with it. A handler that returned `false`
/// or failed leaves it to become visible again.
pub fn process(handled: &Result<bool, String>) -> (delete: bool)
    ensures
        delete == (*handled == Ok::<bool, String>(true)),
{
    match handled {
        Ok(done) => *done,
        Err(_) => false,
    }
}

/// Whether a round counts as empty: it does unless a message was handled and
/// the queue went through with what followed.
pub open spec fn rests_after(round: Round) -> bool {
    round is ReadFailed || round is Empty || round is DeleteFailed
}

/// Top of the loop: a cancelled loop leaves, else the queue is read with a
/// visibility timeout of thirty seconds.
pub fn begin_round(cancelled: bool) -> (r: LoopStep)
    ensures
        r == if cancelled {
            LoopStep::Exit
        } else {
            LoopStep::Read(30)
        },
{
    if cancelled {
        LoopStep::Exit
    } else {
        LoopStep::Read(READ_VISIBILITY_SECS)
    }
}

/// End of a round. The loop leaves if and only if it was cancelled: no
/// outcome of a read, of a handler or of a delete stops it, so a delete of a
/// message that is gone does not block the queue. It rests for a second
/// after a round that counts as empty, and reads again at once after a
/// message.
pub fn run(cancelled: bool, round: Round) -> (r: LoopStep)
    ensures
        r is Exit <==> cancelled,
        !cancelled && rests_after(round) ==> r == LoopStep::Rest(1),
        !cancelled && !rests_after(round) ==> r == LoopStep::Read(30),
{
    if cancelled {
        return LoopStep::Exit;
    }
    match round {
        Round::Kept => LoopStep::Read(READ_VISIBILITY_SECS),
        Round::Deleted => LoopStep::Read(READ_VISIBILITY_SECS),
        _ => LoopStep::Rest(IDLE_SECS),
    }
}


/// A message in a queue: when it becomes visible again, and how often it was
/// delivered.
pub struct Entry {
    pub visible_at: int,
    pub read_ct: int,
}

/// The messages of a queue, by message id.
pub type Messages = Map<int, Entry>;

/// Whether a reader may get the message `id` at the time `now`.
pub open spec fn visible(q: Messages, id: int, now: int) -> bool {
    q.contains_key(id) && q[id].visible_at <= now
}

/// The queue after the message `id` was read at `now` with the visibility
/// timeout `vt`: the delivery is counted and the message is hidden.
pub open spec fn after_read(q: Messages, id: int, now: int, vt: int) -> Messages {
    q.insert(id, Entry { visible_at: now + vt, read_ct: q[id].read_ct + 1 })
}

/// The queue after the visibility of the message `id` was extended at `now`
/// by `duration`; a message that is gone stays gone.
pub open spec fn after_extend(q: Messages, id: int, now: int, duration: int) -> Messages {
    if q.contains_key(id) {
        q.insert(id, Entry { visible_at: now + duration, read_ct: q[id].read_ct })
    } else {
        q
    }
}

/// The queue after the message `id` was deleted.
pub open spec fn after_delete(q: Messages, id: int) -> Messages {
    q.remove(id)
}

/// Deleting is idempotent: a delete of a message that is gone changes
/// nothing, a second delete leaves what the first one left, and no other
/// message is touched.
pub proof fn lemma_delete_is_idempotent(q: Messages, id: int)
    ensures
        !q.contains_key(id) ==> after_delete(q, id) == q,
        after_delete(after_delete(q, id), id) == after_delete(q, id),
        forall|other: int|
            other != id ==> (after_delete(q, id).contains_key(other) <==> q.contains_key(other)),
{
    assert(!q.contains_key(id) ==> after_delete(q, id) =~= q);
    assert(after_delete(after_delete(q, id), id) =~= after_delete(q, id));
}

/// A message that was read has one delivery more, and stays hidden from
/// other readers until its visibility timeout is over.
pub proof fn lemma_read_hides(q: Messages, id: int, now: int, vt: int, later: int)
    requires
        visible(q, id, now),
        now <= later < now + vt,
    ensures
        after_read(q, id, now, vt)[id].read_ct == q[id].read_ct + 1,
        !visible(after_read(q, id, now, vt), id, later),
{
}

/// A heartbeat keeps a message hidden: after its visibility was extended at
/// `now` by `duration`, no reader gets it before that time has passed, and
/// its deliveries are counted as before.
pub proof fn lemma_heartbeat_hides(q: Messages, id: int, now: int, duration: int, later: int)
    requires
        q.contains_key(id),
        later < now + duration,
    ensures
        !visible(after_extend(q, id, now, duration), id, later),
        after_extend(q, id, now, duration)[id].read_ct == q[id].read_ct,
{
}

} // verus!
