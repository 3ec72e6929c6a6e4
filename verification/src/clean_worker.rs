//! Third stage: a clean message becomes a request to purge the job on the
//! recognition service.

use vstd::prelude::*;
use vstd::string::*;
use crate::api::CleanMessage;
use crate::text::owned;
use crate::worker::retries_exhausted;

verus! {

/// What the handler of a clean message does with it.
#[derive(Debug)]
pub enum CleanStep {
    /// The message was delivered too often: it is dropped without a word.
    GiveUp,
    /// The job with this external id is purged.
    Purge(String),
}

/// Decides what is done with a clean message on its `read_ct`-th delivery.
pub fn process_msg(msg: &CleanMessage, read_ct: i32) -> (r: CleanStep)
    ensures
        read_ct > 3 ==> r is GiveUp,
        read_ct <= 3 ==> r is Purge && r->Purge_0@ == msg.external_id@,
{
    if retries_exhausted(read_ct) {
        CleanStep::GiveUp
    } else {
        CleanStep::Purge(owned(msg.external_id.as_str()))
    }
}

/// Whether the message is deleted after its step, with `purged` telling
/// whether the service accepted the request: a failed purge keeps the message
/// for another delivery.
pub fn message_done(step: &CleanStep, purged: bool) -> (r: bool)
    ensures
        r == (*step is GiveUp || purged),
{
    match step {
        CleanStep::GiveUp => true,
        CleanStep::Purge(_) => purged,
    }
}

} // verus!
