//! The work-data record of a job, and the rule that makes an upload happen
//! once: a job that already has an external id is never uploaded again.

use vstd::prelude::*;
use vstd::string::*;
use crate::api::ASRMessage;
use crate::text::owned;

verus! {

/// Connections that the pool of the store holds at most.
pub const POOL_SIZE: usize = 8;

/// The persistent record of one job, as far as the workers read it.
#[derive(Debug)]
pub struct WorkData {
    pub id: String,
    pub external_id: String,
    pub file_name: String,
    pub base_dir: String,
    pub try_count: i32,
    pub error_msg: String,
}

/// What the store is asked to do after the lookup of a job.
#[derive(Debug)]
pub enum LoadStep {
    /// The record exists: it is used as it is.
    Found(WorkData),
    /// No record yet: this one is inserted, with an empty external id.
    Insert(WorkData),
}

impl LoadStep {
    /// The record that the job goes on with.
    pub open spec fn item(self) -> WorkData {
        match self {
            LoadStep::Found(w) => w,
            LoadStep::Insert(w) => w,
        }
    }

    /// Hands out the record that the job goes on with.
    pub fn into_item(self) -> (r: WorkData)
        ensures
            r == self.item(),
    {
        match self {
            LoadStep::Found(w) => w,
            LoadStep::Insert(w) => w,
        }
    }
}

/// Second half of get-or-create: what follows the lookup of `msg.id`.
/// A record that was found is returned untouched, so an external id that was
/// stored before is read again; else a fresh record is to be inserted.
pub fn load_item(found: Option<WorkData>, msg: &ASRMessage) -> (r: LoadStep)
    ensures
        match found {
            Some(w) => r == LoadStep::Found(w),
            None => r is Insert && r.item().id@ == msg.id@ && r.item().file_name@ == msg.file@
                && r.item().base_dir@ == msg.base_dir@ && r.item().external_id@.len() == 0
                && r.item().try_count == 0 && r.item().error_msg@.len() == 0,
        },
{
    match found {
        Some(w) => LoadStep::Found(w),
        None => LoadStep::Insert(
            WorkData {
                id: owned(msg.id.as_str()),
                external_id: String::new(),
                file_name: owned(msg.file.as_str()),
                base_dir: owned(msg.base_dir.as_str()),
                try_count: 0,
                error_msg: String::new(),
            },
        ),
    }
}

/// Whether a job with this external id still has to be uploaded.
pub open spec fn upload_due(external_id: Seq<char>) -> bool {
    external_id.len() == 0
}

/// Whether the job of `item` still has to be uploaded.
pub fn needs_upload(item: &WorkData) -> (r: bool)
    ensures
        r == upload_due(item.external_id@),
{
    item.external_id.as_str().unicode_len() == 0
}

/// Records the external id that an upload returned.
pub fn set_external_id(item: &mut WorkData, external_id: &str)
    ensures
        final(item).external_id@ == external_id@,
        final(item).id == old(item).id,
        final(item).file_name == old(item).file_name,
        final(item).base_dir == old(item).base_dir,
        final(item).try_count == old(item).try_count,
        final(item).error_msg == old(item).error_msg,
{
    item.external_id = owned(external_id);
}

/// The stored external ids, by job id. A job without a record is not in the map.
pub type Store = Map<Seq<char>, Seq<char>>;

/// The store after get-or-create for `id`.
pub open spec fn ensured(store: Store, id: Seq<char>) -> Store {
    if store.contains_key(id) {
        store
    } else {
        store.insert(id, Seq::empty())
    }
}

/// Whether a delivery of job `id` calls the upload.
pub open spec fn delivery_uploads(store: Store, id: Seq<char>) -> bool {
    upload_due(ensured(store, id)[id])
}

/// The store after one delivery of job `id`, in which the upload, where it is
/// called, ends as `upload` says: with the new external id, or in a failure.
pub open spec fn after_delivery(store: Store, id: Seq<char>, upload: Option<Seq<char>>) -> Store {
    let s = ensured(store, id);
    if upload_due(s[id]) && upload is Some {
        s.insert(id, upload->0)
    } else {
        s
    }
}

/// How many of the deliveries of job `id` call the upload.
pub open spec fn upload_calls(store: Store, id: Seq<char>, uploads: Seq<Option<Seq<char>>>) -> nat
    decreases uploads.len(),
{
    if uploads.len() == 0 {
        0
    } else {
        let rest = upload_calls(after_delivery(store, id, uploads[0]), id, uploads.drop_first());
        if delivery_uploads(store, id) {
            1 + rest
        } else {
            rest
        }
    }
}

/// How many of the deliveries of job `id` complete an upload.
pub open spec fn uploads_completed(
    store: Store,
    id: Seq<char>,
    uploads: Seq<Option<Seq<char>>>,
) -> nat
    decreases uploads.len(),
{
    if uploads.len() == 0 {
        0
    } else {
        let rest = uploads_completed(
            after_delivery(store, id, uploads[0]),
            id,
            uploads.drop_first(),
        );
        if delivery_uploads(store, id) && uploads[0] is Some {
            1 + rest
        } else {
            rest
        }
    }
}

/// The store after a sequence of deliveries of job `id`.
pub open spec fn after_deliveries(
    store: Store,
    id: Seq<char>,
    uploads: Seq<Option<Seq<char>>>,
) -> Store
    decreases uploads.len(),
{
    if uploads.len() == 0 {
        store
    } else {
        after_deliveries(after_delivery(store, id, uploads[0]), id, uploads.drop_first())
    }
}

/// A job that has an external id is not uploaded by any later delivery, and
/// its external id stays as it is.
pub proof fn lemma_uploaded_job_is_skipped(
    store: Store,
    id: Seq<char>,
    uploads: Seq<Option<Seq<char>>>,
)
    requires
        store.contains_key(id),
        !upload_due(store[id]),
    ensures
        upload_calls(store, id, uploads) == 0,
        uploads_completed(store, id, uploads) == 0,
        after_deliveries(store, id, uploads) == store,
    decreases uploads.len(),
{
    if uploads.len() > 0 {
        assert(after_delivery(store, id, uploads[0]) == store);
        lemma_uploaded_job_is_skipped(store, id, uploads.drop_first());
    }
}

/// Over any sequence of deliveries of one job, at most one upload completes,
/// provided the service never hands out an empty external id.
pub proof fn lemma_at_most_one_upload_completes(
    store: Store,
    id: Seq<char>,
    uploads: Seq<Option<Seq<char>>>,
)
    requires
        forall|i: int| 0 <= i < uploads.len() && uploads[i] is Some ==> (#[trigger] uploads[i])->0.len() > 0,
    ensures
        uploads_completed(store, id, uploads) <= 1,
    decreases uploads.len(),
{
    if uploads.len() > 0 {
        let next = after_delivery(store, id, uploads[0]);
        let rest = uploads.drop_first();
        assert forall|i: int| 0 <= i < rest.len() && rest[i] is Some implies (#[trigger] rest[i])->0.len() > 0 by {
            assert(rest[i] == uploads[i + 1]);
        }
        if delivery_uploads(store, id) && uploads[0] is Some {
            assert(next.contains_key(id) && !upload_due(next[id]));
            lemma_uploaded_job_is_skipped(next, id, rest);
        } else {
            lemma_at_most_one_upload_completes(next, id, rest);
        }
    }
}

/// Where every upload that is attempted succeeds with an external id that is
/// not empty, the deliveries of one job call the upload at most once.
pub proof fn lemma_upload_called_at_most_once(
    store: Store,
    id: Seq<char>,
    uploads: Seq<Option<Seq<char>>>,
)
    requires
        forall|i: int| 0 <= i < uploads.len() ==> (#[trigger] uploads[i]) is Some && uploads[i]->0.len() > 0,
    ensures
        upload_calls(store, id, uploads) <= 1,
    decreases uploads.len(),
{
    if uploads.len() > 0 {
        let next = after_delivery(store, id, uploads[0]);
        let rest = uploads.drop_first();
        assert(uploads[0] is Some && uploads[0]->0.len() > 0);
        assert forall|i: int| 0 <= i < rest.len() implies (#[trigger] rest[i]) is Some && rest[i]->0.len() > 0 by {
            assert(rest[i] == uploads[i + 1]);
        }
        assert(next.contains_key(id) && !upload_due(next[id]));
        lemma_uploaded_job_is_skipped(next, id, rest);
    }
}

/// An external id that was stored is never rewritten by a later delivery.
pub proof fn lemma_external_id_is_stable(
    store: Store,
    id: Seq<char>,
    uploads: Seq<Option<Seq<char>>>,
)
    requires
        store.contains_key(id),
        !upload_due(store[id]),
    ensures
        after_deliveries(store, id, uploads)[id] == store[id],
{
    lemma_uploaded_job_is_skipped(store, id, uploads);
}

} // verus!
