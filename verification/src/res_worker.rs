//! Second stage: a result message becomes the files of a finished job, in
//! the directory of the processed or of the failed, and a clean message.

use vstd::prelude::*;
use vstd::string::*;
use crate::api::{CleanMessage, ResultMessage};
use crate::filer::{free_name, names_of, Filer, FilerError};
use crate::layout::{
    audio_move, meta_move, moves, FileMove, FileText, Layout, MoveView, Stage, TextView,
};
use crate::name_laws::lemma_companion_keeps_clear;
use crate::names::{has_file_name, make_name, numbered_name, replace_ext};
use crate::text::owned;
use crate::worker::retries_exhausted;

verus! {

/// What the handler of a result message does with it.
#[derive(Debug)]
pub enum ResultStep {
    /// The message was delivered too often: the job is recorded as failed
    /// with this text, and the message is dropped whatever comes of that.
    GiveUp(String),
    /// The job did not reach its end: there is nothing to do.
    Skip,
    /// The job failed with this error.
    Fail(String),
    /// The job succeeded: its results are fetched and stored.
    Succeed,
}

/// The text that is recorded for a job that is given up.
pub open spec fn max_retries_text(id: Seq<char>) -> Seq<char> {
    "Max retries reached "@ + id
}

/// Decides what is done with a result message on its `read_ct`-th delivery.
pub fn process_msg(msg: &ResultMessage, read_ct: i32) -> (r: ResultStep)
    ensures
        read_ct > 3 ==> r is GiveUp && r->GiveUp_0@ == max_retries_text(msg.id@),
        read_ct <= 3 && !msg.finished ==> r is Skip,
        read_ct <= 3 && msg.finished && msg.error is Some ==> r is Fail && r->Fail_0@
            == msg.error->0@,
        read_ct <= 3 && msg.finished && msg.error is None ==> r is Succeed,
{
    if retries_exhausted(read_ct) {
        let mut text = owned("Max retries reached ");
        text.append(msg.id.as_str());
        return ResultStep::GiveUp(text);
    }
    if !msg.finished {
        return ResultStep::Skip;
    }
    match &msg.error {
        Some(e) => ResultStep::Fail(owned(e.as_str())),
        None => ResultStep::Succeed,
    }
}

/// Whether the message is deleted after its step was carried out, with
/// `work_ok` telling whether every mandatory part of it succeeded. Only a
/// failure or a success that could not be recorded keeps the message for
/// another delivery.
pub fn message_done(step: &ResultStep, work_ok: bool) -> (r: bool)
    ensures
        r == (*step is GiveUp || *step is Skip || work_ok),
{
    match step {
        ResultStep::GiveUp(_) => true,
        ResultStep::Skip => true,
        _ => work_ok,
    }
}

/// How a finished job is put down on disk. The texts are written first;
/// then the audio is moved and then its companion, each as far as the work
/// goes on; at the end the clean message is sent.
#[derive(Debug)]
pub struct OutcomePlan {
    pub first: FileText,
    pub second: Option<FileText>,
    pub audio: FileMove,
    pub meta: FileMove,
    pub clean: CleanMessage,
}

/// An outcome plan, as plain values.
pub struct OutcomeView {
    pub first: TextView,
    pub second: Option<TextView>,
    pub audio: MoveView,
    pub meta: MoveView,
    pub clean: Seq<char>,
}

impl View for OutcomePlan {
    type V = OutcomeView;

    open spec fn view(&self) -> OutcomeView {
        OutcomeView {
            first: self.first@,
            second: match self.second {
                Some(t) => Some(t@),
                None => None,
            },
            audio: self.audio@,
            meta: self.meta@,
            clean: self.clean@,
        }
    }
}

/// The plan for a failed job: the error text beside the new name in the
/// directory of the failed, the audio and its companion moved there.
pub open spec fn error_plan(
    file: Seq<char>,
    external_id: Seq<char>,
    new_name: Seq<char>,
    err: Seq<char>,
) -> OutcomeView {
    OutcomeView {
        first: TextView {
            name: replace_ext(new_name, ".err"@),
            stage: Stage::Failed,
            content: err,
        },
        second: None,
        audio: audio_move(file, new_name, Stage::Working, Stage::Failed),
        meta: meta_move(file, new_name, Stage::Working, Stage::Failed),
        clean: external_id,
    }
}

/// The plan for a job that succeeded: transcript and auxiliary result beside
/// the new name in the directory of the processed, the audio and its
/// companion moved there.
pub open spec fn success_plan(
    file: Seq<char>,
    external_id: Seq<char>,
    new_name: Seq<char>,
    transcript: Seq<char>,
    lattice: Seq<char>,
) -> OutcomeView {
    OutcomeView {
        first: TextView {
            name: replace_ext(new_name, ".txt"@),
            stage: Stage::Processed,
            content: transcript,
        },
        second: Some(
            TextView {
                name: replace_ext(new_name, ".lat"@),
                stage: Stage::Processed,
                content: lattice,
            },
        ),
        audio: audio_move(file, new_name, Stage::Working, Stage::Processed),
        meta: meta_move(file, new_name, Stage::Working, Stage::Processed),
        clean: external_id,
    }
}

/// Plans the record of a failed job, whose audio gets the name `new_name`.
pub fn plan_error(msg: &ResultMessage, new_name: &str, err: &str) -> (r: OutcomePlan)
    ensures
        r@ == error_plan(msg.file@, msg.external_id@, new_name@, err@),
{
    let (audio, meta) = moves(msg.file.as_str(), new_name, Stage::Working, Stage::Failed);
    OutcomePlan {
        first: FileText {
            name: make_name(new_name, ".err"),
            stage: Stage::Failed,
            content: owned(err),
        },
        second: None,
        audio,
        meta,
        clean: CleanMessage { external_id: owned(msg.external_id.as_str()) },
    }
}

/// Plans the record of a job that succeeded, whose audio gets the name
/// `new_name`, from the two results that were fetched.
pub fn plan_success(msg: &ResultMessage, new_name: &str, transcript: &str, lattice: &str) -> (r:
    OutcomePlan)
    ensures
        r@ == success_plan(msg.file@, msg.external_id@, new_name@, transcript@, lattice@),
{
    let (audio, meta) = moves(msg.file.as_str(), new_name, Stage::Working, Stage::Processed);
    OutcomePlan {
        first: FileText {
            name: make_name(new_name, ".txt"),
            stage: Stage::Processed,
            content: owned(transcript),
        },
        second: Some(
            FileText {
                name: make_name(new_name, ".lat"),
                stage: Stage::Processed,
                content: owned(lattice),
            },
        ),
        audio,
        meta,
        clean: CleanMessage { external_id: owned(msg.external_id.as_str()) },
    }
}

/// Records a failed job, given the files `taken` that stand among the
/// failed: the audio gets its collision-free name among them, and the rest
/// is planned for that name. It fails only where every candidate is taken.
pub fn process_error(filer: &Filer, msg: &ResultMessage, err: &str, taken: &Vec<String>) -> (r:
    Result<OutcomePlan, FilerError>)
    ensures
        match free_name(msg.file@, names_of(taken@)) {
            Some(n) => r is Ok && r->Ok_0@ == error_plan(msg.file@, msg.external_id@, n, err@),
            None => r is Err && r->Err_0 is NoFreeName,
        },
        r is Ok ==> !names_of(taken@).contains(r->Ok_0.audio.to_name@),
        has_file_name(msg.file@) && taken@.len() <= 2147483647 ==> r is Ok,
{
    match filer.non_existing_name(msg.file.as_str(), taken) {
        Ok(new_name) => Ok(plan_error(msg, new_name.as_str(), err)),
        Err(e) => Err(e),
    }
}

/// Records a job that succeeded, from the two results that were fetched and
/// given the files `taken` that stand among the processed: the audio gets its
/// collision-free name among them, and the rest is planned for that name. It
/// fails only where every candidate is taken.
pub fn process_success(
    filer: &Filer,
    msg: &ResultMessage,
    transcript: &str,
    lattice: &str,
    taken: &Vec<String>,
) -> (r: Result<OutcomePlan, FilerError>)
    ensures
        match free_name(msg.file@, names_of(taken@)) {
            Some(n) => r is Ok && r->Ok_0@ == success_plan(
                msg.file@,
                msg.external_id@,
                n,
                transcript@,
                lattice@,
            ),
            None => r is Err && r->Err_0 is NoFreeName,
        },
        r is Ok ==> !names_of(taken@).contains(r->Ok_0.audio.to_name@),
        has_file_name(msg.file@) && taken@.len() <= 2147483647 ==> r is Ok,
{
    match filer.non_existing_name(msg.file.as_str(), taken) {
        Ok(new_name) => Ok(plan_success(msg, new_name.as_str(), transcript, lattice)),
        Err(e) => Err(e),
    }
}

/// The layout after the texts of a plan are written.
pub open spec fn texts_saved(l: Layout, plan: OutcomeView) -> Layout {
    let one = l.saved(plan.first);
    match plan.second {
        Some(t) => one.saved(t),
        None => one,
    }
}

/// Whether a plan, carried out on `l`, gets as far as its clean message: the
/// work has to go on after each of the two moves.
pub open spec fn clean_sent(l: Layout, plan: OutcomeView) -> bool {
    let written = texts_saved(l, plan);
    written.goes_on(plan.audio) && written.moved(plan.audio).goes_on(plan.meta)
}

/// The layout after a plan is carried out on `l`: the texts are written, the
/// audio is moved, and then the companion, as far as the work goes on.
pub open spec fn carried_out(l: Layout, plan: OutcomeView) -> Layout {
    let written = texts_saved(l, plan);
    if written.goes_on(plan.audio) {
        written.moved(plan.audio).moved(plan.meta)
    } else {
        written
    }
}

/// Whether a plan takes a job's audio out of the working directory into the
/// stage `to`, with texts written there and nowhere else, and with the move
/// of the audio required and that of the companion not.
pub open spec fn settles_in(plan: OutcomeView, to: Stage) -> bool {
    &&& to == Stage::Processed || to == Stage::Failed
    &&& plan.first.stage == to
    &&& plan.second is Some ==> plan.second->0.stage == to
    &&& plan.audio.from == Stage::Working
    &&& plan.audio.to == to
    &&& plan.audio.required
    &&& plan.meta.from == Stage::Working
    &&& plan.meta.to == to
    &&& !plan.meta.required
}

/// The audio of a job is conserved. Where it stands in the working
/// directory, the plan takes it out of there and puts it, with its content,
/// under the new name into the one stage that the plan is for, and the other
/// of the two final stages stays as it was. Where it does not stand there,
/// nothing leaves the working directory and no clean message is sent. The
/// companion's new name is taken not to be the audio's new name unless the
/// companion is the audio itself.
pub proof fn lemma_audio_is_conserved(l: Layout, plan: OutcomeView, to: Stage)
    requires
        settles_in(plan, to),
        plan.meta.to_name != plan.audio.to_name || plan.meta.from_name == plan.audio.from_name,
    ensures
        l.working.contains_key(plan.audio.from_name) ==> {
            &&& clean_sent(l, plan)
            &&& !carried_out(l, plan).working.contains_key(plan.audio.from_name)
            &&& carried_out(l, plan).dir(to).contains_key(plan.audio.to_name)
            &&& carried_out(l, plan).dir(to)[plan.audio.to_name] == l.working[plan.audio.from_name]
        },
        !l.working.contains_key(plan.audio.from_name) ==> {
            &&& !clean_sent(l, plan)
            &&& carried_out(l, plan).working == l.working
        },
        to == Stage::Failed ==> carried_out(l, plan).processed == l.processed,
        to == Stage::Processed ==> carried_out(l, plan).failed == l.failed,
        carried_out(l, plan).incoming == l.incoming,
{
    let written = texts_saved(l, plan);
    assert(written.working == l.working);
    if l.working.contains_key(plan.audio.from_name) {
        let after_audio = written.moved(plan.audio);
        assert(!after_audio.working.contains_key(plan.audio.from_name));
        assert(after_audio.dir(to)[plan.audio.to_name] == l.working[plan.audio.from_name]);
    }
}

/// The audio of a failed job is conserved, whatever number its new name
/// carries: where it stands in the working directory, it leaves it and
/// arrives among the failed under the new name, the processed stay as they
/// were, and the clean message is sent; where it does not, nothing leaves the
/// working directory.
pub proof fn lemma_failed_job_is_conserved(
    l: Layout,
    file: Seq<char>,
    external_id: Seq<char>,
    k: int,
    err: Seq<char>,
)
    ensures
        ({
            let new_name = numbered_name(file, k);
            let after = carried_out(l, error_plan(file, external_id, new_name, err));
            let sent = clean_sent(l, error_plan(file, external_id, new_name, err));
            &&& after.processed == l.processed
            &&& after.incoming == l.incoming
            &&& l.working.contains_key(file) ==> sent && !after.working.contains_key(file)
                && after.failed.contains_key(new_name) && after.failed[new_name] == l.working[file]
            &&& !l.working.contains_key(file) ==> !sent && after.working == l.working
        }),
{
    let plan = error_plan(file, external_id, numbered_name(file, k), err);
    lemma_companion_keeps_clear(file, k);
    lemma_audio_is_conserved(l, plan, Stage::Failed);
}

/// The audio of a job that succeeded is conserved, whatever number its new
/// name carries: where it stands in the working directory, it leaves it and
/// arrives among the processed under the new name, the failed stay as they
/// were, and the clean message is sent; where it does not, nothing leaves the
/// working directory.
pub proof fn lemma_processed_job_is_conserved(
    l: Layout,
    file: Seq<char>,
    external_id: Seq<char>,
    k: int,
    transcript: Seq<char>,
    lattice: Seq<char>,
)
    ensures
        ({
            let new_name = numbered_name(file, k);
            let plan = success_plan(file, external_id, new_name, transcript, lattice);
            let after = carried_out(l, plan);
            let sent = clean_sent(l, plan);
            &&& after.failed == l.failed
            &&& after.incoming == l.incoming
            &&& l.working.contains_key(file) ==> sent && !after.working.contains_key(file)
                && after.processed.contains_key(new_name) && after.processed[new_name]
                == l.working[file]
            &&& !l.working.contains_key(file) ==> !sent && after.working == l.working
        }),
{
    let plan = success_plan(file, external_id, numbered_name(file, k), transcript, lattice);
    lemma_companion_keeps_clear(file, k);
    lemma_audio_is_conserved(l, plan, Stage::Processed);
}

/// The companion goes with the audio: where both stand in the working
/// directory and the companion is not the audio itself, the companion leaves
/// the working directory too and arrives, with its content, beside the audio
/// in the stage that the plan is for.
pub proof fn lemma_companion_moves_alongside(l: Layout, plan: OutcomeView, to: Stage)
    requires
        settles_in(plan, to),
        plan.meta.to_name != plan.audio.to_name,
        plan.meta.from_name != plan.audio.from_name,
        l.working.contains_key(plan.audio.from_name),
        l.working.contains_key(plan.meta.from_name),
    ensures
        !carried_out(l, plan).working.contains_key(plan.meta.from_name),
        carried_out(l, plan).dir(to).contains_key(plan.meta.to_name),
        carried_out(l, plan).dir(to)[plan.meta.to_name] == l.working[plan.meta.from_name],
        carried_out(l, plan).dir(to)[plan.audio.to_name] == l.working[plan.audio.from_name],
{
    let written = texts_saved(l, plan);
    assert(written.working == l.working);
    let after_audio = written.moved(plan.audio);
    assert(after_audio.working.contains_key(plan.meta.from_name));
    assert(after_audio.working[plan.meta.from_name] == l.working[plan.meta.from_name]);
}

/// A job that is given up leaves its evidence: after the plan is carried
/// out, the file of the error text exists among the failed; and where the
/// audio stands in the working directory, it has left it, and the clean
/// message for the job's external id is sent.
pub proof fn lemma_given_up_job_leaves_evidence(
    l: Layout,
    file: Seq<char>,
    external_id: Seq<char>,
    new_name: Seq<char>,
    text: Seq<char>,
)
    ensures
        carried_out(l, error_plan(file, external_id, new_name, text)).failed.contains_key(
            replace_ext(new_name, ".err"@),
        ),
        error_plan(file, external_id, new_name, text).clean == external_id,
        l.working.contains_key(file) ==> clean_sent(
            l,
            error_plan(file, external_id, new_name, text),
        ) && !carried_out(l, error_plan(file, external_id, new_name, text)).working.contains_key(
            file,
        ),
{
    let plan = error_plan(file, external_id, new_name, text);
    let written = texts_saved(l, plan);
    assert(written.working == l.working);
    assert(written.failed.contains_key(replace_ext(new_name, ".err"@)));
    if l.working.contains_key(file) {
        let after_audio = written.moved(plan.audio);
        assert(after_audio.failed.contains_key(replace_ext(new_name, ".err"@)));
        assert(!after_audio.working.contains_key(file));
    }
}

} // verus!
