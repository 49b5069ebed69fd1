//! One run over the listed objects, and the steps by which one object is
//! processed.
//!
//! Copying, reading and writing are done elsewhere. This module says which
//! step comes next, given how the ones before have ended, and proves in
//! which order the steps can succeed.

use vstd::prelude::*;

use crate::classify::{plan_for, plan_object, Decision, Job, JobView, Plan, StoredObject, Work, WorkView};
use crate::document::{with_asset, with_datetime, Document, DocumentView};
use crate::eligibility::SweepMode;
use crate::error::IngestError;
use crate::policy::Policy;
use crate::text::copy_text;
use crate::time::Timestamp;

verus! {

/// A step in the processing of one object.
#[derive(Clone, Copy, Debug, PartialEq, Eq, Structural)]
pub enum Action {
    /// Copy the object from its source key to its target key, readable by
    /// everyone.
    Copy,
    /// Replace the items of the collection by what the object holds.
    Reload,
    /// Read the document that the asset is attached to.
    Read,
    /// Create the item that the asset is attached to.
    Create,
    /// Write the document with the asset attached.
    Update,
    /// Delete the object at its source key.
    Delete,
}

/// How the processing of one object has ended.
#[derive(Clone, Copy, Debug, PartialEq, Eq, Structural)]
pub enum Outcome {
    /// Every step has succeeded.
    Processed,
    /// A step has failed, and no further step was taken.
    Failed(IngestError),
}

/// Where the processing of one object stands: the step that is taken next,
/// or how the processing has ended.
#[derive(Clone, Copy, Debug, PartialEq, Eq, Structural)]
pub enum Stage {
    /// A step is due.
    Due(Action),
    /// The processing has ended.
    Done(Outcome),
}

/// Which steps have succeeded.
#[derive(Clone, Copy, Debug, PartialEq, Eq, Structural)]
pub struct Progress {
    /// The object is at its target key.
    pub copied: bool,
    /// The items of the collection have been replaced.
    pub reloaded: bool,
    /// The item has been created.
    pub created: bool,
    /// The document has been written with the asset attached.
    pub updated: bool,
    /// The object is gone from its source key.
    pub deleted: bool,
}

/// How a step has ended.
#[derive(Debug, PartialEq, Eq)]
pub enum Event {
    /// The step has succeeded, and there is nothing to hand back.
    Succeeded,
    /// The document has been read.
    Found(Document),
    /// There is no such document.
    Missing,
    /// The step has failed.
    Failed(IngestError),
}

/// What an [`Event`] holds, as sequences.
pub enum EventView {
    Succeeded,
    Found(DocumentView),
    Missing,
    Failed(IngestError),
}

impl View for Event {
    type V = EventView;

    open spec fn view(&self) -> EventView {
        match self {
            Event::Succeeded => EventView::Succeeded,
            Event::Found(document) => EventView::Found(document@),
            Event::Missing => EventView::Missing,
            Event::Failed(error) => EventView::Failed(*error),
        }
    }
}

/// The processing of one object.
#[derive(Debug, PartialEq, Eq)]
pub struct ObjectRun {
    /// What is to be done with the object.
    pub job: Job,
    /// Where the processing stands.
    pub stage: Stage,
    /// Which steps have succeeded.
    pub progress: Progress,
    /// The document to write, once it has been read or created.
    pub document: Option<Document>,
}

/// What an [`ObjectRun`] holds, as sequences.
pub struct RunView {
    pub job: JobView,
    pub stage: Stage,
    pub progress: Progress,
    pub document: Option<DocumentView>,
}

impl View for ObjectRun {
    type V = RunView;

    open spec fn view(&self) -> RunView {
        RunView {
            job: self.job@,
            stage: self.stage,
            progress: self.progress,
            document: match self.document {
                Some(document) => Some(document@),
                None => None,
            },
        }
    }
}

/// Nothing has been done yet.
pub open spec fn no_progress() -> Progress {
    Progress { copied: false, reloaded: false, created: false, updated: false, deleted: false }
}

/// The object is a manifest whose rows replace the items of its collection.
pub open spec fn reloads(job: JobView) -> bool {
    job.work == (WorkView::Collection { reload: true })
}

/// The step after the object is at its target key.
pub open spec fn stage_at_target(job: JobView) -> Stage {
    if reloads(job) {
        Stage::Due(Action::Reload)
    } else {
        Stage::Due(Action::Read)
    }
}

/// The first step.
pub open spec fn first_stage(job: JobView) -> Stage {
    if job.copy {
        Stage::Due(Action::Copy)
    } else {
        stage_at_target(job)
    }
}

/// The step after the document has been written.
pub open spec fn stage_after_update(job: JobView) -> Stage {
    if job.delete_source {
        Stage::Due(Action::Delete)
    } else {
        Stage::Done(Outcome::Processed)
    }
}

/// The document with the asset of the job attached and, for an item, with
/// its date and time set.
pub open spec fn merged(job: JobView, document: DocumentView) -> DocumentView {
    match job.work {
        WorkView::Collection { .. } => with_asset(document, job.asset_id, job.asset),
        WorkView::Item { datetime, .. } => with_asset(
            with_datetime(document, datetime),
            job.asset_id,
            job.asset,
        ),
    }
}

/// A document without properties and assets.
pub open spec fn blank() -> DocumentView {
    DocumentView { properties: Seq::empty(), assets: Seq::empty() }
}

/// The failure that ends the processing when an event does not fit the
/// step: what the event reports, or else a failed call.
pub open spec fn failure_of(event: EventView) -> Outcome {
    match event {
        EventView::Failed(error) => Outcome::Failed(error),
        _ => Outcome::Failed(IngestError::Store),
    }
}

/// Where the processing stands after the step that was due has ended.
pub open spec fn stage_after(job: JobView, stage: Stage, event: EventView) -> Stage {
    match stage {
        Stage::Done(outcome) => Stage::Done(outcome),
        Stage::Due(Action::Copy) => match event {
            EventView::Succeeded => stage_at_target(job),
            _ => Stage::Done(failure_of(event)),
        },
        Stage::Due(Action::Reload) => match event {
            EventView::Succeeded => Stage::Due(Action::Read),
            _ => Stage::Done(failure_of(event)),
        },
        Stage::Due(Action::Read) => match event {
            EventView::Found(_) => Stage::Due(Action::Update),
            EventView::Missing => match job.work {
                WorkView::Collection { .. } => Stage::Done(
                    Outcome::Failed(IngestError::MissingCollection),
                ),
                WorkView::Item { create_missing, .. } => if create_missing {
                    Stage::Due(Action::Create)
                } else {
                    Stage::Done(Outcome::Failed(IngestError::MissingFeature))
                },
            },
            _ => Stage::Done(failure_of(event)),
        },
        Stage::Due(Action::Create) => match event {
            EventView::Succeeded => Stage::Due(Action::Update),
            _ => Stage::Done(failure_of(event)),
        },
        Stage::Due(Action::Update) => match event {
            EventView::Succeeded => stage_after_update(job),
            _ => Stage::Done(failure_of(event)),
        },
        Stage::Due(Action::Delete) => match event {
            EventView::Succeeded => Stage::Done(Outcome::Processed),
            _ => Stage::Done(failure_of(event)),
        },
    }
}

/// Which steps have succeeded after the step that was due has ended.
pub open spec fn progress_after(stage: Stage, progress: Progress, event: EventView) -> Progress {
    match (stage, event) {
        (Stage::Due(Action::Copy), EventView::Succeeded) => Progress { copied: true, ..progress },
        (Stage::Due(Action::Reload), EventView::Succeeded) => Progress { reloaded: true, ..progress },
        (Stage::Due(Action::Create), EventView::Succeeded) => Progress { created: true, ..progress },
        (Stage::Due(Action::Update), EventView::Succeeded) => Progress { updated: true, ..progress },
        (Stage::Due(Action::Delete), EventView::Succeeded) => Progress { deleted: true, ..progress },
        _ => progress,
    }
}

/// The document to write after the step that was due has ended.
pub open spec fn document_after(
    job: JobView,
    stage: Stage,
    document: Option<DocumentView>,
    event: EventView,
) -> Option<DocumentView> {
    match (stage, event) {
        (Stage::Due(Action::Read), EventView::Found(found)) => Some(merged(job, found)),
        (Stage::Due(Action::Create), EventView::Succeeded) => Some(merged(job, blank())),
        _ => document,
    }
}

/// The processing before its first step.
pub open spec fn begun(job: JobView) -> RunView {
    RunView { job, stage: first_stage(job), progress: no_progress(), document: None }
}

/// The processing after the step that was due has ended.
pub open spec fn advanced(run: RunView, event: EventView) -> RunView {
    RunView {
        job: run.job,
        stage: stage_after(run.job, run.stage, event),
        progress: progress_after(run.stage, run.progress, event),
        document: document_after(run.job, run.stage, run.document, event),
    }
}

/// The processing after the steps have ended as `events` says, one event
/// for each step.
pub open spec fn played(run: RunView, events: Seq<EventView>) -> RunView
    decreases events.len(),
{
    if events.len() == 0 {
        run
    } else {
        played(advanced(run, events[0]), events.drop_first())
    }
}

/// Everything before the writing of the document has succeeded: the object
/// is at its target key, and the items of the collection have been replaced
/// where the object is a manifest.
pub open spec fn prepared(job: JobView, progress: Progress) -> bool {
    progress.copied == job.copy && progress.reloaded == reloads(job)
}

/// What holds of stage and progress all through the processing of one
/// object: the steps succeed in one order, and the source is deleted last.
pub open spec fn orderly(run: RunView) -> bool {
    let job = run.job;
    let progress = run.progress;
    &&& progress.copied ==> job.copy
    &&& progress.reloaded ==> reloads(job) && progress.copied == job.copy
    &&& progress.created ==> prepared(job, progress)
    &&& progress.updated ==> prepared(job, progress) && run.document is Some
    &&& progress.deleted ==> job.delete_source && progress.updated
    &&& match run.stage {
        Stage::Due(Action::Copy) => job.copy && progress == no_progress(),
        Stage::Due(Action::Reload) => reloads(job) && progress.copied == job.copy
            && !progress.reloaded && !progress.created && !progress.updated && !progress.deleted,
        Stage::Due(Action::Read) => prepared(job, progress) && !progress.created
            && !progress.updated && !progress.deleted,
        Stage::Due(Action::Create) => prepared(job, progress) && !progress.created
            && !progress.updated && !progress.deleted,
        Stage::Due(Action::Update) => prepared(job, progress) && !progress.updated
            && !progress.deleted && run.document is Some,
        Stage::Due(Action::Delete) => job.delete_source && progress.updated && !progress.deleted,
        Stage::Done(Outcome::Processed) => progress.updated && progress.deleted
            == job.delete_source,
        Stage::Done(Outcome::Failed(_)) => !progress.deleted,
    }
}

/// One step keeps the processing orderly.
pub proof fn lemma_advance_orderly(run: RunView, event: EventView)
    requires
        orderly(run),
    ensures
        orderly(advanced(run, event)),
{
}

/// Any number of steps keep the processing orderly.
pub proof fn lemma_played_orderly(run: RunView, events: Seq<EventView>)
    requires
        orderly(run),
    ensures
        orderly(played(run, events)),
    decreases events.len(),
{
    if events.len() > 0 {
        lemma_advance_orderly(run, events[0]);
        lemma_played_orderly(advanced(run, events[0]), events.drop_first());
    }
}

/// An object is processed in full or its source stays. However the steps
/// end: where the processing has ended with success, the object is at its
/// target key, the document has been written with the asset, and the source
/// is gone exactly if the run deletes; in every other case the source has
/// not been deleted. Nothing is written to the feature store before the
/// object is at its target key.
pub proof fn lemma_all_or_source_kept(job: JobView, events: Seq<EventView>)
    ensures
        ({
            let ended = played(begun(job), events);
            &&& ended.job == job
            &&& ended.stage == Stage::Done(Outcome::Processed) ==> ended.progress.copied == job.copy
                && ended.progress.reloaded == reloads(job) && ended.progress.updated
                && ended.progress.deleted == job.delete_source
            &&& ended.stage != Stage::Done(Outcome::Processed) ==> !ended.progress.deleted
            &&& ended.progress.reloaded || ended.progress.created || ended.progress.updated
                ==> ended.progress.copied == job.copy
            &&& ended.progress.deleted ==> job.delete_source
        }),
{
    lemma_played_orderly(begun(job), events);
    lemma_played_job(begun(job), events);
}

/// The job stays the same through any number of steps.
pub proof fn lemma_played_job(run: RunView, events: Seq<EventView>)
    ensures
        played(run, events).job == run.job,
    decreases events.len(),
{
    if events.len() > 0 {
        lemma_played_job(advanced(run, events[0]), events.drop_first());
    }
}

/// Once the processing has ended, nothing changes any more: every object
/// is attempted once.
pub proof fn lemma_done_stays(run: RunView, event: EventView)
    requires
        run.stage is Done,
    ensures
        advanced(run, event) == run,
{
}

/// A step that fails ends the processing with that failure.
pub proof fn lemma_failure_ends(run: RunView, error: IngestError)
    requires
        run.stage is Due,
    ensures
        advanced(run, EventView::Failed(error)).stage == Stage::Done(Outcome::Failed(error)),
        advanced(run, EventView::Failed(error)).progress == run.progress,
{
}

impl Job {
    fn at_target(&self) -> (stage: Stage)
        ensures
            stage == stage_at_target(self@),
    {
        match &self.work {
            Work::Collection { reload } => if *reload {
                Stage::Due(Action::Reload)
            } else {
                Stage::Due(Action::Read)
            },
            Work::Item { .. } => Stage::Due(Action::Read),
        }
    }

    /// Attaches the asset of the job to a document and, for an item, sets
    /// its date and time.
    pub fn merge(&self, document: Document) -> (result: Document)
        ensures
            result@ == merged(self@, document@),
    {
        let mut result = document;
        match &self.work {
            Work::Collection { .. } => {},
            Work::Item { datetime, .. } => {
                result.stamp(copy_text(datetime));
            },
        }
        result.attach(copy_text(&self.asset_id), self.asset.duplicate());
        result
    }
}

impl ObjectRun {
    /// The processing of an object, before its first step.
    pub fn begin(job: Job) -> (run: ObjectRun)
        ensures
            run@ == begun(job@),
            orderly(run@),
    {
        let stage = if job.copy {
            Stage::Due(Action::Copy)
        } else {
            job.at_target()
        };
        ObjectRun {
            job,
            stage,
            progress: Progress {
                copied: false,
                reloaded: false,
                created: false,
                updated: false,
                deleted: false,
            },
            document: None,
        }
    }

    /// The step that is taken next; none once the processing has ended.
    pub fn action(&self) -> (next: Option<Action>)
        ensures
            next == match self.stage {
                Stage::Due(action) => Some(action),
                Stage::Done(_) => None::<Action>,
            },
    {
        match self.stage {
            Stage::Due(action) => Some(action),
            Stage::Done(_) => None,
        }
    }

    /// How the processing has ended; none while it goes on.
    pub fn outcome(&self) -> (ended: Option<Outcome>)
        ensures
            ended == match self.stage {
                Stage::Due(_) => None::<Outcome>,
                Stage::Done(outcome) => Some(outcome),
            },
    {
        match self.stage {
            Stage::Due(_) => None,
            Stage::Done(outcome) => Some(outcome),
        }
    }

    /// The processing after the step that was due has ended.
    pub fn advance(self, event: Event) -> (next: ObjectRun)
        ensures
            next@ == advanced(self@, event@),
            orderly(self@) ==> orderly(next@),
    {
        let ObjectRun { job, stage, progress, document } = self;
        let action = match stage {
            Stage::Due(action) => action,
            Stage::Done(_) => {
                return ObjectRun { job, stage, progress, document };
            },
        };
        let failure = match &event {
            Event::Failed(error) => Outcome::Failed(*error),
            _ => Outcome::Failed(IngestError::Store),
        };
        match (action, event) {
            (Action::Copy, Event::Succeeded) => {
                let stage = job.at_target();
                ObjectRun { job, stage, progress: Progress { copied: true, ..progress }, document }
            },
            (Action::Reload, Event::Succeeded) => ObjectRun {
                job,
                stage: Stage::Due(Action::Read),
                progress: Progress { reloaded: true, ..progress },
                document,
            },
            (Action::Read, Event::Found(found)) => {
                let document = Some(job.merge(found));
                ObjectRun { job, stage: Stage::Due(Action::Update), progress, document }
            },
            (Action::Read, Event::Missing) => {
                let stage = match &job.work {
                    Work::Collection { .. } => Stage::Done(
                        Outcome::Failed(IngestError::MissingCollection),
                    ),
                    Work::Item { create_missing, .. } => if *create_missing {
                        Stage::Due(Action::Create)
                    } else {
                        Stage::Done(Outcome::Failed(IngestError::MissingFeature))
                    },
                };
                ObjectRun { job, stage, progress, document }
            },
            (Action::Create, Event::Succeeded) => {
                let document = Some(job.merge(Document::new()));
                ObjectRun {
                    job,
                    stage: Stage::Due(Action::Update),
                    progress: Progress { created: true, ..progress },
                    document,
                }
            },
            (Action::Update, Event::Succeeded) => {
                let stage = if job.delete_source {
                    Stage::Due(Action::Delete)
                } else {
                    Stage::Done(Outcome::Processed)
                };
                ObjectRun { job, stage, progress: Progress { updated: true, ..progress }, document }
            },
            (Action::Delete, Event::Succeeded) => ObjectRun {
                job,
                stage: Stage::Done(Outcome::Processed),
                progress: Progress { deleted: true, ..progress },
                document,
            },
            _ => ObjectRun { job, stage: Stage::Done(failure), progress, document },
        }
    }
}

/// Decides what is done with each listed object, in the order of the
/// listing: one decision for every object.
pub fn plan_run(policy: &Policy, objects: &Vec<StoredObject>, now: Timestamp, mode: SweepMode) -> (decisions:
    Vec<Decision>)
    requires
        policy.valid(),
    ensures
        decisions.len() == objects.len(),
        forall|i: int|
            0 <= i < objects.len() ==> (#[trigger] decisions[i])@ == plan_for(
                *policy,
                objects[i].key@,
                objects[i].last_modified,
                now,
                mode,
            ),
{
    let mut decisions: Vec<Decision> = Vec::new();
    let mut at: usize = 0;
    while at < objects.len()
        invariant
            at <= objects.len(),
            decisions.len() == at,
            policy.valid(),
            forall|i: int|
                0 <= i < at ==> (#[trigger] decisions[i])@ == plan_for(
                    *policy,
                    objects[i].key@,
                    objects[i].last_modified,
                    now,
                    mode,
                ),
        decreases objects.len() - at,
    {
        decisions.push(plan_object(policy, &objects[at], now, mode));
        at += 1;
    }
    decisions
}

} // verus!
