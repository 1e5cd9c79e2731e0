//! The pipeline orchestrator: a state machine that sequences decode,
//! identity derivation, the duplicate guard, claim, download, conversion,
//! upload and commit, and routes every failure after the claim through
//! compensation before answering.
//!
//! The caller performs the outside steps (store writes, object transfer,
//! transcoding, cleanup) and reports each outcome back as an event; every
//! decision in between is made here.

use vstd::prelude::*;
use vstd::string::*;

use crate::decode::{decode_notification, notification_name, DecodeError};
use crate::identity::{
    derive_identity, id_of, processed_filename, processed_name_of, uid_of, valid_asset_name,
};
use crate::store::{Video, VideoStatus, VideoView};

verus! {

/// Which transfer direction failed.
#[derive(Clone, Copy, Debug, PartialEq, Eq, Structural)]
pub enum TransferKind {
    Download,
    Upload,
}

/// Everything that can end a run without a commit.
#[derive(Clone, Copy, Debug, PartialEq, Eq, Structural)]
pub enum PipelineError {
    /// The notification was rejected before any work was done.
    Decode(DecodeError),
    /// The guard found the asset already claimed or processed.
    Duplicate,
    /// Moving bytes between object storage and scratch space failed.
    Transfer(TransferKind),
    /// The transcoding tool failed.
    Conversion,
    /// A store write failed.
    Store,
}

/// The HTTP status code an outcome maps to: client faults answer 400,
/// infrastructure faults 500.
pub open spec fn status_code_of(e: PipelineError) -> u16 {
    match e {
        PipelineError::Decode(_) => 400,
        PipelineError::Duplicate => 400,
        PipelineError::Transfer(_) => 500,
        PipelineError::Conversion => 500,
        PipelineError::Store => 500,
    }
}

/// The response body an outcome maps to.
pub open spec fn body_of(e: PipelineError) -> Seq<char> {
    match e {
        PipelineError::Decode(DecodeError::Encoding) => "Bad Request: Invalid base64."@,
        PipelineError::Decode(DecodeError::Charset) => "Bad Request: Invalid UTF-8."@,
        PipelineError::Decode(DecodeError::Format) => "Bad Request: Invalid JSON."@,
        PipelineError::Decode(DecodeError::MissingField) => "Bad Request: Missing filename."@,
        PipelineError::Decode(DecodeError::BadIdentifier) => "Invalid filename format."@,
        PipelineError::Duplicate => "Bad Request: video already processing or processed."@,
        PipelineError::Transfer(TransferKind::Download) => "Failed to download raw video."@,
        PipelineError::Transfer(TransferKind::Upload) => "Failed to upload processed video."@,
        PipelineError::Conversion => "Failed to convert video."@,
        PipelineError::Store => "Failed to update video document."@,
    }
}

/// An HTTP answer: status code and body.
#[derive(Debug)]
pub struct Reply {
    pub code: u16,
    pub body: String,
}

/// The mathematical content of a `Reply`.
pub struct ReplyView {
    pub code: u16,
    pub body: Seq<char>,
}

impl View for Reply {
    type V = ReplyView;

    open spec fn view(&self) -> ReplyView {
        ReplyView { code: self.code, body: self.body@ }
    }
}

/// The answer an error maps to.
pub open spec fn reply_view_of(e: PipelineError) -> ReplyView {
    ReplyView { code: status_code_of(e), body: body_of(e) }
}

/// The answer to a completed run.
pub open spec fn success_reply_view() -> ReplyView {
    ReplyView { code: 200, body: "Processing Complete."@ }
}

/// Builds the answer an error maps to.
pub fn error_reply(e: PipelineError) -> (r: Reply)
    ensures
        r@ == reply_view_of(e),
{
    match e {
        PipelineError::Decode(DecodeError::Encoding) => Reply {
            code: 400,
            body: String::from_str("Bad Request: Invalid base64."),
        },
        PipelineError::Decode(DecodeError::Charset) => Reply {
            code: 400,
            body: String::from_str("Bad Request: Invalid UTF-8."),
        },
        PipelineError::Decode(DecodeError::Format) => Reply {
            code: 400,
            body: String::from_str("Bad Request: Invalid JSON."),
        },
        PipelineError::Decode(DecodeError::MissingField) => Reply {
            code: 400,
            body: String::from_str("Bad Request: Missing filename."),
        },
        PipelineError::Decode(DecodeError::BadIdentifier) => Reply {
            code: 400,
            body: String::from_str("Invalid filename format."),
        },
        PipelineError::Duplicate => Reply {
            code: 400,
            body: String::from_str("Bad Request: video already processing or processed."),
        },
        PipelineError::Transfer(TransferKind::Download) => Reply {
            code: 500,
            body: String::from_str("Failed to download raw video."),
        },
        PipelineError::Transfer(TransferKind::Upload) => Reply {
            code: 500,
            body: String::from_str("Failed to upload processed video."),
        },
        PipelineError::Conversion => Reply {
            code: 500,
            body: String::from_str("Failed to convert video."),
        },
        PipelineError::Store => Reply {
            code: 500,
            body: String::from_str("Failed to update video document."),
        },
    }
}

/// Builds the answer to a completed run.
pub fn success_reply() -> (r: Reply)
    ensures
        r@ == success_reply_view(),
{
    Reply { code: 200, body: String::from_str("Processing Complete.") }
}

/// The local scratch directory raw assets are downloaded into.
pub open spec fn spec_raw_dir() -> Seq<char> {
    "./raw-videos"@
}

/// The local scratch directory converted assets are written into.
pub open spec fn spec_processed_dir() -> Seq<char> {
    "./processed-videos"@
}

/// The scratch path of the raw asset named `name`.
pub open spec fn raw_scratch_of(name: Seq<char>) -> Seq<char> {
    spec_raw_dir() + "/"@ + name
}

/// The scratch path of the processed asset named `name`.
pub open spec fn processed_scratch_of(name: Seq<char>) -> Seq<char> {
    spec_processed_dir() + "/"@ + name
}

/// Builds the scratch path of the raw asset named `name`.
pub fn raw_scratch_path(name: &str) -> (r: String)
    ensures
        r@ == raw_scratch_of(name@),
{
    let mut s = String::from_str("./raw-videos");
    s.append("/");
    s.append(name);
    s
}

/// Builds the scratch path of the processed asset named `name`.
pub fn processed_scratch_path(name: &str) -> (r: String)
    ensures
        r@ == processed_scratch_of(name@),
{
    let mut s = String::from_str("./processed-videos");
    s.append("/");
    s.append(name);
    s
}

/// Where a run stands: which outside step it waits on, or how it ended.
#[derive(Clone, Copy, Debug, PartialEq, Eq, Structural)]
pub enum Stage {
    /// Awaiting the guard's read of the status record.
    FetchingRecord,
    /// Awaiting the store write that claims the asset.
    Claiming,
    /// Awaiting the transfer of the raw asset into scratch space.
    Downloading,
    /// Awaiting the transcoding tool.
    Converting,
    /// Awaiting the transfer of the processed asset to object storage.
    Uploading,
    /// Awaiting the store write that commits the processed record.
    Committing,
    /// Awaiting best-effort cleanup of the scratch paths before answering
    /// with the recorded error.
    CleaningUp(PipelineError),
    /// The run has answered.
    Finished,
}

/// The outcome of the outside step a run waits on.
pub enum PipelineEvent {
    /// The status record the store answered for the asset identifier.
    Fetched(Video),
    /// The awaited step succeeded.
    Succeeded,
    /// The awaited step failed.
    Failed,
    /// Cleanup ran; its own failures are logged by the caller and do not
    /// change the answer.
    CleanedUp,
}

/// The mathematical content of a `PipelineEvent`.
pub enum EventView {
    Fetched(VideoView),
    Succeeded,
    Failed,
    CleanedUp,
}

impl View for PipelineEvent {
    type V = EventView;

    open spec fn view(&self) -> EventView {
        match self {
            PipelineEvent::Fetched(v) => EventView::Fetched(v@),
            PipelineEvent::Succeeded => EventView::Succeeded,
            PipelineEvent::Failed => EventView::Failed,
            PipelineEvent::CleanedUp => EventView::CleanedUp,
        }
    }
}

/// What the caller must do next.
pub enum PipelineAction {
    /// Upsert this record in the status store.
    WriteRecord(Video),
    /// Fetch the named object from the raw store into its raw scratch path.
    Download(String),
    /// Run the transcoding tool from the first path to the second.
    Convert(String, String),
    /// Put the named object's processed scratch file into the processed
    /// store.
    Upload(String),
    /// Delete both scratch paths if present; absence is a no-op.
    Cleanup(String, String),
    /// Answer the request; the run is over.
    Respond(Reply),
}

/// The mathematical content of a `PipelineAction`.
pub enum ActionView {
    WriteRecord(VideoView),
    Download(Seq<char>),
    Convert(Seq<char>, Seq<char>),
    Upload(Seq<char>),
    Cleanup(Seq<char>, Seq<char>),
    Respond(ReplyView),
}

impl View for PipelineAction {
    type V = ActionView;

    open spec fn view(&self) -> ActionView {
        match self {
            PipelineAction::WriteRecord(v) => ActionView::WriteRecord(v@),
            PipelineAction::Download(name) => ActionView::Download(name@),
            PipelineAction::Convert(i, o) => ActionView::Convert(i@, o@),
            PipelineAction::Upload(name) => ActionView::Upload(name@),
            PipelineAction::Cleanup(a, b) => ActionView::Cleanup(a@, b@),
            PipelineAction::Respond(rep) => ActionView::Respond(rep@),
        }
    }
}

/// One request's processing attempt: the derived names and where it stands.
#[derive(Debug)]
pub struct PipelineRun {
    pub name: String,
    pub id: String,
    pub uid: String,
    pub processed_name: String,
    pub stage: Stage,
}

/// The mathematical content of a `PipelineRun`.
pub struct RunView {
    pub name: Seq<char>,
    pub id: Seq<char>,
    pub uid: Seq<char>,
    pub processed_name: Seq<char>,
    pub stage: Stage,
}

impl View for PipelineRun {
    type V = RunView;

    open spec fn view(&self) -> RunView {
        RunView {
            name: self.name@,
            id: self.id@,
            uid: self.uid@,
            processed_name: self.processed_name@,
            stage: self.stage,
        }
    }
}

/// A run's names agree: they all derive from a valid asset name.
pub open spec fn run_wf(r: RunView) -> bool {
    &&& valid_asset_name(r.name)
    &&& r.id == id_of(r.name)
    &&& r.uid == uid_of(r.name)
    &&& r.processed_name == processed_name_of(r.name)
}

/// The record a claim writes: the raw filename under status `Processing`.
pub open spec fn claim_view(r: RunView) -> VideoView {
    VideoView {
        id: r.id,
        uid: r.uid,
        filename: r.name,
        status: VideoStatus::Processing,
        title: Seq::empty(),
        description: Seq::empty(),
    }
}

/// The record a commit writes: the processed filename under status
/// `Processed`.
pub open spec fn commit_view(r: RunView) -> VideoView {
    VideoView {
        id: r.id,
        uid: r.uid,
        filename: r.processed_name,
        status: VideoStatus::Processed,
        title: Seq::empty(),
        description: Seq::empty(),
    }
}

/// Compensation: both scratch paths are handed to cleanup, whether or not
/// the processed file was ever created.
pub open spec fn cleanup_view(r: RunView) -> ActionView {
    ActionView::Cleanup(raw_scratch_of(r.name), processed_scratch_of(r.processed_name))
}

/// Which event a stage can answer with.
pub open spec fn fits(stage: Stage, e: EventView) -> bool {
    match (stage, e) {
        (Stage::FetchingRecord, EventView::Fetched(_)) => true,
        (Stage::Claiming, EventView::Succeeded) => true,
        (Stage::Claiming, EventView::Failed) => true,
        (Stage::Downloading, EventView::Succeeded) => true,
        (Stage::Downloading, EventView::Failed) => true,
        (Stage::Converting, EventView::Succeeded) => true,
        (Stage::Converting, EventView::Failed) => true,
        (Stage::Uploading, EventView::Succeeded) => true,
        (Stage::Uploading, EventView::Failed) => true,
        (Stage::Committing, EventView::Succeeded) => true,
        (Stage::Committing, EventView::Failed) => true,
        (Stage::CleaningUp(_), EventView::CleanedUp) => true,
        _ => false,
    }
}

/// The stage a run moves to on an event. A record already claimed or
/// processed ends the run at once; a failed claim ends it without
/// compensation; any later failure routes through cleanup first.
///
/// There is deliberately no terminal failure status: a run that fails after
/// the claim leaves the persisted record at `Processing`, so the guard will
/// keep rejecting that identifier until the record is removed by an
/// administrative delete.
pub open spec fn step_stage(stage: Stage, e: EventView) -> Stage {
    match (stage, e) {
        (Stage::FetchingRecord, EventView::Fetched(v)) => if v.status == VideoStatus::Undefined {
            Stage::Claiming
        } else {
            Stage::Finished
        },
        (Stage::Claiming, EventView::Succeeded) => Stage::Downloading,
        (Stage::Claiming, EventView::Failed) => Stage::Finished,
        (Stage::Downloading, EventView::Succeeded) => Stage::Converting,
        (Stage::Downloading, EventView::Failed) => Stage::CleaningUp(
            PipelineError::Transfer(TransferKind::Download),
        ),
        (Stage::Converting, EventView::Succeeded) => Stage::Uploading,
        (Stage::Converting, EventView::Failed) => Stage::CleaningUp(PipelineError::Conversion),
        (Stage::Uploading, EventView::Succeeded) => Stage::Committing,
        (Stage::Uploading, EventView::Failed) => Stage::CleaningUp(
            PipelineError::Transfer(TransferKind::Upload),
        ),
        (Stage::Committing, EventView::Succeeded) => Stage::Finished,
        (Stage::Committing, EventView::Failed) => Stage::CleaningUp(PipelineError::Store),
        (Stage::CleaningUp(_), EventView::CleanedUp) => Stage::Finished,
        _ => stage,
    }
}

/// The action a run asks for on an event.
pub open spec fn step_action(r: RunView, e: EventView) -> ActionView {
    match (r.stage, e) {
        (Stage::FetchingRecord, EventView::Fetched(v)) => if v.status == VideoStatus::Undefined {
            ActionView::WriteRecord(claim_view(r))
        } else {
            ActionView::Respond(reply_view_of(PipelineError::Duplicate))
        },
        (Stage::Claiming, EventView::Succeeded) => ActionView::Download(r.name),
        (Stage::Claiming, EventView::Failed) => ActionView::Respond(
            reply_view_of(PipelineError::Store),
        ),
        (Stage::Downloading, EventView::Succeeded) => ActionView::Convert(
            raw_scratch_of(r.name),
            processed_scratch_of(r.processed_name),
        ),
        (Stage::Downloading, EventView::Failed) => cleanup_view(r),
        (Stage::Converting, EventView::Succeeded) => ActionView::Upload(r.processed_name),
        (Stage::Converting, EventView::Failed) => cleanup_view(r),
        (Stage::Uploading, EventView::Succeeded) => ActionView::WriteRecord(commit_view(r)),
        (Stage::Uploading, EventView::Failed) => cleanup_view(r),
        (Stage::Committing, EventView::Succeeded) => ActionView::Respond(success_reply_view()),
        (Stage::Committing, EventView::Failed) => cleanup_view(r),
        (Stage::CleaningUp(err), EventView::CleanedUp) => ActionView::Respond(reply_view_of(err)),
        _ => ActionView::Respond(reply_view_of(PipelineError::Store)),
    }
}

/// A run after an event: the same names, the next stage.
pub open spec fn advance(r: RunView, e: EventView) -> RunView {
    RunView {
        name: r.name,
        id: r.id,
        uid: r.uid,
        processed_name: r.processed_name,
        stage: step_stage(r.stage, e),
    }
}

/// The outcome of starting a run on a payload: the asset name, or the
/// decode or identity failure that rejected it.
pub open spec fn start_outcome(data: Seq<char>) -> Result<Seq<char>, PipelineError> {
    match notification_name(data) {
        Err(e) => Err(PipelineError::Decode(e)),
        Ok(name) => if valid_asset_name(name) {
            Ok(name)
        } else {
            Err(PipelineError::Decode(DecodeError::BadIdentifier))
        },
    }
}

impl PipelineRun {
    /// Starts a run on a delivery payload: decodes it, derives the
    /// identifiers, and leaves the run awaiting the guard's record read. A
    /// rejected payload is answered 400 at once, before any store, transfer,
    /// or conversion work exists.
    pub fn start(data: &str) -> (r: Result<PipelineRun, Reply>)
        ensures
            match r {
                Ok(run) => {
                    &&& start_outcome(data@) == Ok::<Seq<char>, PipelineError>(run.name@)
                    &&& run_wf(run@)
                    &&& run.stage == Stage::FetchingRecord
                },
                Err(rep) => {
                    &&& start_outcome(data@) matches Err(e) && rep@ == reply_view_of(e)
                    &&& rep.code == 400
                },
            },
    {
        let name = match decode_notification(data) {
            Ok(n) => n,
            Err(e) => {
                return Err(error_reply(PipelineError::Decode(e)));
            },
        };
        let (id, uid) = match derive_identity(name.as_str()) {
            Ok(p) => p,
            Err(e) => {
                return Err(error_reply(PipelineError::Decode(e)));
            },
        };
        let processed_name = processed_filename(name.as_str());
        Ok(PipelineRun { name, id, uid, processed_name, stage: Stage::FetchingRecord })
    }

    /// Whether the run can answer this event where it stands.
    pub fn accepts(&self, event: &PipelineEvent) -> (r: bool)
        ensures
            r == fits(self.stage, event@),
    {
        match (self.stage, event) {
            (Stage::FetchingRecord, PipelineEvent::Fetched(_)) => true,
            (Stage::Claiming, PipelineEvent::Succeeded) => true,
            (Stage::Claiming, PipelineEvent::Failed) => true,
            (Stage::Downloading, PipelineEvent::Succeeded) => true,
            (Stage::Downloading, PipelineEvent::Failed) => true,
            (Stage::Converting, PipelineEvent::Succeeded) => true,
            (Stage::Converting, PipelineEvent::Failed) => true,
            (Stage::Uploading, PipelineEvent::Succeeded) => true,
            (Stage::Uploading, PipelineEvent::Failed) => true,
            (Stage::Committing, PipelineEvent::Succeeded) => true,
            (Stage::Committing, PipelineEvent::Failed) => true,
            (Stage::CleaningUp(_), PipelineEvent::CleanedUp) => true,
            _ => false,
        }
    }

    /// Answers the awaited event: moves the run one stage and says what the
    /// caller must do next. Each step must fully succeed before the next
    /// begins; the derived names never change.
    pub fn step(&mut self, event: PipelineEvent) -> (act: PipelineAction)
        requires
            run_wf(old(self)@),
            fits(old(self).stage, event@),
        ensures
            final(self)@ == advance(old(self)@, event@),
            run_wf(final(self)@),
            act@ == step_action(old(self)@, event@),
    {
        match (self.stage, event) {
            (Stage::FetchingRecord, PipelineEvent::Fetched(v)) => {
                match v.status {
                    VideoStatus::Undefined => {
                        self.stage = Stage::Claiming;
                        PipelineAction::WriteRecord(Video {
                            id: self.id.clone(),
                            uid: self.uid.clone(),
                            filename: self.name.clone(),
                            status: VideoStatus::Processing,
                            title: String::new(),
                            description: String::new(),
                        })
                    },
                    _ => {
                        self.stage = Stage::Finished;
                        PipelineAction::Respond(error_reply(PipelineError::Duplicate))
                    },
                }
            },
            (Stage::Claiming, PipelineEvent::Succeeded) => {
                self.stage = Stage::Downloading;
                PipelineAction::Download(self.name.clone())
            },
            (Stage::Claiming, PipelineEvent::Failed) => {
                self.stage = Stage::Finished;
                PipelineAction::Respond(error_reply(PipelineError::Store))
            },
            (Stage::Downloading, PipelineEvent::Succeeded) => {
                self.stage = Stage::Converting;
                PipelineAction::Convert(
                    raw_scratch_path(self.name.as_str()),
                    processed_scratch_path(self.processed_name.as_str()),
                )
            },
            (Stage::Downloading, PipelineEvent::Failed) => {
                self.stage = Stage::CleaningUp(PipelineError::Transfer(TransferKind::Download));
                self.cleanup_action()
            },
            (Stage::Converting, PipelineEvent::Succeeded) => {
                self.stage = Stage::Uploading;
                PipelineAction::Upload(self.processed_name.clone())
            },
            (Stage::Converting, PipelineEvent::Failed) => {
                self.stage = Stage::CleaningUp(PipelineError::Conversion);
                self.cleanup_action()
            },
            (Stage::Uploading, PipelineEvent::Succeeded) => {
                self.stage = Stage::Committing;
                PipelineAction::WriteRecord(Video {
                    id: self.id.clone(),
                    uid: self.uid.clone(),
                    filename: self.processed_name.clone(),
                    status: VideoStatus::Processed,
                    title: String::new(),
                    description: String::new(),
                })
            },
            (Stage::Uploading, PipelineEvent::Failed) => {
                self.stage = Stage::CleaningUp(PipelineError::Transfer(TransferKind::Upload));
                self.cleanup_action()
            },
            (Stage::Committing, PipelineEvent::Succeeded) => {
                self.stage = Stage::Finished;
                PipelineAction::Respond(success_reply())
            },
            (Stage::Committing, PipelineEvent::Failed) => {
                self.stage = Stage::CleaningUp(PipelineError::Store);
                self.cleanup_action()
            },
            (Stage::CleaningUp(err), PipelineEvent::CleanedUp) => {
                self.stage = Stage::Finished;
                PipelineAction::Respond(error_reply(err))
            },
            _ => {
                PipelineAction::Respond(error_reply(PipelineError::Store))
            },
        }
    }

    /// Both scratch paths, for compensation.
    fn cleanup_action(&self) -> (act: PipelineAction)
        ensures
            act@ == cleanup_view(self@),
    {
        PipelineAction::Cleanup(
            raw_scratch_path(self.name.as_str()),
            processed_scratch_path(self.processed_name.as_str()),
        )
    }
}

/// Guard idempotency: a record already `Processing` or `Processed` ends the
/// run at once with the 400 duplicate answer, and no store write and no
/// transfer or conversion action is ever asked for.
pub proof fn lemma_guard_rejects_duplicate(r: RunView, v: VideoView)
    requires
        r.stage == Stage::FetchingRecord,
        v.status != VideoStatus::Undefined,
    ensures
        advance(r, EventView::Fetched(v)).stage == Stage::Finished,
        step_action(r, EventView::Fetched(v)) == ActionView::Respond(
            reply_view_of(PipelineError::Duplicate),
        ),
        reply_view_of(PipelineError::Duplicate).code == 400,
{
}

/// The happy path: from a fresh (`Undefined`) record, with every outside
/// step succeeding, the run claims the raw filename as `Processing`,
/// downloads, converts, uploads, commits a record with status `Processed`
/// and the derived processed filename, and answers 200.
pub proof fn lemma_happy_path(r0: RunView, v: VideoView)
    requires
        run_wf(r0),
        r0.stage == Stage::FetchingRecord,
        v.status == VideoStatus::Undefined,
    ensures
        ({
            let e0 = EventView::Fetched(v);
            let ok = EventView::Succeeded;
            let r1 = advance(r0, e0);
            let r2 = advance(r1, ok);
            let r3 = advance(r2, ok);
            let r4 = advance(r3, ok);
            let r5 = advance(r4, ok);
            let r6 = advance(r5, ok);
            &&& step_action(r0, e0) == ActionView::WriteRecord(claim_view(r0))
            &&& claim_view(r0).status == VideoStatus::Processing
            &&& claim_view(r0).id == id_of(r0.name)
            &&& claim_view(r0).uid == uid_of(r0.name)
            &&& step_action(r1, ok) == ActionView::Download(r0.name)
            &&& step_action(r2, ok) == ActionView::Convert(
                raw_scratch_of(r0.name),
                processed_scratch_of(processed_name_of(r0.name)),
            )
            &&& step_action(r3, ok) == ActionView::Upload(processed_name_of(r0.name))
            &&& step_action(r4, ok) == ActionView::WriteRecord(commit_view(r4))
            &&& commit_view(r4).status == VideoStatus::Processed
            &&& commit_view(r4).filename == processed_name_of(r0.name)
            &&& commit_view(r4).id == id_of(r0.name)
            &&& step_action(r5, ok) == ActionView::Respond(success_reply_view())
            &&& success_reply_view().code == 200
            &&& r6.stage == Stage::Finished
        }),
{
}

/// Failure compensation: when conversion fails, cleanup is asked for with
/// both the raw and the processed scratch paths, whether or not the
/// processed file was ever created, and the run then answers 500.
pub proof fn lemma_conversion_failure_compensates(r: RunView)
    requires
        run_wf(r),
        r.stage == Stage::Converting,
    ensures
        ({
            let r1 = advance(r, EventView::Failed);
            &&& step_action(r, EventView::Failed) == ActionView::Cleanup(
                raw_scratch_of(r.name),
                processed_scratch_of(r.processed_name),
            )
            &&& r1.stage == Stage::CleaningUp(PipelineError::Conversion)
            &&& step_action(r1, EventView::CleanedUp) == ActionView::Respond(
                reply_view_of(PipelineError::Conversion),
            )
            &&& reply_view_of(PipelineError::Conversion).code == 500
            &&& advance(r1, EventView::CleanedUp).stage == Stage::Finished
        }),
{
}

/// Malformed input is a client fault: every decode rejection answers 400.
pub proof fn lemma_decode_errors_answer_400(e: DecodeError)
    ensures
        status_code_of(PipelineError::Decode(e)) == 400,
{
}

} // verus!
