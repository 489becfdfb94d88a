//! Archiving one generation: a directory named by the local time, the two
//! records in it, and the primary asset beside them.

use vstd::prelude::*;
use vstd::string::StringExecFns;
use crate::clock::{is_local_stamp, local_stamp};
use crate::downloader::{Downloader, DownloaderModel};
use crate::effects::{
    lemma_run_unfolds,
    run_machine,
    Arrival,
    Effect,
    EffectModel,
    Progress,
    ProgressModel,
    Record,
    Report,
    ReportModel,
    RunModel,
};
use crate::error::{failure, ErrorKind, ErrorModel, PipelineError};
use crate::model::{
    extension_of,
    primary_asset_of,
    GenerationRequest,
    GenerationResult,
    RequestModel,
    ResultModel,
};
use crate::storage::{storage_root, storage_root_path, StorageSetup};

verus! {

/// The path of the directory of the generation that is archived at the
/// local time `stamp`.
pub open spec fn generation_dir(stamp: Seq<char>) -> Seq<Seq<char>> {
    storage_root().push(stamp)
}

/// The three operations in the generation's directory, in their order.
#[derive(Debug, Clone, Copy, PartialEq, Eq, Structural)]
pub enum FilingStep {
    /// Waiting for the directory to be created.
    CreatingDir,
    /// Waiting for `response.json` to be written.
    WritingResponse,
    /// Waiting for `input.json` to be written.
    WritingInput,
}

/// The archival of one generation.
#[derive(Debug, PartialEq, Eq)]
pub enum Archiver {
    /// The storage root is being made sure of.
    Preparing { setup: StorageSetup, url: Option<String>, extension: String },
    /// The directory and the two records are being written.
    Filing { step: FilingStep, dir: Vec<String>, url: Option<String>, extension: String },
    /// The records are written; the asset is being fetched.
    Downloading { download: Downloader },
}

/// What an [`Archiver`] holds, as mathematical values: besides where it
/// stands, the URL of the asset to fetch, if any, the extension of the
/// image file, and from `Filing` on the path of the generation's directory.
pub enum ArchiverModel {
    Preparing { setup: StorageSetup, url: Option<Seq<char>>, extension: Seq<char> },
    Filing { step: FilingStep, dir: Seq<Seq<char>>, url: Option<Seq<char>>, extension: Seq<char> },
    Downloading { download: DownloaderModel },
}

impl View for Archiver {
    type V = ArchiverModel;

    open spec fn view(&self) -> ArchiverModel {
        match self {
            Archiver::Preparing { setup, url, extension } => ArchiverModel::Preparing {
                setup: *setup,
                url: url.deep_view(),
                extension: extension@,
            },
            Archiver::Filing { step, dir, url, extension } => ArchiverModel::Filing {
                step: *step,
                dir: dir.deep_view(),
                url: url.deep_view(),
                extension: extension@,
            },
            Archiver::Downloading { download } => ArchiverModel::Downloading {
                download: download@,
            },
        }
    }
}

/// How an archival ended.
#[derive(Debug, PartialEq, Eq)]
pub enum ArchiveOutcome {
    /// Both records are written, and the image too where the generation
    /// has one.
    Complete,
    /// Both records are written, but the image could not be fetched or
    /// stored. This is told, and is no failure of the archival.
    ImageMissing(PipelineError),
    /// The archival stopped before both records were written.
    Failed(PipelineError),
}

/// What an [`ArchiveOutcome`] holds, as mathematical values.
pub enum ArchiveOutcomeModel {
    Complete,
    ImageMissing(ErrorModel),
    Failed(ErrorModel),
}

impl View for ArchiveOutcome {
    type V = ArchiveOutcomeModel;

    open spec fn view(&self) -> ArchiveOutcomeModel {
        match self {
            ArchiveOutcome::Complete => ArchiveOutcomeModel::Complete,
            ArchiveOutcome::ImageMissing(error) => ArchiveOutcomeModel::ImageMissing(error@),
            ArchiveOutcome::Failed(error) => ArchiveOutcomeModel::Failed(error@),
        }
    }
}

impl View for Progress<Archiver, ArchiveOutcome> {
    type V = ProgressModel<ArchiverModel, ArchiveOutcomeModel>;

    open spec fn view(&self) -> ProgressModel<ArchiverModel, ArchiveOutcomeModel> {
        match self {
            Progress::Continue(machine, effect) => ProgressModel::Continue(machine@, effect@),
            Progress::Finished(outcome) => ProgressModel::Finished(outcome@),
            Progress::Rejected(machine) => ProgressModel::Rejected(machine@),
        }
    }
}

impl ArchiverModel {
    /// The state in which the archival of `result`, asked for by `request`,
    /// starts, and its first effect.
    pub open spec fn begin(result: ResultModel, request: RequestModel) -> (
        ArchiverModel,
        EffectModel,
    ) {
        (
            ArchiverModel::Preparing {
                setup: StorageSetup::spec_begin().0,
                url: primary_asset_of(result.output),
                extension: extension_of(request.output_format),
            },
            StorageSetup::spec_begin().1,
        )
    }

    /// Whether the archiver's answer to `report` depends on the time: it
    /// does where the report says that the storage root stands, for then
    /// the generation's directory gets its name.
    pub open spec fn reads_clock(self, report: ReportModel) -> bool {
        match self {
            ArchiverModel::Preparing { setup, .. } => setup.spec_step(report)
                == ProgressModel::<StorageSetup, Result<(), ErrorModel>>::Finished(Ok(())),
            _ => false,
        }
    }

    /// The answer of the archiver in state `self` to `report`, at the local
    /// time `now`.
    ///
    /// The order is fixed: the storage root, the generation's directory,
    /// `response.json`, `input.json`, and last the download. Whatever fails
    /// before the download ends the archival as failed; a download that
    /// fails leaves the records in place and ends it as `ImageMissing`.
    pub open spec fn step(self, report: ReportModel, now: Seq<char>) -> ProgressModel<
        ArchiverModel,
        ArchiveOutcomeModel,
    > {
        match self {
            ArchiverModel::Preparing { setup, url, extension } => match setup.spec_step(report) {
                ProgressModel::Continue(next, effect) => ProgressModel::Continue(
                    ArchiverModel::Preparing { setup: next, url, extension },
                    effect,
                ),
                ProgressModel::Finished(Ok(_)) => ProgressModel::Continue(
                    ArchiverModel::Filing {
                        step: FilingStep::CreatingDir,
                        dir: generation_dir(now),
                        url,
                        extension,
                    },
                    EffectModel::CreateDirAll { path: generation_dir(now) },
                ),
                ProgressModel::Finished(Err(error)) => ProgressModel::Finished(
                    ArchiveOutcomeModel::Failed(error),
                ),
                ProgressModel::Rejected(_) => ProgressModel::Rejected(self),
            },
            ArchiverModel::Filing { step, dir, url, extension } => match (step, report) {
                (FilingStep::CreatingDir, ReportModel::Done) => ProgressModel::Continue(
                    ArchiverModel::Filing { step: FilingStep::WritingResponse, dir, url, extension },
                    EffectModel::WriteRecord {
                        record: Record::Response,
                        path: dir.push("response.json"@),
                    },
                ),
                (FilingStep::CreatingDir, ReportModel::Failed(cause)) => ProgressModel::Finished(
                    ArchiveOutcomeModel::Failed(
                        failure(ErrorKind::Io, "Failed to create generation directory: "@, cause),
                    ),
                ),
                (FilingStep::WritingResponse, ReportModel::Done) => ProgressModel::Continue(
                    ArchiverModel::Filing { step: FilingStep::WritingInput, dir, url, extension },
                    EffectModel::WriteRecord { record: Record::Input, path: dir.push("input.json"@) },
                ),
                (
                    FilingStep::WritingResponse,
                    ReportModel::EncodeFailed(cause),
                ) => ProgressModel::Finished(
                    ArchiveOutcomeModel::Failed(
                        failure(ErrorKind::Serialization, "Failed to serialize response: "@, cause),
                    ),
                ),
                (
                    FilingStep::WritingResponse,
                    ReportModel::Failed(cause),
                ) => ProgressModel::Finished(
                    ArchiveOutcomeModel::Failed(
                        failure(ErrorKind::Io, "Failed to write response.json: "@, cause),
                    ),
                ),
                (FilingStep::WritingInput, ReportModel::Done) => match url {
                    Some(address) => ProgressModel::Continue(
                        ArchiverModel::Downloading {
                            download: DownloaderModel::begin(address, dir, extension).0,
                        },
                        DownloaderModel::begin(address, dir, extension).1,
                    ),
                    None => ProgressModel::Finished(ArchiveOutcomeModel::Complete),
                },
                (FilingStep::WritingInput, ReportModel::EncodeFailed(cause)) => ProgressModel::Finished(
                    ArchiveOutcomeModel::Failed(
                        failure(ErrorKind::Serialization, "Failed to serialize input: "@, cause),
                    ),
                ),
                (FilingStep::WritingInput, ReportModel::Failed(cause)) => ProgressModel::Finished(
                    ArchiveOutcomeModel::Failed(
                        failure(ErrorKind::Io, "Failed to write input.json: "@, cause),
                    ),
                ),
                _ => ProgressModel::Rejected(self),
            },
            ArchiverModel::Downloading { download } => match download.step(report) {
                ProgressModel::Continue(next, effect) => ProgressModel::Continue(
                    ArchiverModel::Downloading { download: next },
                    effect,
                ),
                ProgressModel::Finished(Ok(_)) => ProgressModel::Finished(
                    ArchiveOutcomeModel::Complete,
                ),
                ProgressModel::Finished(Err(error)) => ProgressModel::Finished(
                    ArchiveOutcomeModel::ImageMissing(error),
                ),
                ProgressModel::Rejected(_) => ProgressModel::Rejected(self),
            },
        }
    }
}

fn child_path(dir: &Vec<String>, name: &str) -> (path: Vec<String>)
    ensures
        path.deep_view() == dir.deep_view().push(name@),
{
    let mut path = dir.clone();
    path.push(String::from_str(name));
    assert(path.deep_view() =~= dir.deep_view().push(name@));
    path
}

impl Archiver {
    /// Starts the archival of `result`, which `request` asked for.
    pub fn begin(result: &GenerationResult, request: &GenerationRequest) -> (start: (
        Archiver,
        Effect,
    ))
        ensures
            (start.0@, start.1@) == ArchiverModel::begin(result@, request@),
    {
        let (setup, effect) = StorageSetup::begin();
        (
            Archiver::Preparing {
                setup,
                url: result.primary_asset(),
                extension: request.image_extension(),
            },
            effect,
        )
    }

    /// Whether the answer to `report` depends on the time.
    pub fn reads_clock(&self, report: &Report) -> (reads: bool)
        ensures
            reads == self@.reads_clock(report@),
    {
        match self {
            Archiver::Preparing { setup, .. } => match (setup, report) {
                (StorageSetup::Probing, Report::Exists(found)) => *found,
                (StorageSetup::Creating, Report::Done) => true,
                _ => false,
            },
            _ => false,
        }
    }

    /// Takes the report of the effect that the archiver waits for, as if the
    /// local time were `now`.
    pub fn step_at(self, report: Report, now: &str) -> (progress: Progress<
        Archiver,
        ArchiveOutcome,
    >)
        ensures
            progress@ == self@.step(report@, now@),
    {
        match self {
            Archiver::Preparing { setup, url, extension } => match setup.step(report) {
                Progress::Continue(next, effect) => Progress::Continue(
                    Archiver::Preparing { setup: next, url, extension },
                    effect,
                ),
                Progress::Finished(Ok(_)) => {
                    let root = storage_root_path();
                    let dir = child_path(&root, now);
                    let path = dir.clone();
                    assert(path.deep_view() =~= dir.deep_view());
                    Progress::Continue(
                        Archiver::Filing { step: FilingStep::CreatingDir, dir, url, extension },
                        Effect::CreateDirAll { path },
                    )
                },
                Progress::Finished(Err(error)) => Progress::Finished(ArchiveOutcome::Failed(error)),
                Progress::Rejected(same) => Progress::Rejected(
                    Archiver::Preparing { setup: same, url, extension },
                ),
            },
            Archiver::Filing { step, dir, url, extension } => match (step, report) {
                (FilingStep::CreatingDir, Report::Done) => {
                    let path = child_path(&dir, "response.json");
                    Progress::Continue(
                        Archiver::Filing { step: FilingStep::WritingResponse, dir, url, extension },
                        Effect::WriteRecord { record: Record::Response, path },
                    )
                },
                (FilingStep::CreatingDir, Report::Failed(cause)) => Progress::Finished(
                    ArchiveOutcome::Failed(
                        PipelineError::new(
                            ErrorKind::Io,
                            "Failed to create generation directory: ",
                            cause.as_str(),
                        ),
                    ),
                ),
                (FilingStep::WritingResponse, Report::Done) => {
                    let path = child_path(&dir, "input.json");
                    Progress::Continue(
                        Archiver::Filing { step: FilingStep::WritingInput, dir, url, extension },
                        Effect::WriteRecord { record: Record::Input, path },
                    )
                },
                (FilingStep::WritingResponse, Report::EncodeFailed(cause)) => Progress::Finished(
                    ArchiveOutcome::Failed(
                        PipelineError::new(
                            ErrorKind::Serialization,
                            "Failed to serialize response: ",
                            cause.as_str(),
                        ),
                    ),
                ),
                (FilingStep::WritingResponse, Report::Failed(cause)) => Progress::Finished(
                    ArchiveOutcome::Failed(
                        PipelineError::new(
                            ErrorKind::Io,
                            "Failed to write response.json: ",
                            cause.as_str(),
                        ),
                    ),
                ),
                (FilingStep::WritingInput, Report::Done) => match url {
                    Some(address) => {
                        let (download, effect) = Downloader::begin(
                            address.as_str(),
                            &dir,
                            extension.as_str(),
                        );
                        Progress::Continue(Archiver::Downloading { download }, effect)
                    },
                    None => Progress::Finished(ArchiveOutcome::Complete),
                },
                (FilingStep::WritingInput, Report::EncodeFailed(cause)) => Progress::Finished(
                    ArchiveOutcome::Failed(
                        PipelineError::new(
                            ErrorKind::Serialization,
                            "Failed to serialize input: ",
                            cause.as_str(),
                        ),
                    ),
                ),
                (FilingStep::WritingInput, Report::Failed(cause)) => Progress::Finished(
                    ArchiveOutcome::Failed(
                        PipelineError::new(
                            ErrorKind::Io,
                            "Failed to write input.json: ",
                            cause.as_str(),
                        ),
                    ),
                ),
                (step, _) => Progress::Rejected(Archiver::Filing { step, dir, url, extension }),
            },
            Archiver::Downloading { download } => match download.step(report) {
                Progress::Continue(next, effect) => Progress::Continue(
                    Archiver::Downloading { download: next },
                    effect,
                ),
                Progress::Finished(Ok(_)) => Progress::Finished(ArchiveOutcome::Complete),
                Progress::Finished(Err(error)) => Progress::Finished(
                    ArchiveOutcome::ImageMissing(error),
                ),
                Progress::Rejected(same) => Progress::Rejected(
                    Archiver::Downloading { download: same },
                ),
            },
        }
    }

    /// Takes the report of the effect that the archiver waits for. Where
    /// the answer depends on the time, the local time of this moment is
    /// read; nowhere else is the clock touched.
    pub fn step(self, report: Report) -> (progress: Progress<Archiver, ArchiveOutcome>)
        ensures
            self@.reads_clock(report@) ==> exists|now: Seq<char>|
                is_local_stamp(now) && progress@ == #[trigger] self@.step(report@, now),
            !self@.reads_clock(report@) ==> progress@ == self@.step(report@, Seq::empty()),
    {
        if self.reads_clock(&report) {
            let now = local_stamp();
            self.step_at(report, now.as_str())
        } else {
            let none = String::new();
            self.step_at(report, none.as_str())
        }
    }
}

impl ArchiverModel {
    /// The answers of the archiver, as a function of state and arrival.
    pub open spec fn answers() -> spec_fn(ArchiverModel, Arrival) -> ProgressModel<
        ArchiverModel,
        ArchiveOutcomeModel,
    > {
        |state: ArchiverModel, arrival: Arrival| state.step(arrival.report, arrival.now)
    }

    /// The run of the archiver from state `self` on `arrivals`.
    pub open spec fn run(self, arrivals: Seq<Arrival>) -> RunModel<ArchiveOutcomeModel> {
        run_machine(Self::answers(), self, arrivals)
    }
}

/// The time matters to a single answer of the archiver: the one that names
/// the generation's directory.
pub proof fn lemma_time_only_names_the_directory(
    archiver: ArchiverModel,
    report: ReportModel,
    now: Seq<char>,
    later: Seq<char>,
)
    requires
        !archiver.reads_clock(report),
    ensures
        archiver.step(report, now) == archiver.step(report, later),
{
}

impl ArchiverModel {
    /// The filing step that the archiver stands at, if it is filing.
    pub open spec fn filing(self) -> Option<FilingStep> {
        match self {
            ArchiverModel::Filing { step, .. } => Some(step),
            _ => None,
        }
    }
}

/// Each write is asked for only as the answer to the success of the step
/// before it: the response record when the generation's directory is
/// created, the input record when the response record is written, the
/// download when the input record is written, and the image file when the
/// asset's bytes are read.
pub proof fn lemma_writes_keep_their_order(
    archiver: ArchiverModel,
    report: ReportModel,
    now: Seq<char>,
)
    ensures
        archiver.step(report, now) matches ProgressModel::Continue(next, effect) ==> {
            &&& effect.written_record() == Some(Record::Response) ==> (archiver.filing() == Some(
                FilingStep::CreatingDir,
            ) && report is Done)
            &&& effect.written_record() == Some(Record::Input) ==> (archiver.filing() == Some(
                FilingStep::WritingResponse,
            ) && report is Done)
            &&& effect is Get ==> (archiver.filing() == Some(FilingStep::WritingInput)
                && report is Done)
            &&& effect is WriteBytes ==> (archiver is Downloading && report is Done)
        },
{
}

/// The four reports of an archival on a standing storage root, up to the
/// second record: the data directory is found, the root exists, the
/// generation's directory is created, the response record is written. The
/// i-th report arrives at the local time `times(i)`.
pub open spec fn filing_arrivals(times: spec_fn(int) -> Seq<char>) -> Seq<Arrival> {
    seq![
        Arrival { report: ReportModel::Done, now: times(0) },
        Arrival { report: ReportModel::Exists(true), now: times(1) },
        Arrival { report: ReportModel::Done, now: times(2) },
        Arrival { report: ReportModel::Done, now: times(3) },
    ]
}

/// Once the storage root stands, the archiver creates the directory named
/// by the time at which it learnt so, and writes the two records into it.
/// No other time, and nothing of the result or of the request, has a part
/// in these paths.
pub proof fn lemma_records_go_under_the_stamp(
    result: ResultModel,
    request: RequestModel,
    times: spec_fn(int) -> Seq<char>,
)
    ensures
        ArchiverModel::begin(result, request).0.run(filing_arrivals(times)).asked == seq![
            EffectModel::ProbeDir { path: storage_root() },
            EffectModel::CreateDirAll { path: generation_dir(times(1)) },
            EffectModel::WriteRecord {
                record: Record::Response,
                path: generation_dir(times(1)).push("response.json"@),
            },
            EffectModel::WriteRecord {
                record: Record::Input,
                path: generation_dir(times(1)).push("input.json"@),
            },
        ],
{
    let step = ArchiverModel::answers();
    let url = primary_asset_of(result.output);
    let extension = extension_of(request.output_format);
    let dir = generation_dir(times(1));
    let a0 = ArchiverModel::begin(result, request).0;
    let a1 = ArchiverModel::Preparing { setup: StorageSetup::Probing, url, extension };
    let a2 = ArchiverModel::Filing { step: FilingStep::CreatingDir, dir, url, extension };
    let a3 = ArchiverModel::Filing { step: FilingStep::WritingResponse, dir, url, extension };
    let a4 = ArchiverModel::Filing { step: FilingStep::WritingInput, dir, url, extension };
    let r0 = Arrival { report: ReportModel::Done, now: times(0) };
    let r1 = Arrival { report: ReportModel::Exists(true), now: times(1) };
    let r2 = Arrival { report: ReportModel::Done, now: times(2) };
    let r3 = Arrival { report: ReportModel::Done, now: times(3) };
    let none = Seq::<Arrival>::empty();

    lemma_run_unfolds(step, a3, r3, none);
    assert(seq![r3] + none =~= seq![r3]);
    assert(run_machine(step, a4, none).asked =~= Seq::<EffectModel>::empty());
    lemma_run_unfolds(step, a2, r2, seq![r3]);
    assert(seq![r2] + seq![r3] =~= seq![r2, r3]);
    lemma_run_unfolds(step, a1, r1, seq![r2, r3]);
    assert(seq![r1] + seq![r2, r3] =~= seq![r1, r2, r3]);
    lemma_run_unfolds(step, a0, r0, seq![r1, r2, r3]);
    assert(seq![r0] + seq![r1, r2, r3] =~= seq![r0, r1, r2, r3]);
    assert(a0.run(seq![r0, r1, r2, r3]).asked =~= seq![
        EffectModel::ProbeDir { path: storage_root() },
        EffectModel::CreateDirAll { path: dir },
        EffectModel::WriteRecord { record: Record::Response, path: dir.push("response.json"@) },
        EffectModel::WriteRecord { record: Record::Input, path: dir.push("input.json"@) },
    ]);
}

/// Two generations that are archived within the same second get the same
/// directory: the second one's records are written over the first one's.
/// The directory is named by the time alone; nothing of the result or of
/// the request tells two generations apart.
pub proof fn lemma_same_second_same_directory(
    first: (ResultModel, RequestModel),
    first_times: spec_fn(int) -> Seq<char>,
    second: (ResultModel, RequestModel),
    second_times: spec_fn(int) -> Seq<char>,
)
    requires
        first_times(1) == second_times(1),
    ensures
        ArchiverModel::begin(first.0, first.1).0.run(filing_arrivals(first_times)).asked
            == ArchiverModel::begin(second.0, second.1).0.run(
            filing_arrivals(second_times),
        ).asked,
{
    lemma_records_go_under_the_stamp(first.0, first.1, first_times);
    lemma_records_go_under_the_stamp(second.0, second.1, second_times);
}

} // verus!
