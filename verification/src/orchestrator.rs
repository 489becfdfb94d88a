//! One generation from request to result: the payload is built, the
//! prediction is asked for, and a result that arrived is archived before it
//! is returned. What the archival meets is told, and never changes the
//! result.

use vstd::prelude::*;
use vstd::string::StringExecFns;
use crate::archiver::{
    generation_dir,
    ArchiveOutcome,
    ArchiveOutcomeModel,
    Archiver,
    ArchiverModel,
    FilingStep,
};
use crate::client::{prediction_effect, PredictionClient};
use crate::clock::{is_local_stamp, local_stamp};
use crate::downloader::DownloaderModel;
use crate::effects::{
    is_success,
    lemma_run_unfolds,
    run_machine,
    Arrival,
    Effect,
    EffectModel,
    Progress,
    ProgressModel,
    Record,
    Report,
    ReportModel,
    RunModel,
};
use crate::error::{failure, ErrorKind, ErrorModel, PipelineError};
use crate::model::{
    extension_of,
    primary_asset_of,
    GenerationRequest,
    GenerationResult,
    RequestModel,
    ResultModel,
};
use crate::payload::{build_payload, payload_of};
use crate::storage::{storage_root, StorageSetup};

verus! {

/// The orchestration of one generation.
#[derive(Debug, PartialEq, Eq)]
pub enum Orchestrator {
    /// The prediction is being asked for.
    Predicting { client: PredictionClient, request: GenerationRequest },
    /// The result is there and is being archived.
    Archiving { result: GenerationResult, archiver: Archiver },
}

/// What an [`Orchestrator`] holds, as mathematical values.
pub enum OrchestratorModel {
    Predicting { client: PredictionClient, request: RequestModel },
    Archiving { result: ResultModel, archiver: ArchiverModel },
}

impl View for Orchestrator {
    type V = OrchestratorModel;

    open spec fn view(&self) -> OrchestratorModel {
        match self {
            Orchestrator::Predicting { client, request } => OrchestratorModel::Predicting {
                client: *client,
                request: request@,
            },
            Orchestrator::Archiving { result, archiver } => OrchestratorModel::Archiving {
                result: result@,
                archiver: archiver@,
            },
        }
    }
}

/// How a generation ended, on two channels: the result, which goes to the
/// caller, and a diagnostic, which goes to the log.
#[derive(Debug, PartialEq, Eq)]
pub struct Outcome {
    pub result: Result<GenerationResult, PipelineError>,
    pub diagnostic: Option<String>,
}

/// What an [`Outcome`] holds, as mathematical values.
pub struct OutcomeModel {
    pub result: Result<ResultModel, ErrorModel>,
    pub diagnostic: Option<Seq<char>>,
}

impl View for Outcome {
    type V = OutcomeModel;

    open spec fn view(&self) -> OutcomeModel {
        OutcomeModel {
            result: match self.result {
                Ok(result) => Ok(result@),
                Err(error) => Err(error@),
            },
            diagnostic: self.diagnostic.deep_view(),
        }
    }
}

impl View for Progress<Orchestrator, Outcome> {
    type V = ProgressModel<OrchestratorModel, OutcomeModel>;

    open spec fn view(&self) -> ProgressModel<OrchestratorModel, OutcomeModel> {
        match self {
            Progress::Continue(machine, effect) => ProgressModel::Continue(machine@, effect@),
            Progress::Finished(outcome) => ProgressModel::Finished(outcome@),
            Progress::Rejected(machine) => ProgressModel::Rejected(machine@),
        }
    }
}

/// The diagnostic for an archival that ended with `outcome`: none where it
/// is complete, else the failure's text behind `Error saving generation: `.
pub open spec fn archive_diagnostic(outcome: ArchiveOutcomeModel) -> Option<Seq<char>> {
    match outcome {
        ArchiveOutcomeModel::Complete => None,
        ArchiveOutcomeModel::ImageMissing(error) => Some(
            "Error saving generation: "@ + error.message,
        ),
        ArchiveOutcomeModel::Failed(error) => Some("Error saving generation: "@ + error.message),
    }
}

/// The outcome of a generation that failed with `error` before any result
/// was there.
pub open spec fn failed_outcome(error: ErrorModel) -> OutcomeModel {
    OutcomeModel { result: Err(error), diagnostic: None }
}

impl OrchestratorModel {
    /// The state in which the generation of `request` under `api_key`
    /// starts, and its first effect: the prediction request, with the
    /// payload of `request`.
    pub open spec fn begin(api_key: Seq<char>, request: RequestModel) -> (
        OrchestratorModel,
        EffectModel,
    ) {
        (
            OrchestratorModel::Predicting { client: PredictionClient::Requesting, request },
            prediction_effect(api_key, payload_of(request)),
        )
    }

    /// Whether the answer to `report` depends on the time.
    pub open spec fn reads_clock(self, report: ReportModel) -> bool {
        match self {
            OrchestratorModel::Archiving { archiver, .. } => archiver.reads_clock(report),
            _ => false,
        }
    }

    /// The answer of the orchestrator in state `self` to `report`, at the
    /// local time `now`.
    ///
    /// A failure of the prediction client ends the generation at once, and
    /// nothing is archived. A result is archived, and however the archival
    /// ends, that result is the outcome.
    pub open spec fn step(self, report: ReportModel, now: Seq<char>) -> ProgressModel<
        OrchestratorModel,
        OutcomeModel,
    > {
        match self {
            OrchestratorModel::Predicting { client, request } => match client.spec_step(report) {
                ProgressModel::Continue(next, effect) => ProgressModel::Continue(
                    OrchestratorModel::Predicting { client: next, request },
                    effect,
                ),
                ProgressModel::Finished(Ok(result)) => ProgressModel::Continue(
                    OrchestratorModel::Archiving {
                        result,
                        archiver: ArchiverModel::begin(result, request).0,
                    },
                    ArchiverModel::begin(result, request).1,
                ),
                ProgressModel::Finished(Err(error)) => ProgressModel::Finished(
                    failed_outcome(error),
                ),
                ProgressModel::Rejected(_) => ProgressModel::Rejected(self),
            },
            OrchestratorModel::Archiving { result, archiver } => match archiver.step(report, now) {
                ProgressModel::Continue(next, effect) => ProgressModel::Continue(
                    OrchestratorModel::Archiving { result, archiver: next },
                    effect,
                ),
                ProgressModel::Finished(outcome) => ProgressModel::Finished(
                    OutcomeModel { result: Ok(result), diagnostic: archive_diagnostic(outcome) },
                ),
                ProgressModel::Rejected(_) => ProgressModel::Rejected(self),
            },
        }
    }

    /// The answers of the orchestrator, as a function of state and
    /// arrival.
    pub open spec fn answers() -> spec_fn(OrchestratorModel, Arrival) -> ProgressModel<
        OrchestratorModel,
        OutcomeModel,
    > {
        |state: OrchestratorModel, arrival: Arrival| state.step(arrival.report, arrival.now)
    }

    /// The run of the orchestrator from state `self` on `arrivals`.
    pub open spec fn run(self, arrivals: Seq<Arrival>) -> RunModel<OutcomeModel> {
        run_machine(Self::answers(), self, arrivals)
    }
}

fn diagnostic_of(outcome: ArchiveOutcome) -> (diagnostic: Option<String>)
    ensures
        diagnostic.deep_view() == archive_diagnostic(outcome@),
{
    match outcome {
        ArchiveOutcome::Complete => None,
        ArchiveOutcome::ImageMissing(error) => {
            let mut text = String::from_str("Error saving generation: ");
            text.append(error.message.as_str());
            Some(text)
        },
        ArchiveOutcome::Failed(error) => {
            let mut text = String::from_str("Error saving generation: ");
            text.append(error.message.as_str());
            Some(text)
        },
    }
}

impl Orchestrator {
    /// Starts the generation of `request` under `api_key`.
    pub fn begin(api_key: &str, request: GenerationRequest) -> (start: (Orchestrator, Effect))
        ensures
            (start.0@, start.1@) == OrchestratorModel::begin(api_key@, request@),
    {
        let payload = build_payload(&request);
        let (client, effect) = PredictionClient::begin(api_key, payload);
        (Orchestrator::Predicting { client, request }, effect)
    }

    /// Whether the answer to `report` depends on the time.
    pub fn reads_clock(&self, report: &Report) -> (reads: bool)
        ensures
            reads == self@.reads_clock(report@),
    {
        match self {
            Orchestrator::Archiving { archiver, .. } => archiver.reads_clock(report),
            _ => false,
        }
    }

    /// Takes the report of the effect that the orchestrator waits for, as
    /// if the local time were `now`.
    pub fn step_at(self, report: Report, now: &str) -> (progress: Progress<Orchestrator, Outcome>)
        ensures
            progress@ == self@.step(report@, now@),
    {
        match self {
            Orchestrator::Predicting { client, request } => match client.step(report) {
                Progress::Continue(next, effect) => Progress::Continue(
                    Orchestrator::Predicting { client: next, request },
                    effect,
                ),
                Progress::Finished(Ok(result)) => {
                    let (archiver, effect) = Archiver::begin(&result, &request);
                    Progress::Continue(Orchestrator::Archiving { result, archiver }, effect)
                },
                Progress::Finished(Err(error)) => Progress::Finished(
                    Outcome { result: Err(error), diagnostic: None },
                ),
                Progress::Rejected(same) => Progress::Rejected(
                    Orchestrator::Predicting { client: same, request },
                ),
            },
            Orchestrator::Archiving { result, archiver } => match archiver.step_at(report, now) {
                Progress::Continue(next, effect) => Progress::Continue(
                    Orchestrator::Archiving { result, archiver: next },
                    effect,
                ),
                Progress::Finished(outcome) => Progress::Finished(
                    Outcome { result: Ok(result), diagnostic: diagnostic_of(outcome) },
                ),
                Progress::Rejected(same) => Progress::Rejected(
                    Orchestrator::Archiving { result, archiver: same },
                ),
            },
        }
    }

    /// Takes the report of the effect that the orchestrator waits for.
    /// Where the answer depends on the time, the local time of this moment
    /// is read; nowhere else is the clock touched.
    pub fn step(self, report: Report) -> (progress: Progress<Orchestrator, Outcome>)
        ensures
            self@.reads_clock(report@) ==> exists|now: Seq<char>|
                is_local_stamp(now) && progress@ == #[trigger] self@.step(report@, now),
            !self@.reads_clock(report@) ==> progress@ == self@.step(report@, Seq::empty()),
    {
        if self.reads_clock(&report) {
            let now = local_stamp();
            self.step_at(report, now.as_str())
        } else {
            let none = String::new();
            self.step_at(report, none.as_str())
        }
    }
}

/// From the moment a result is being archived, the generation can only end
/// with that result, whatever is reported of the archival.
pub proof fn lemma_archival_never_changes_the_result(
    result: ResultModel,
    archiver: ArchiverModel,
    arrivals: Seq<Arrival>,
)
    ensures
        (OrchestratorModel::Archiving { result, archiver }).run(arrivals).outcome matches Some(
            outcome,
        ) ==> outcome.result == Ok::<ResultModel, ErrorModel>(result),
    decreases arrivals.len(),
{
    if arrivals.len() > 0 {
        let first = arrivals[0];
        let rest = arrivals.drop_first();
        let state = OrchestratorModel::Archiving { result, archiver };
        assert(arrivals =~= seq![first] + rest);
        lemma_run_unfolds(OrchestratorModel::answers(), state, first, rest);
        match archiver.step(first.report, first.now) {
            ProgressModel::Continue(next, effect) => {
                lemma_archival_never_changes_the_result(result, next, rest);
            },
            ProgressModel::Finished(outcome) => {},
            ProgressModel::Rejected(same) => {
                lemma_archival_never_changes_the_result(result, archiver, rest);
            },
        }
    }
}

/// When the service answers the prediction request with a status in 2xx
/// and the reply decodes to `result`, the generation ends, if it ends, with
/// exactly `result`: no report that follows can change it.
pub proof fn lemma_decoded_result_is_returned(
    api_key: Seq<char>,
    request: RequestModel,
    status: (u16, Seq<char>),
    result: ResultModel,
    times: (Seq<char>, Seq<char>),
    rest: Seq<Arrival>,
)
    requires
        is_success(status.0),
    ensures
        OrchestratorModel::begin(api_key, request).0.run(
            seq![
                Arrival {
                    report: ReportModel::Status { code: status.0, line: status.1 },
                    now: times.0,
                },
                Arrival { report: ReportModel::Decoded(result), now: times.1 },
            ] + rest,
        ).outcome matches Some(outcome) ==> outcome.result == Ok::<ResultModel, ErrorModel>(result),
{
    let step = OrchestratorModel::answers();
    let replied = Arrival {
        report: ReportModel::Status { code: status.0, line: status.1 },
        now: times.0,
    };
    let decoded = Arrival { report: ReportModel::Decoded(result), now: times.1 };
    let start = OrchestratorModel::begin(api_key, request).0;
    let decoding = OrchestratorModel::Predicting { client: PredictionClient::Decoding, request };
    let archiver = ArchiverModel::begin(result, request).0;
    lemma_archival_never_changes_the_result(result, archiver, rest);
    lemma_run_unfolds(step, decoding, decoded, rest);
    lemma_run_unfolds(step, start, replied, seq![decoded] + rest);
    assert(seq![replied] + (seq![decoded] + rest) =~= seq![replied, decoded] + rest);
}

/// A generation that ends in a failure has asked for nothing that creates
/// or writes anything on disk, whatever was reported to it: a failure comes
/// only before the archival begins.
pub proof fn lemma_failure_writes_nothing(state: OrchestratorModel, arrivals: Seq<Arrival>)
    requires
        state is Predicting,
    ensures
        state.run(arrivals).outcome matches Some(outcome) ==> (outcome.result is Err
            ==> forall|i: int|
            0 <= i < state.run(arrivals).asked.len() ==> !(#[trigger] state.run(
                arrivals,
            ).asked[i]).writes_to_disk()),
    decreases arrivals.len(),
{
    if arrivals.len() > 0 {
        let first = arrivals[0];
        let rest = arrivals.drop_first();
        assert(arrivals =~= seq![first] + rest);
        lemma_run_unfolds(OrchestratorModel::answers(), state, first, rest);
        match state.step(first.report, first.now) {
            ProgressModel::Continue(next, effect) => {
                assert(!effect.writes_to_disk());
                match next {
                    OrchestratorModel::Archiving { result, archiver } => {
                        lemma_archival_never_changes_the_result(result, archiver, rest);
                    },
                    _ => {
                        lemma_failure_writes_nothing(next, rest);
                    },
                }
            },
            ProgressModel::Finished(outcome) => {},
            ProgressModel::Rejected(same) => {
                lemma_failure_writes_nothing(state, rest);
            },
        }
    }
}

/// When the service answers the prediction request with a status outside
/// 2xx, the generation fails with the text of the reply behind
/// `API error: `, and all that was asked for besides the request is to read
/// that text: nothing is archived.
pub proof fn lemma_api_error_carries_the_body(
    api_key: Seq<char>,
    request: RequestModel,
    status: (u16, Seq<char>),
    body: Seq<char>,
    times: (Seq<char>, Seq<char>),
)
    requires
        !is_success(status.0),
    ensures
        OrchestratorModel::begin(api_key, request).1 is PostJson,
        OrchestratorModel::begin(api_key, request).0.run(
            seq![
                Arrival {
                    report: ReportModel::Status { code: status.0, line: status.1 },
                    now: times.0,
                },
                Arrival { report: ReportModel::Text(body), now: times.1 },
            ],
        ) == (RunModel {
            asked: seq![EffectModel::ReadText],
            outcome: Some(failed_outcome(failure(ErrorKind::Api, "API error: "@, body))),
        }),
{
    let step = OrchestratorModel::answers();
    let replied = Arrival {
        report: ReportModel::Status { code: status.0, line: status.1 },
        now: times.0,
    };
    let read = Arrival { report: ReportModel::Text(body), now: times.1 };
    let start = OrchestratorModel::begin(api_key, request).0;
    let reading = OrchestratorModel::Predicting { client: PredictionClient::ReadingError, request };
    let none = Seq::<Arrival>::empty();
    lemma_run_unfolds(step, reading, read, none);
    assert(seq![read] + none =~= seq![read]);
    lemma_run_unfolds(step, start, replied, seq![read]);
    assert(seq![replied] + seq![read] =~= seq![replied, read]);
    assert(start.run(seq![replied, read]).asked =~= seq![EffectModel::ReadText]);
}

/// The reports of a generation whose reply decodes to `result`, whose
/// records are archived on a standing storage root, and whose asset cannot
/// be fetched for the reason `cause`. The i-th report arrives at the local
/// time `times(i)`.
pub open spec fn arrivals_without_asset(
    result: ResultModel,
    cause: Seq<char>,
    times: spec_fn(int) -> Seq<char>,
) -> Seq<Arrival> {
    seq![
        Arrival { report: ReportModel::Decoded(result), now: times(0) },
        Arrival { report: ReportModel::Done, now: times(1) },
        Arrival { report: ReportModel::Exists(true), now: times(2) },
        Arrival { report: ReportModel::Done, now: times(3) },
        Arrival { report: ReportModel::Done, now: times(4) },
        Arrival { report: ReportModel::Done, now: times(5) },
        Arrival { report: ReportModel::Failed(cause), now: times(6) },
    ]
}

/// When the asset of a decoded result cannot be fetched, the result is
/// returned all the same. By then the generation's directory stands and both
/// records are written; the image file was never asked for. The failure of
/// the download goes to the log.
pub proof fn lemma_missing_asset_keeps_the_records(
    request: RequestModel,
    result: ResultModel,
    cause: Seq<char>,
    times: spec_fn(int) -> Seq<char>,
)
    requires
        primary_asset_of(result.output) is Some,
    ensures
        (OrchestratorModel::Predicting { client: PredictionClient::Decoding, request }).run(
            arrivals_without_asset(result, cause, times),
        ) == (RunModel {
            asked: seq![
                EffectModel::ResolveDataDir,
                EffectModel::ProbeDir { path: storage_root() },
                EffectModel::CreateDirAll { path: generation_dir(times(2)) },
                EffectModel::WriteRecord {
                    record: Record::Response,
                    path: generation_dir(times(2)).push("response.json"@),
                },
                EffectModel::WriteRecord {
                    record: Record::Input,
                    path: generation_dir(times(2)).push("input.json"@),
                },
                EffectModel::Get {
                    url: primary_asset_of(result.output)->0,
                    headers: Seq::empty(),
                },
            ],
            outcome: Some(
                OutcomeModel {
                    result: Ok(result),
                    diagnostic: Some(
                        "Error saving generation: "@ + ("Failed to download image: "@ + cause),
                    ),
                },
            ),
        }),
{
    let step = OrchestratorModel::answers();
    let url = primary_asset_of(result.output);
    let extension = extension_of(request.output_format);
    let dir = generation_dir(times(2));
    let filing = |at: FilingStep|
        OrchestratorModel::Archiving {
            result,
            archiver: ArchiverModel::Filing { step: at, dir, url, extension },
        };
    let preparing = |setup: StorageSetup|
        OrchestratorModel::Archiving {
            result,
            archiver: ArchiverModel::Preparing { setup, url, extension },
        };
    let s0 = OrchestratorModel::Predicting { client: PredictionClient::Decoding, request };
    let s1 = preparing(StorageSetup::Resolving);
    let s2 = preparing(StorageSetup::Probing);
    let s3 = filing(FilingStep::CreatingDir);
    let s4 = filing(FilingStep::WritingResponse);
    let s5 = filing(FilingStep::WritingInput);
    let s6 = OrchestratorModel::Archiving {
        result,
        archiver: ArchiverModel::Downloading {
            download: DownloaderModel::begin(url->0, dir, extension).0,
        },
    };
    let r0 = Arrival { report: ReportModel::Decoded(result), now: times(0) };
    let r1 = Arrival { report: ReportModel::Done, now: times(1) };
    let r2 = Arrival { report: ReportModel::Exists(true), now: times(2) };
    let r3 = Arrival { report: ReportModel::Done, now: times(3) };
    let r4 = Arrival { report: ReportModel::Done, now: times(4) };
    let r5 = Arrival { report: ReportModel::Done, now: times(5) };
    let r6 = Arrival { report: ReportModel::Failed(cause), now: times(6) };
    let none = Seq::<Arrival>::empty();

    lemma_run_unfolds(step, s6, r6, none);
    assert(seq![r6] + none =~= seq![r6]);
    assert(s6.run(seq![r6]).asked =~= Seq::<EffectModel>::empty());
    lemma_run_unfolds(step, s5, r5, seq![r6]);
    assert(seq![r5] + seq![r6] =~= seq![r5, r6]);
    lemma_run_unfolds(step, s4, r4, seq![r5, r6]);
    assert(seq![r4] + seq![r5, r6] =~= seq![r4, r5, r6]);
    lemma_run_unfolds(step, s3, r3, seq![r4, r5, r6]);
    assert(seq![r3] + seq![r4, r5, r6] =~= seq![r3, r4, r5, r6]);
    lemma_run_unfolds(step, s2, r2, seq![r3, r4, r5, r6]);
    assert(seq![r2] + seq![r3, r4, r5, r6] =~= seq![r2, r3, r4, r5, r6]);
    lemma_run_unfolds(step, s1, r1, seq![r2, r3, r4, r5, r6]);
    assert(seq![r1] + seq![r2, r3, r4, r5, r6] =~= seq![r1, r2, r3, r4, r5, r6]);
    lemma_run_unfolds(step, s0, r0, seq![r1, r2, r3, r4, r5, r6]);
    assert(seq![r0] + seq![r1, r2, r3, r4, r5, r6] =~= seq![r0, r1, r2, r3, r4, r5, r6]);
    assert(s0.run(seq![r0, r1, r2, r3, r4, r5, r6]).asked =~= seq![
        EffectModel::ResolveDataDir,
        EffectModel::ProbeDir { path: storage_root() },
        EffectModel::CreateDirAll { path: dir },
        EffectModel::WriteRecord { record: Record::Response, path: dir.push("response.json"@) },
        EffectModel::WriteRecord { record: Record::Input, path: dir.push("input.json"@) },
        EffectModel::Get { url: url->0, headers: Seq::empty() },
    ]);
}

} // verus!
