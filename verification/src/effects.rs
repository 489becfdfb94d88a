//! What the library asks of the application, and what the application
//! answers.
//!
//! The library touches neither the network nor the disk. Each machine of the
//! pipeline names the next operation as an [`Effect`]; the application
//! performs it and hands the machine a [`Report`]; the machine answers with
//! a [`Progress`]. Paths are lists of names below the application's data
//! directory.

use vstd::prelude::*;
use crate::model::{GenerationResult, ResultModel};
use crate::payload::RequestPayload;

verus! {

/// One of the two records that are archived for a generation.
#[derive(Debug, Clone, Copy, PartialEq, Eq, Structural)]
pub enum Record {
    /// The result, as the service sent it.
    Response,
    /// The request, as the caller made it.
    Input,
}

/// An operation for the application to perform.
#[derive(Debug, Clone, PartialEq, Eq)]
pub enum Effect {
    /// POST to `url`, with `headers`, the JSON object that holds `payload`
    /// under the single key `wrapper`. Answer: `Status` or `Failed`.
    PostJson { url: String, headers: Vec<(String, String)>, wrapper: String, payload: RequestPayload },
    /// GET `url` with `headers`. Answer: `Status` or `Failed`.
    Get { url: String, headers: Vec<(String, String)> },
    /// Decode the body of the last reply as a generation result. Answer:
    /// `Decoded` or `Failed`.
    DecodeResult,
    /// Read the body of the last reply as text. Answer: `Text` or `Failed`.
    ReadText,
    /// Read the body of the last reply as bytes and hold them. Answer:
    /// `Done` or `Failed`.
    ReadBytes,
    /// Find the application's data directory. Answer: `Done` or `Failed`.
    ResolveDataDir,
    /// Look whether the directory at `path` exists. Answer: `Exists`.
    ProbeDir { path: Vec<String> },
    /// Create the directory at `path` and its missing parents; one that
    /// stands already is no failure. Answer: `Done` or `Failed`.
    CreateDirAll { path: Vec<String> },
    /// Encode `record` as pretty-printed JSON and write it to the file at
    /// `path`. Answer: `Done`, `EncodeFailed` or `Failed`.
    WriteRecord { record: Record, path: Vec<String> },
    /// Write the bytes last read to the file at `path`. Answer: `Done` or
    /// `Failed`.
    WriteBytes { path: Vec<String> },
    /// Give the absolute path of `path` as text. Answer: `Text` or `Failed`.
    RenderPath { path: Vec<String> },
}

/// What an [`Effect`] holds, as mathematical values.
pub enum EffectModel {
    PostJson {
        url: Seq<char>,
        headers: Seq<(Seq<char>, Seq<char>)>,
        wrapper: Seq<char>,
        payload: Map<Seq<char>, Seq<char>>,
    },
    Get { url: Seq<char>, headers: Seq<(Seq<char>, Seq<char>)> },
    DecodeResult,
    ReadText,
    ReadBytes,
    ResolveDataDir,
    ProbeDir { path: Seq<Seq<char>> },
    CreateDirAll { path: Seq<Seq<char>> },
    WriteRecord { record: Record, path: Seq<Seq<char>> },
    WriteBytes { path: Seq<Seq<char>> },
    RenderPath { path: Seq<Seq<char>> },
}

impl View for Effect {
    type V = EffectModel;

    open spec fn view(&self) -> EffectModel {
        match self {
            Effect::PostJson { url, headers, wrapper, payload } => EffectModel::PostJson {
                url: url@,
                headers: headers.deep_view(),
                wrapper: wrapper@,
                payload: payload@,
            },
            Effect::Get { url, headers } => EffectModel::Get {
                url: url@,
                headers: headers.deep_view(),
            },
            Effect::DecodeResult => EffectModel::DecodeResult,
            Effect::ReadText => EffectModel::ReadText,
            Effect::ReadBytes => EffectModel::ReadBytes,
            Effect::ResolveDataDir => EffectModel::ResolveDataDir,
            Effect::ProbeDir { path } => EffectModel::ProbeDir { path: path.deep_view() },
            Effect::CreateDirAll { path } => EffectModel::CreateDirAll { path: path.deep_view() },
            Effect::WriteRecord { record, path } => EffectModel::WriteRecord {
                record: *record,
                path: path.deep_view(),
            },
            Effect::WriteBytes { path } => EffectModel::WriteBytes { path: path.deep_view() },
            Effect::RenderPath { path } => EffectModel::RenderPath { path: path.deep_view() },
        }
    }
}

impl EffectModel {
    /// Whether the effect creates or writes something on disk.
    pub open spec fn writes_to_disk(self) -> bool {
        self is CreateDirAll || self is WriteRecord || self is WriteBytes
    }

    /// The record that the effect writes, if it writes one.
    pub open spec fn written_record(self) -> Option<Record> {
        match self {
            EffectModel::WriteRecord { record, .. } => Some(record),
            _ => None,
        }
    }
}

/// What the application answers after it has performed an [`Effect`].
#[derive(Debug, Clone, PartialEq, Eq)]
pub enum Report {
    /// The operation succeeded and has nothing to tell.
    Done,
    /// The operation failed; the text describes the cause.
    Failed(String),
    /// The record could not be encoded; the text describes the cause.
    EncodeFailed(String),
    /// Whether the directory exists.
    Exists(bool),
    /// The service replied: the status code, and the status as it is shown
    /// (`404 Not Found`).
    Status { code: u16, line: String },
    /// The body, decoded.
    Decoded(GenerationResult),
    /// The text that was asked for.
    Text(String),
}

/// What a [`Report`] holds, as mathematical values.
pub enum ReportModel {
    Done,
    Failed(Seq<char>),
    EncodeFailed(Seq<char>),
    Exists(bool),
    Status { code: u16, line: Seq<char> },
    Decoded(ResultModel),
    Text(Seq<char>),
}

impl View for Report {
    type V = ReportModel;

    open spec fn view(&self) -> ReportModel {
        match self {
            Report::Done => ReportModel::Done,
            Report::Failed(cause) => ReportModel::Failed(cause@),
            Report::EncodeFailed(cause) => ReportModel::EncodeFailed(cause@),
            Report::Exists(found) => ReportModel::Exists(*found),
            Report::Status { code, line } => ReportModel::Status { code: *code, line: line@ },
            Report::Decoded(result) => ReportModel::Decoded(result@),
            Report::Text(text) => ReportModel::Text(text@),
        }
    }
}

/// What a machine answers to a report.
#[derive(Debug, PartialEq, Eq)]
pub enum Progress<M, T> {
    /// The machine goes on in the state given, once the effect is performed.
    Continue(M, Effect),
    /// The machine is done, with this outcome.
    Finished(T),
    /// The report does not answer the effect that the machine waits for.
    /// The machine is handed back as it was.
    Rejected(M),
}

/// What a [`Progress`] holds, as mathematical values.
pub enum ProgressModel<M, T> {
    Continue(M, EffectModel),
    Finished(T),
    Rejected(M),
}

/// A result whose two sides are taken by their views.
pub open spec fn result_view<T: View, E: View>(r: Result<T, E>) -> Result<T::V, E::V> {
    match r {
        Ok(value) => Ok(value@),
        Err(error) => Err(error@),
    }
}

impl<M: View, T: View, E: View> View for Progress<M, Result<T, E>> {
    type V = ProgressModel<M::V, Result<T::V, E::V>>;

    open spec fn view(&self) -> ProgressModel<M::V, Result<T::V, E::V>> {
        match self {
            Progress::Continue(machine, effect) => ProgressModel::Continue(machine@, effect@),
            Progress::Finished(outcome) => ProgressModel::Finished(result_view(*outcome)),
            Progress::Rejected(machine) => ProgressModel::Rejected(machine@),
        }
    }
}

/// Whether a status code reports success: 200 to 299.
pub open spec fn is_success(code: u16) -> bool {
    200 <= code < 300
}

/// Whether the service's reply with the status `code` reports success.
pub fn status_is_success(code: u16) -> (ok: bool)
    ensures
        ok == is_success(code),
{
    200 <= code && code < 300
}

/// A report, and the local time at which it reaches the machine.
pub struct Arrival {
    pub report: ReportModel,
    pub now: Seq<char>,
}

/// What a machine comes to when it is handed one report after the other:
/// the effects that it asks for on the way, in their order, and its outcome
/// if it finishes.
pub struct RunModel<T> {
    pub asked: Seq<EffectModel>,
    pub outcome: Option<T>,
}

/// The run of the machine whose answers are given by `step`, from the state
/// `machine`, on `inputs`. A rejected input changes nothing; inputs that
/// come after the machine has finished are not looked at.
pub open spec fn run_machine<M, R, T>(
    step: spec_fn(M, R) -> ProgressModel<M, T>,
    machine: M,
    inputs: Seq<R>,
) -> RunModel<T>
    decreases inputs.len(),
{
    if inputs.len() == 0 {
        RunModel { asked: Seq::empty(), outcome: None }
    } else {
        match step(machine, inputs[0]) {
            ProgressModel::Continue(next, effect) => {
                let rest = run_machine(step, next, inputs.drop_first());
                RunModel { asked: seq![effect] + rest.asked, outcome: rest.outcome }
            },
            ProgressModel::Finished(outcome) => RunModel {
                asked: Seq::empty(),
                outcome: Some(outcome),
            },
            ProgressModel::Rejected(same) => run_machine(step, same, inputs.drop_first()),
        }
    }
}

/// A run on `first` and then `rest` is the answer to `first`, followed by
/// the run on `rest` from where that answer leaves the machine.
pub proof fn lemma_run_unfolds<M, R, T>(
    step: spec_fn(M, R) -> ProgressModel<M, T>,
    machine: M,
    first: R,
    rest: Seq<R>,
)
    ensures
        run_machine(step, machine, seq![first] + rest) == (match step(machine, first) {
            ProgressModel::Continue(next, effect) => RunModel {
                asked: seq![effect] + run_machine(step, next, rest).asked,
                outcome: run_machine(step, next, rest).outcome,
            },
            ProgressModel::Finished(outcome) => RunModel {
                asked: Seq::empty(),
                outcome: Some(outcome),
            },
            ProgressModel::Rejected(same) => run_machine(step, same, rest),
        }),
{
    assert((seq![first] + rest).drop_first() =~= rest);
}

} // verus!
