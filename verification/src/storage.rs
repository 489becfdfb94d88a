//! The directory below which every generation is archived.

use vstd::prelude::*;
use vstd::string::StringExecFns;
use crate::effects::{
    lemma_run_unfolds,
    run_machine,
    Effect,
    EffectModel,
    Progress,
    ProgressModel,
    Report,
    ReportModel,
    RunModel,
};
use crate::error::{failure, ErrorKind, ErrorModel, PipelineError};

verus! {

/// The path of the storage root: the directory `generations` in the
/// application's data directory.
pub open spec fn storage_root() -> Seq<Seq<char>> {
    seq!["generations"@]
}

/// The path of the storage root.
pub fn storage_root_path() -> (path: Vec<String>)
    ensures
        path.deep_view() == storage_root(),
{
    let mut path: Vec<String> = Vec::new();
    path.push(String::from_str("generations"));
    assert(path.deep_view() =~= storage_root());
    path
}

/// Making sure that the storage root stands: find the data directory, look
/// for the root in it, and create the root only where it is missing.
#[derive(Debug, Clone, Copy, PartialEq, Eq, Structural)]
pub enum StorageSetup {
    /// Waiting for the data directory to be found.
    Resolving,
    /// Waiting to learn whether the root exists.
    Probing,
    /// Waiting for the root to be created.
    Creating,
}

impl View for StorageSetup {
    type V = StorageSetup;

    open spec fn view(&self) -> StorageSetup {
        *self
    }
}

impl StorageSetup {
    /// The state in which the setup starts, and its first effect.
    pub open spec fn spec_begin() -> (StorageSetup, EffectModel) {
        (StorageSetup::Resolving, EffectModel::ResolveDataDir)
    }

    /// The answer of the setup in state `self` to `report`.
    pub open spec fn spec_step(self, report: ReportModel) -> ProgressModel<
        StorageSetup,
        Result<(), ErrorModel>,
    > {
        match (self, report) {
            (StorageSetup::Resolving, ReportModel::Done) => ProgressModel::Continue(
                StorageSetup::Probing,
                EffectModel::ProbeDir { path: storage_root() },
            ),
            (StorageSetup::Resolving, ReportModel::Failed(cause)) => ProgressModel::Finished(
                Err(failure(ErrorKind::Io, "Failed to get app data directory: "@, cause)),
            ),
            (StorageSetup::Probing, ReportModel::Exists(found)) => if found {
                ProgressModel::Finished(Ok(()))
            } else {
                ProgressModel::Continue(
                    StorageSetup::Creating,
                    EffectModel::CreateDirAll { path: storage_root() },
                )
            },
            (StorageSetup::Creating, ReportModel::Done) => ProgressModel::Finished(Ok(())),
            (StorageSetup::Creating, ReportModel::Failed(cause)) => ProgressModel::Finished(
                Err(failure(ErrorKind::Io, "Failed to create generations directory: "@, cause)),
            ),
            _ => ProgressModel::Rejected(self),
        }
    }

    /// Starts the setup.
    pub fn begin() -> (start: (StorageSetup, Effect))
        ensures
            (start.0, start.1@) == StorageSetup::spec_begin(),
    {
        (StorageSetup::Resolving, Effect::ResolveDataDir)
    }

    /// Takes the report of the effect that the setup waits for.
    pub fn step(self, report: Report) -> (progress: Progress<
        StorageSetup,
        Result<(), PipelineError>,
    >)
        ensures
            progress@ == self.spec_step(report@),
    {
        match (self, report) {
            (StorageSetup::Resolving, Report::Done) => Progress::Continue(
                StorageSetup::Probing,
                Effect::ProbeDir { path: storage_root_path() },
            ),
            (StorageSetup::Resolving, Report::Failed(cause)) => Progress::Finished(
                Err(
                    PipelineError::new(
                        ErrorKind::Io,
                        "Failed to get app data directory: ",
                        cause.as_str(),
                    ),
                ),
            ),
            (StorageSetup::Probing, Report::Exists(found)) => {
                if found {
                    Progress::Finished(Ok(()))
                } else {
                    Progress::Continue(
                        StorageSetup::Creating,
                        Effect::CreateDirAll { path: storage_root_path() },
                    )
                }
            },
            (StorageSetup::Creating, Report::Done) => Progress::Finished(Ok(())),
            (StorageSetup::Creating, Report::Failed(cause)) => Progress::Finished(
                Err(
                    PipelineError::new(
                        ErrorKind::Io,
                        "Failed to create generations directory: ",
                        cause.as_str(),
                    ),
                ),
            ),
            (state, _) => Progress::Rejected(state),
        }
    }
}

/// Asking where the storage root is: the root is made sure of first, then
/// its path is given as text.
#[derive(Debug, Clone, Copy, PartialEq, Eq, Structural)]
pub enum StoragePath {
    /// The storage root is being made sure of.
    Preparing(StorageSetup),
    /// Waiting for the path as text.
    Rendering,
}

impl View for StoragePath {
    type V = StoragePath;

    open spec fn view(&self) -> StoragePath {
        *self
    }
}

/// The failure of a path that has no text.
pub open spec fn path_without_text() -> ErrorModel {
    ErrorModel { kind: ErrorKind::Io, message: "Failed to convert path to string"@ }
}

impl StoragePath {
    /// The state in which the question starts, and its first effect.
    pub open spec fn spec_begin() -> (StoragePath, EffectModel) {
        (StoragePath::Preparing(StorageSetup::spec_begin().0), StorageSetup::spec_begin().1)
    }

    /// The answer to `report` in state `self`. The path is that of the
    /// storage root, whether the root was found or had to be created.
    pub open spec fn spec_step(self, report: ReportModel) -> ProgressModel<
        StoragePath,
        Result<Seq<char>, ErrorModel>,
    > {
        match self {
            StoragePath::Preparing(setup) => match setup.spec_step(report) {
                ProgressModel::Continue(next, effect) => ProgressModel::Continue(
                    StoragePath::Preparing(next),
                    effect,
                ),
                ProgressModel::Finished(Ok(_)) => ProgressModel::Continue(
                    StoragePath::Rendering,
                    EffectModel::RenderPath { path: storage_root() },
                ),
                ProgressModel::Finished(Err(error)) => ProgressModel::Finished(Err(error)),
                ProgressModel::Rejected(_) => ProgressModel::Rejected(self),
            },
            StoragePath::Rendering => match report {
                ReportModel::Text(text) => ProgressModel::Finished(Ok(text)),
                ReportModel::Failed(_) => ProgressModel::Finished(Err(path_without_text())),
                _ => ProgressModel::Rejected(self),
            },
        }
    }

    /// Starts the question.
    pub fn begin() -> (start: (StoragePath, Effect))
        ensures
            (start.0, start.1@) == StoragePath::spec_begin(),
    {
        let (setup, effect) = StorageSetup::begin();
        (StoragePath::Preparing(setup), effect)
    }

    /// Takes the report of the effect that the question waits for.
    pub fn step(self, report: Report) -> (progress: Progress<
        StoragePath,
        Result<String, PipelineError>,
    >)
        ensures
            progress@ == self.spec_step(report@),
    {
        match self {
            StoragePath::Preparing(setup) => match setup.step(report) {
                Progress::Continue(next, effect) => Progress::Continue(
                    StoragePath::Preparing(next),
                    effect,
                ),
                Progress::Finished(Ok(_)) => Progress::Continue(
                    StoragePath::Rendering,
                    Effect::RenderPath { path: storage_root_path() },
                ),
                Progress::Finished(Err(error)) => Progress::Finished(Err(error)),
                Progress::Rejected(same) => Progress::Rejected(StoragePath::Preparing(same)),
            },
            StoragePath::Rendering => match report {
                Report::Text(text) => Progress::Finished(Ok(text)),
                Report::Failed(_) => Progress::Finished(
                    Err(
                        PipelineError {
                            kind: ErrorKind::Io,
                            message: String::from_str("Failed to convert path to string"),
                        },
                    ),
                ),
                _ => Progress::Rejected(StoragePath::Rendering),
            },
        }
    }
}

impl StoragePath {
    /// The answers of the question, as a function of state and report.
    pub open spec fn answers() -> spec_fn(StoragePath, ReportModel) -> ProgressModel<
        StoragePath,
        Result<Seq<char>, ErrorModel>,
    > {
        |state: StoragePath, report: ReportModel| state.spec_step(report)
    }

    /// The run of the question from state `self` on `reports`.
    pub open spec fn spec_run(self, reports: Seq<ReportModel>) -> RunModel<
        Result<Seq<char>, ErrorModel>,
    > {
        run_machine(Self::answers(), self, reports)
    }
}

/// Asking for the storage path twice gives the same path, and the second
/// call does not fail on the root that the first one created.
///
/// The first call finds no root, creates it, and has the root's path given
/// as text. The second call finds the root, creates nothing, and has the
/// same path given as text. Whatever text the application has for that path
/// is what either call returns.
pub proof fn lemma_storage_path_is_idempotent(text: Seq<char>)
    ensures
        StoragePath::spec_begin().1 == EffectModel::ResolveDataDir,
        StoragePath::spec_begin().0.spec_run(
            seq![
                ReportModel::Done,
                ReportModel::Exists(false),
                ReportModel::Done,
                ReportModel::Text(text),
            ],
        ) == (RunModel::<Result<Seq<char>, ErrorModel>> {
            asked: seq![
                EffectModel::ProbeDir { path: storage_root() },
                EffectModel::CreateDirAll { path: storage_root() },
                EffectModel::RenderPath { path: storage_root() },
            ],
            outcome: Some(Ok(text)),
        }),
        StoragePath::spec_begin().0.spec_run(
            seq![ReportModel::Done, ReportModel::Exists(true), ReportModel::Text(text)],
        ) == (RunModel::<Result<Seq<char>, ErrorModel>> {
            asked: seq![
                EffectModel::ProbeDir { path: storage_root() },
                EffectModel::RenderPath { path: storage_root() },
            ],
            outcome: Some(Ok(text)),
        }),
{
    let step = StoragePath::answers();
    let start = StoragePath::spec_begin().0;
    let probing = StoragePath::Preparing(StorageSetup::Probing);
    let creating = StoragePath::Preparing(StorageSetup::Creating);
    let done = ReportModel::Done;
    let shown = ReportModel::Text(text);
    let none = Seq::<ReportModel>::empty();

    lemma_run_unfolds(step, StoragePath::Rendering, shown, none);
    assert(seq![shown] + none =~= seq![shown]);
    let last = run_machine(step, StoragePath::Rendering, seq![shown]);
    assert(last.asked =~= Seq::<EffectModel>::empty());

    // the first call: the root is missing
    let missing = ReportModel::Exists(false);
    lemma_run_unfolds(step, creating, done, seq![shown]);
    assert(seq![done] + seq![shown] =~= seq![done, shown]);
    lemma_run_unfolds(step, probing, missing, seq![done, shown]);
    assert(seq![missing] + seq![done, shown] =~= seq![missing, done, shown]);
    lemma_run_unfolds(step, start, done, seq![missing, done, shown]);
    assert(seq![done] + seq![missing, done, shown] =~= seq![done, missing, done, shown]);
    assert(start.spec_run(seq![done, missing, done, shown]).asked =~= seq![
        EffectModel::ProbeDir { path: storage_root() },
        EffectModel::CreateDirAll { path: storage_root() },
        EffectModel::RenderPath { path: storage_root() },
    ]);

    // the second call: the root stands
    let found = ReportModel::Exists(true);
    lemma_run_unfolds(step, probing, found, seq![shown]);
    assert(seq![found] + seq![shown] =~= seq![found, shown]);
    lemma_run_unfolds(step, start, done, seq![found, shown]);
    assert(seq![done] + seq![found, shown] =~= seq![done, found, shown]);
    assert(start.spec_run(seq![done, found, shown]).asked =~= seq![
        EffectModel::ProbeDir { path: storage_root() },
        EffectModel::RenderPath { path: storage_root() },
    ]);
}

} // verus!
