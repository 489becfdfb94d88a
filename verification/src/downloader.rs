//! Fetching the primary asset of a generation into its directory.

use vstd::prelude::*;
use vstd::string::StringExecFns;
use crate::effects::{
    is_success,
    status_is_success,
    Effect,
    EffectModel,
    Progress,
    ProgressModel,
    Report,
    ReportModel,
};
use crate::error::{failure, ErrorKind, ErrorModel, PipelineError};

verus! {

/// The name of the image file for the extension `extension`.
pub open spec fn image_name(extension: Seq<char>) -> Seq<char> {
    "image."@ + extension
}

/// Where a download stands.
#[derive(Debug, Clone, Copy, PartialEq, Eq, Structural)]
pub enum DownloadPhase {
    /// Waiting for the service's reply to the GET.
    Fetching,
    /// Waiting for the body of the reply.
    Reading,
    /// Waiting for the bytes to be written.
    Saving,
}

/// One download: the asset at a URL goes into the file `image.<extension>`
/// of a directory.
#[derive(Debug, PartialEq, Eq)]
pub struct Downloader {
    phase: DownloadPhase,
    target: Vec<String>,
}

/// What a [`Downloader`] holds, as mathematical values.
pub struct DownloaderModel {
    pub phase: DownloadPhase,
    /// The path of the image file.
    pub target: Seq<Seq<char>>,
}

impl View for Downloader {
    type V = DownloaderModel;

    closed spec fn view(&self) -> DownloaderModel {
        DownloaderModel { phase: self.phase, target: self.target.deep_view() }
    }
}

impl DownloaderModel {
    /// The state in which the download of `url` into the directory `dir`
    /// starts, and its first effect: a GET without headers.
    pub open spec fn begin(url: Seq<char>, dir: Seq<Seq<char>>, extension: Seq<char>) -> (
        DownloaderModel,
        EffectModel,
    ) {
        (
            DownloaderModel { phase: DownloadPhase::Fetching, target: dir.push(image_name(extension)) },
            EffectModel::Get { url, headers: Seq::empty() },
        )
    }

    /// The answer of the download in state `self` to `report`.
    ///
    /// A GET that fails, a status outside 2xx and a body that cannot be
    /// read are transport failures; a file that cannot be written is an I/O
    /// failure. Nothing is written before the body is there.
    pub open spec fn step(self, report: ReportModel) -> ProgressModel<
        DownloaderModel,
        Result<(), ErrorModel>,
    > {
        match (self.phase, report) {
            (DownloadPhase::Fetching, ReportModel::Failed(cause)) => ProgressModel::Finished(
                Err(failure(ErrorKind::Transport, "Failed to download image: "@, cause)),
            ),
            (DownloadPhase::Fetching, ReportModel::Status { code, line }) => if is_success(code) {
                ProgressModel::Continue(
                    DownloaderModel { phase: DownloadPhase::Reading, ..self },
                    EffectModel::ReadBytes,
                )
            } else {
                ProgressModel::Finished(
                    Err(failure(ErrorKind::Transport, "Failed to download image, status: "@, line)),
                )
            },
            (DownloadPhase::Reading, ReportModel::Done) => ProgressModel::Continue(
                DownloaderModel { phase: DownloadPhase::Saving, ..self },
                EffectModel::WriteBytes { path: self.target },
            ),
            (DownloadPhase::Reading, ReportModel::Failed(cause)) => ProgressModel::Finished(
                Err(failure(ErrorKind::Transport, "Failed to read image data: "@, cause)),
            ),
            (DownloadPhase::Saving, ReportModel::Done) => ProgressModel::Finished(Ok(())),
            (DownloadPhase::Saving, ReportModel::Failed(cause)) => ProgressModel::Finished(
                Err(failure(ErrorKind::Io, "Failed to save image: "@, cause)),
            ),
            _ => ProgressModel::Rejected(self),
        }
    }
}

impl Downloader {
    /// Starts the download of `url` into the directory `dir`, for an image
    /// of the format `extension`.
    pub fn begin(url: &str, dir: &Vec<String>, extension: &str) -> (start: (Downloader, Effect))
        ensures
            (start.0@, start.1@) == DownloaderModel::begin(url@, dir.deep_view(), extension@),
    {
        let mut name = String::from_str("image.");
        name.append(extension);
        let mut target = dir.clone();
        target.push(name);
        let headers: Vec<(String, String)> = Vec::new();
        let effect = Effect::Get { url: String::from_str(url), headers };
        let downloader = Downloader { phase: DownloadPhase::Fetching, target };
        proof {
            assert(downloader.target.deep_view() =~= dir.deep_view().push(image_name(extension@)));
            assert(headers.deep_view() =~= Seq::<(Seq<char>, Seq<char>)>::empty());
        }
        (downloader, effect)
    }

    /// Takes the report of the effect that the download waits for.
    pub fn step(self, report: Report) -> (progress: Progress<Downloader, Result<(), PipelineError>>)
        ensures
            progress@ == self@.step(report@),
    {
        match (self.phase, report) {
            (DownloadPhase::Fetching, Report::Failed(cause)) => Progress::Finished(
                Err(
                    PipelineError::new(
                        ErrorKind::Transport,
                        "Failed to download image: ",
                        cause.as_str(),
                    ),
                ),
            ),
            (DownloadPhase::Fetching, Report::Status { code, line }) => {
                if status_is_success(code) {
                    Progress::Continue(
                        Downloader { phase: DownloadPhase::Reading, target: self.target },
                        Effect::ReadBytes,
                    )
                } else {
                    Progress::Finished(
                        Err(
                            PipelineError::new(
                                ErrorKind::Transport,
                                "Failed to download image, status: ",
                                line.as_str(),
                            ),
                        ),
                    )
                }
            },
            (DownloadPhase::Reading, Report::Done) => {
                let path = self.target.clone();
                proof {
                    assert(path.deep_view() =~= self.target.deep_view());
                }
                Progress::Continue(
                    Downloader { phase: DownloadPhase::Saving, target: self.target },
                    Effect::WriteBytes { path },
                )
            },
            (DownloadPhase::Reading, Report::Failed(cause)) => Progress::Finished(
                Err(
                    PipelineError::new(
                        ErrorKind::Transport,
                        "Failed to read image data: ",
                        cause.as_str(),
                    ),
                ),
            ),
            (DownloadPhase::Saving, Report::Done) => Progress::Finished(Ok(())),
            (DownloadPhase::Saving, Report::Failed(cause)) => Progress::Finished(
                Err(PipelineError::new(ErrorKind::Io, "Failed to save image: ", cause.as_str())),
            ),
            (_, _) => Progress::Rejected(self),
        }
    }
}

} // verus!
