use imagegen_pipeline::downloader::Downloader;
use imagegen_pipeline::effects::{Effect, Progress, Report};
use imagegen_pipeline::error::{ErrorKind, PipelineError};

fn dir() -> Vec<String> {
    vec!["generations".to_string(), "20240501_101500".to_string()]
}

fn image(name: &str) -> Vec<String> {
    let mut path = dir();
    path.push(name.to_string());
    path
}

fn started(extension: &str) -> Downloader {
    Downloader::begin("https://cdn.example.com/a.png", &dir(), extension).0
}

fn after(downloader: Downloader, report: Report) -> Downloader {
    match downloader.step(report) {
        Progress::Continue(next, _) => next,
        other => panic!("the download does not go on: {:?}", other),
    }
}

fn failed(progress: Progress<Downloader, Result<(), PipelineError>>) -> PipelineError {
    match progress {
        Progress::Finished(Err(error)) => error,
        other => panic!("the download did not fail: {:?}", other),
    }
}

fn ok(code: u16) -> Report {
    Report::Status { code, line: format!("{} OK", code) }
}

#[test]
fn download_starts_with_a_plain_get() {
    let (_, effect) = Downloader::begin("https://cdn.example.com/a.png", &dir(), "png");
    assert_eq!(
        effect,
        Effect::Get { url: "https://cdn.example.com/a.png".to_string(), headers: vec![] }
    );
}

#[test]
fn download_reads_then_writes_the_image_file() {
    let fetching = started("png");
    let reading = match fetching.step(ok(200)) {
        Progress::Continue(next, effect) => {
            assert_eq!(effect, Effect::ReadBytes);
            next
        },
        other => panic!("unexpected {:?}", other),
    };
    let saving = match reading.step(Report::Done) {
        Progress::Continue(next, effect) => {
            assert_eq!(effect, Effect::WriteBytes { path: image("image.png") });
            next
        },
        other => panic!("unexpected {:?}", other),
    };
    assert_eq!(saving.step(Report::Done), Progress::Finished(Ok(())));
}

#[test]
fn image_file_is_named_by_the_extension() {
    for (extension, name) in [("jpeg", "image.jpeg"), ("webp", "image.webp"), ("", "image.")] {
        let reading = after(started(extension), ok(200));
        match reading.step(Report::Done) {
            Progress::Continue(_, effect) => {
                assert_eq!(effect, Effect::WriteBytes { path: image(name) })
            },
            other => panic!("unexpected {:?}", other),
        }
    }
}

#[test]
fn failed_get_is_a_transport_failure() {
    let error = failed(started("png").step(Report::Failed("timed out".to_string())));
    assert_eq!(
        error,
        PipelineError {
            kind: ErrorKind::Transport,
            message: "Failed to download image: timed out".to_string()
        }
    );
}

#[test]
fn failure_status_is_a_transport_failure() {
    let report = Report::Status { code: 404, line: "404 Not Found".to_string() };
    let error = failed(started("png").step(report));
    assert_eq!(
        error,
        PipelineError {
            kind: ErrorKind::Transport,
            message: "Failed to download image, status: 404 Not Found".to_string()
        }
    );
}

#[test]
fn unreadable_body_is_a_transport_failure() {
    let reading = after(started("png"), ok(200));
    let error = failed(reading.step(Report::Failed("body cut short".to_string())));
    assert_eq!(
        error,
        PipelineError {
            kind: ErrorKind::Transport,
            message: "Failed to read image data: body cut short".to_string()
        }
    );
}

#[test]
fn failed_write_is_an_io_failure() {
    let saving = after(after(started("png"), ok(299)), Report::Done);
    let error = failed(saving.step(Report::Failed("disk full".to_string())));
    assert_eq!(
        error,
        PipelineError { kind: ErrorKind::Io, message: "Failed to save image: disk full".to_string() }
    );
}

#[test]
fn download_rejects_a_report_it_does_not_wait_for() {
    assert!(matches!(started("png").step(Report::Done), Progress::Rejected(_)));
    let reading = after(started("png"), ok(200));
    assert!(matches!(reading.step(ok(200)), Progress::Rejected(_)));
    let saving = after(after(started("png"), ok(200)), Report::Done);
    match saving.step(Report::Exists(true)) {
        Progress::Rejected(same) => {
            assert_eq!(same.step(Report::Done), Progress::Finished(Ok(())))
        },
        other => panic!("unexpected {:?}", other),
    }
}
