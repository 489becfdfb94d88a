use imagegen_pipeline::archiver::{ArchiveOutcome, Archiver};
use imagegen_pipeline::effects::{Effect, Progress, Record, Report};
use imagegen_pipeline::error::{ErrorKind, PipelineError};
use imagegen_pipeline::model::{GenerationRequest, GenerationResult};

const STAMP: &str = "20240501_101500";

fn request(output_format: Option<&str>) -> GenerationRequest {
    GenerationRequest {
        prompt: "a red fox".to_string(),
        aspect_ratio: "1:1".to_string(),
        image_prompt: None,
        image_prompt_strength: None,
        safety_tolerance: None,
        seed: None,
        raw: None,
        output_format: output_format.map(|f| f.to_string()),
    }
}

fn result(output: Option<Vec<&str>>) -> GenerationResult {
    GenerationResult {
        id: "p-123".to_string(),
        output: output.map(|urls| urls.into_iter().map(|u| u.to_string()).collect()),
        status: "succeeded".to_string(),
        error: None,
        created_at: None,
        started_at: None,
        completed_at: None,
    }
}

fn path(names: &[&str]) -> Vec<String> {
    names.iter().map(|n| n.to_string()).collect()
}

fn failure(kind: ErrorKind, message: &str) -> PipelineError {
    PipelineError { kind, message: message.to_string() }
}

fn ok() -> Report {
    Report::Status { code: 200, line: "200 OK".to_string() }
}

/// Runs the archiver on `reports`, all at the time `STAMP`.
fn archive(
    result: &GenerationResult,
    request: &GenerationRequest,
    reports: Vec<Report>,
) -> (Vec<Effect>, Option<ArchiveOutcome>) {
    let (mut state, first) = Archiver::begin(result, request);
    let mut asked = vec![first];
    for report in reports {
        match state.step_at(report, STAMP) {
            Progress::Continue(next, effect) => {
                state = next;
                asked.push(effect);
            },
            Progress::Finished(outcome) => return (asked, Some(outcome)),
            Progress::Rejected(same) => state = same,
        }
    }
    (asked, None)
}

fn filed() -> Vec<Report> {
    vec![Report::Done, Report::Exists(true), Report::Done, Report::Done, Report::Done]
}

#[test]
fn archive_of_a_result_with_an_asset_runs_in_order() {
    let mut reports = filed();
    reports.extend(vec![ok(), Report::Done, Report::Done]);
    let (asked, outcome) = archive(
        &result(Some(vec!["https://cdn.example.com/a.png", "https://cdn.example.com/b.png"])),
        &request(Some("png")),
        reports,
    );
    assert_eq!(outcome, Some(ArchiveOutcome::Complete));
    assert_eq!(
        asked,
        vec![
            Effect::ResolveDataDir,
            Effect::ProbeDir { path: path(&["generations"]) },
            Effect::CreateDirAll { path: path(&["generations", STAMP]) },
            Effect::WriteRecord {
                record: Record::Response,
                path: path(&["generations", STAMP, "response.json"]),
            },
            Effect::WriteRecord {
                record: Record::Input,
                path: path(&["generations", STAMP, "input.json"]),
            },
            Effect::Get { url: "https://cdn.example.com/a.png".to_string(), headers: vec![] },
            Effect::ReadBytes,
            Effect::WriteBytes { path: path(&["generations", STAMP, "image.png"]) },
        ]
    );
}

#[test]
fn archive_creates_a_missing_root_first() {
    let (asked, outcome) = archive(
        &result(None),
        &request(None),
        vec![Report::Done, Report::Exists(false), Report::Done, Report::Done, Report::Done, Report::Done],
    );
    assert_eq!(outcome, Some(ArchiveOutcome::Complete));
    assert_eq!(asked[2], Effect::CreateDirAll { path: path(&["generations"]) });
    assert_eq!(asked[3], Effect::CreateDirAll { path: path(&["generations", STAMP]) });
    assert_eq!(asked.len(), 6);
}

#[test]
fn image_file_defaults_to_jpeg() {
    let mut reports = filed();
    reports.extend(vec![ok(), Report::Done]);
    let (asked, _) =
        archive(&result(Some(vec!["https://cdn.example.com/a"])), &request(None), reports);
    assert_eq!(
        asked.last(),
        Some(&Effect::WriteBytes { path: path(&["generations", STAMP, "image.jpeg"]) })
    );
}

#[test]
fn result_without_output_has_no_download() {
    let (asked, outcome) = archive(&result(None), &request(Some("png")), filed());
    assert_eq!(outcome, Some(ArchiveOutcome::Complete));
    assert_eq!(asked.len(), 5);
    assert!(!asked.iter().any(|e| matches!(e, Effect::Get { .. })));
}

#[test]
fn result_with_empty_output_has_no_download() {
    let (asked, outcome) = archive(&result(Some(vec![])), &request(Some("png")), filed());
    assert_eq!(outcome, Some(ArchiveOutcome::Complete));
    assert_eq!(asked.len(), 5);
}

#[test]
fn failed_download_leaves_the_records() {
    let mut reports = filed();
    reports.push(Report::Failed("dns error".to_string()));
    let (asked, outcome) =
        archive(&result(Some(vec!["https://gone.example.com/a.png"])), &request(None), reports);
    assert_eq!(
        outcome,
        Some(ArchiveOutcome::ImageMissing(failure(
            ErrorKind::Transport,
            "Failed to download image: dns error"
        )))
    );
    assert!(asked.iter().any(|e| matches!(e, Effect::WriteRecord { record: Record::Response, .. })));
    assert!(asked.iter().any(|e| matches!(e, Effect::WriteRecord { record: Record::Input, .. })));
    assert!(!asked.iter().any(|e| matches!(e, Effect::WriteBytes { .. })));
}

#[test]
fn image_that_cannot_be_saved_leaves_the_records() {
    let mut reports = filed();
    reports.extend(vec![ok(), Report::Done, Report::Failed("disk full".to_string())]);
    let (_, outcome) =
        archive(&result(Some(vec!["https://cdn.example.com/a.png"])), &request(None), reports);
    assert_eq!(
        outcome,
        Some(ArchiveOutcome::ImageMissing(failure(
            ErrorKind::Io,
            "Failed to save image: disk full"
        )))
    );
}

#[test]
fn archive_fails_where_the_root_cannot_be_had() {
    let (asked, outcome) =
        archive(&result(None), &request(None), vec![Report::Failed("no home".to_string())]);
    assert_eq!(
        outcome,
        Some(ArchiveOutcome::Failed(failure(
            ErrorKind::Io,
            "Failed to get app data directory: no home"
        )))
    );
    assert_eq!(asked, vec![Effect::ResolveDataDir]);
}

#[test]
fn archive_fails_where_the_directory_cannot_be_created() {
    let (asked, outcome) = archive(
        &result(None),
        &request(None),
        vec![Report::Done, Report::Exists(true), Report::Failed("read-only".to_string())],
    );
    assert_eq!(
        outcome,
        Some(ArchiveOutcome::Failed(failure(
            ErrorKind::Io,
            "Failed to create generation directory: read-only"
        )))
    );
    assert!(!asked.iter().any(|e| matches!(e, Effect::WriteRecord { .. })));
}

#[test]
fn response_record_failures() {
    let start = vec![Report::Done, Report::Exists(true), Report::Done];
    let mut encode = start.clone();
    encode.push(Report::EncodeFailed("key must be a string".to_string()));
    assert_eq!(
        archive(&result(None), &request(None), encode).1,
        Some(ArchiveOutcome::Failed(failure(
            ErrorKind::Serialization,
            "Failed to serialize response: key must be a string"
        )))
    );
    let mut write = start;
    write.push(Report::Failed("disk full".to_string()));
    assert_eq!(
        archive(&result(None), &request(None), write).1,
        Some(ArchiveOutcome::Failed(failure(
            ErrorKind::Io,
            "Failed to write response.json: disk full"
        )))
    );
}

#[test]
fn input_record_failures() {
    let start = vec![Report::Done, Report::Exists(true), Report::Done, Report::Done];
    let mut encode = start.clone();
    encode.push(Report::EncodeFailed("not finite".to_string()));
    assert_eq!(
        archive(&result(None), &request(None), encode).1,
        Some(ArchiveOutcome::Failed(failure(
            ErrorKind::Serialization,
            "Failed to serialize input: not finite"
        )))
    );
    let mut write = start;
    write.push(Report::Failed("disk full".to_string()));
    let (asked, outcome) =
        archive(&result(Some(vec!["https://cdn.example.com/a.png"])), &request(None), write);
    assert_eq!(
        outcome,
        Some(ArchiveOutcome::Failed(failure(
            ErrorKind::Io,
            "Failed to write input.json: disk full"
        )))
    );
    assert!(!asked.iter().any(|e| matches!(e, Effect::Get { .. })));
}

#[test]
fn archiver_ignores_a_report_it_does_not_wait_for() {
    let (asked, outcome) = archive(
        &result(None),
        &request(None),
        vec![
            Report::Exists(true),
            Report::Done,
            Report::EncodeFailed("early".to_string()),
            Report::Exists(true),
            Report::Exists(false),
            Report::Done,
        ],
    );
    assert_eq!(outcome, None);
    assert_eq!(asked.len(), 4);
    assert!(matches!(asked[3], Effect::WriteRecord { record: Record::Response, .. }));
}

#[test]
fn clock_is_read_only_to_name_the_directory() {
    let res = result(None);
    let req = request(None);
    let (start, _) = Archiver::begin(&res, &req);
    assert!(!start.reads_clock(&Report::Done));
    let probing = match start.step(Report::Done) {
        Progress::Continue(next, _) => next,
        other => panic!("unexpected {:?}", other),
    };
    assert!(probing.reads_clock(&Report::Exists(true)));
    assert!(!probing.reads_clock(&Report::Exists(false)));
    assert!(!probing.reads_clock(&Report::Done));
    let creating_root = match probing.step(Report::Exists(false)) {
        Progress::Continue(next, _) => next,
        other => panic!("unexpected {:?}", other),
    };
    assert!(creating_root.reads_clock(&Report::Done));
    assert!(!creating_root.reads_clock(&Report::Failed("x".to_string())));
}

#[test]
fn directory_is_named_by_the_local_time() {
    let res = result(None);
    let req = request(None);
    let (start, _) = Archiver::begin(&res, &req);
    let probing = match start.step(Report::Done) {
        Progress::Continue(next, _) => next,
        other => panic!("unexpected {:?}", other),
    };
    let (filing, dir) = match probing.step(Report::Exists(true)) {
        Progress::Continue(next, Effect::CreateDirAll { path }) => (next, path),
        other => panic!("unexpected {:?}", other),
    };
    assert_eq!(dir.len(), 2);
    assert_eq!(dir[0], "generations");
    let stamp: Vec<char> = dir[1].chars().collect();
    assert_eq!(stamp.len(), 15);
    for (i, c) in stamp.iter().enumerate() {
        if i == 8 {
            assert_eq!(*c, '_');
        } else {
            assert!(c.is_ascii_digit());
        }
    }
    let year: i32 = dir[1][0..4].parse().unwrap();
    let month: u32 = dir[1][4..6].parse().unwrap();
    let day: u32 = dir[1][6..8].parse().unwrap();
    let hour: u32 = dir[1][9..11].parse().unwrap();
    let minute: u32 = dir[1][11..13].parse().unwrap();
    let second: u32 = dir[1][13..15].parse().unwrap();
    assert!(year >= 2024);
    assert!((1..=12).contains(&month));
    assert!((1..=31).contains(&day));
    assert!(hour < 24 && minute < 60 && second <= 60);
    match filing.step(Report::Done) {
        Progress::Continue(_, Effect::WriteRecord { record, path }) => {
            assert_eq!(record, Record::Response);
            assert_eq!(path[1], dir[1]);
            assert_eq!(path[2], "response.json");
        },
        other => panic!("unexpected {:?}", other),
    }
}

#[test]
fn local_stamp_agrees_with_the_clock() {
    let before = chrono::Local::now().format("%Y%m%d_%H%M%S").to_string();
    let (start, _) = Archiver::begin(&result(None), &request(None));
    let probing = match start.step(Report::Done) {
        Progress::Continue(next, _) => next,
        other => panic!("unexpected {:?}", other),
    };
    let stamp = match probing.step(Report::Exists(true)) {
        Progress::Continue(_, Effect::CreateDirAll { path }) => path[1].clone(),
        other => panic!("unexpected {:?}", other),
    };
    let after = chrono::Local::now().format("%Y%m%d_%H%M%S").to_string();
    assert!(before <= stamp && stamp <= after);
}
