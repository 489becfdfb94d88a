use imagegen_pipeline::effects::{Effect, Progress, Record, Report};
use imagegen_pipeline::error::{ErrorKind, PipelineError};
use imagegen_pipeline::model::{GenerationRequest, GenerationResult};
use imagegen_pipeline::orchestrator::{Orchestrator, Outcome};
use imagegen_pipeline::payload::build_payload;

const STAMP: &str = "20240501_101500";

fn request() -> GenerationRequest {
    GenerationRequest {
        prompt: "a red fox".to_string(),
        aspect_ratio: "3:2".to_string(),
        image_prompt: Some(String::new()),
        image_prompt_strength: None,
        safety_tolerance: Some(2),
        seed: Some(-1),
        raw: Some(false),
        output_format: Some("webp".to_string()),
    }
}

fn result() -> GenerationResult {
    GenerationResult {
        id: "p-123".to_string(),
        output: Some(vec!["https://cdn.example.com/a.webp".to_string()]),
        status: "succeeded".to_string(),
        error: None,
        created_at: Some("2024-05-01T10:00:00Z".to_string()),
        started_at: Some("2024-05-01T10:00:01Z".to_string()),
        completed_at: Some("2024-05-01T10:00:09Z".to_string()),
    }
}

fn status(code: u16, line: &str) -> Report {
    Report::Status { code, line: line.to_string() }
}

fn path(names: &[&str]) -> Vec<String> {
    names.iter().map(|n| n.to_string()).collect()
}

fn writes_to_disk(effect: &Effect) -> bool {
    matches!(
        effect,
        Effect::CreateDirAll { .. } | Effect::WriteRecord { .. } | Effect::WriteBytes { .. }
    )
}

/// Runs a generation on `reports`, the i-th at the time `times[i]`.
fn generate_at(reports: Vec<Report>, times: &[&str]) -> (Vec<Effect>, Option<Outcome>) {
    let (mut state, first) = Orchestrator::begin("r8_key", request());
    let mut asked = vec![first];
    for (i, report) in reports.into_iter().enumerate() {
        match state.step_at(report, times[i]) {
            Progress::Continue(next, effect) => {
                state = next;
                asked.push(effect);
            },
            Progress::Finished(outcome) => return (asked, Some(outcome)),
            Progress::Rejected(same) => state = same,
        }
    }
    (asked, None)
}

fn generate(reports: Vec<Report>) -> (Vec<Effect>, Option<Outcome>) {
    let times = vec![STAMP; reports.len()];
    generate_at(reports, &times)
}

fn archived() -> Vec<Report> {
    vec![
        status(200, "200 OK"),
        Report::Decoded(result()),
        Report::Done,
        Report::Exists(true),
        Report::Done,
        Report::Done,
        Report::Done,
    ]
}

#[test]
fn generation_starts_with_the_prediction_request() {
    let (state, effect) = Orchestrator::begin("r8_key", request());
    assert!(matches!(state, Orchestrator::Predicting { .. }));
    match effect {
        Effect::PostJson { url, headers, wrapper, payload } => {
            assert!(url.ends_with("/flux-1.1-pro-ultra/predictions"));
            assert_eq!(headers[0], ("Authorization".to_string(), "Bearer r8_key".to_string()));
            assert_eq!(headers.len(), 3);
            assert_eq!(wrapper, "input");
            assert_eq!(payload, build_payload(&request()));
            assert_eq!(payload.get("image_prompt"), None);
            assert_eq!(payload.get("seed"), Some(&"-1".to_string()));
        },
        other => panic!("unexpected effect {:?}", other),
    }
}

#[test]
fn successful_generation_returns_the_decoded_result() {
    let mut reports = archived();
    reports.extend(vec![status(200, "200 OK"), Report::Done, Report::Done]);
    let (asked, outcome) = generate(reports);
    assert_eq!(outcome, Some(Outcome { result: Ok(result()), diagnostic: None }));
    assert_eq!(asked.len(), 10);
    assert_eq!(asked[1], Effect::DecodeResult);
    assert_eq!(
        asked[9],
        Effect::WriteBytes { path: path(&["generations", STAMP, "image.webp"]) }
    );
}

#[test]
fn api_failure_returns_the_body_and_writes_nothing() {
    let (asked, outcome) = generate(vec![
        status(402, "402 Payment Required"),
        Report::Text("{\"detail\":\"no credit\"}".to_string()),
    ]);
    assert_eq!(
        outcome,
        Some(Outcome {
            result: Err(PipelineError {
                kind: ErrorKind::Api,
                message: "API error: {\"detail\":\"no credit\"}".to_string(),
            }),
            diagnostic: None,
        })
    );
    assert_eq!(asked.len(), 2);
    assert_eq!(asked[1], Effect::ReadText);
    assert!(!asked.iter().any(writes_to_disk));
}

#[test]
fn transport_failure_ends_the_generation_at_once() {
    let (asked, outcome) = generate(vec![Report::Failed("tls handshake".to_string())]);
    assert_eq!(
        outcome,
        Some(Outcome {
            result: Err(PipelineError {
                kind: ErrorKind::Transport,
                message: "API request failed: tls handshake".to_string(),
            }),
            diagnostic: None,
        })
    );
    assert_eq!(asked.len(), 1);
}

#[test]
fn parse_failure_ends_the_generation_without_archival() {
    let (asked, outcome) =
        generate(vec![status(200, "200 OK"), Report::Failed("expected value".to_string())]);
    assert_eq!(
        outcome,
        Some(Outcome {
            result: Err(PipelineError {
                kind: ErrorKind::ResponseParse,
                message: "Failed to parse API response: expected value".to_string(),
            }),
            diagnostic: None,
        })
    );
    assert!(!asked.iter().any(writes_to_disk));
}

#[test]
fn unreachable_asset_still_returns_the_result() {
    let mut reports = archived();
    reports.push(Report::Failed("connection refused".to_string()));
    let (asked, outcome) = generate(reports);
    assert_eq!(
        outcome,
        Some(Outcome {
            result: Ok(result()),
            diagnostic: Some(
                "Error saving generation: Failed to download image: connection refused".to_string()
            ),
        })
    );
    assert_eq!(
        asked[5],
        Effect::WriteRecord {
            record: Record::Response,
            path: path(&["generations", STAMP, "response.json"]),
        }
    );
    assert_eq!(
        asked[6],
        Effect::WriteRecord {
            record: Record::Input,
            path: path(&["generations", STAMP, "input.json"]),
        }
    );
    assert_eq!(
        asked[7],
        Effect::Get { url: "https://cdn.example.com/a.webp".to_string(), headers: vec![] }
    );
    assert!(!asked.iter().any(|e| matches!(e, Effect::WriteBytes { .. })));
}

#[test]
fn asset_with_failure_status_still_returns_the_result() {
    let mut reports = archived();
    reports.push(status(403, "403 Forbidden"));
    let (_, outcome) = generate(reports);
    assert_eq!(
        outcome,
        Some(Outcome {
            result: Ok(result()),
            diagnostic: Some(
                "Error saving generation: Failed to download image, status: 403 Forbidden"
                    .to_string()
            ),
        })
    );
}

#[test]
fn failed_archival_still_returns_the_result() {
    let (asked, outcome) = generate(vec![
        status(200, "200 OK"),
        Report::Decoded(result()),
        Report::Done,
        Report::Exists(false),
        Report::Failed("permission denied".to_string()),
    ]);
    assert_eq!(
        outcome,
        Some(Outcome {
            result: Ok(result()),
            diagnostic: Some(
                "Error saving generation: Failed to create generations directory: permission denied"
                    .to_string()
            ),
        })
    );
    assert_eq!(asked.len(), 5);
}

#[test]
fn same_second_gives_the_same_directory() {
    let first = generate(archived()).0;
    let second = generate(archived()).0;
    assert_eq!(first[4], Effect::CreateDirAll { path: path(&["generations", STAMP]) });
    assert_eq!(first[4], second[4]);
    assert_eq!(first[5], second[5]);
    assert_eq!(first[6], second[6]);
}

#[test]
fn directory_takes_the_time_at_which_the_root_is_known() {
    let times = ["t0", "t1", "t2", "20231231_235959", "t4", "t5", "t6"];
    let (asked, _) = generate_at(archived(), &times);
    assert_eq!(asked[4], Effect::CreateDirAll { path: path(&["generations", "20231231_235959"]) });
    assert_eq!(
        asked[6],
        Effect::WriteRecord {
            record: Record::Input,
            path: path(&["generations", "20231231_235959", "input.json"]),
        }
    );
}

#[test]
fn orchestrator_hands_back_a_report_it_does_not_wait_for() {
    let (state, _) = Orchestrator::begin("r8_key", request());
    assert!(!state.reads_clock(&Report::Exists(true)));
    match state.step(Report::Exists(true)) {
        Progress::Rejected(same) => assert!(matches!(same, Orchestrator::Predicting { .. })),
        other => panic!("unexpected {:?}", other),
    }
}

#[test]
fn orchestrator_reads_the_clock_for_the_directory() {
    let (mut state, _) = Orchestrator::begin("r8_key", request());
    let mut created = Vec::new();
    for report in archived() {
        let reads = state.reads_clock(&report);
        assert_eq!(reads, report == Report::Exists(true));
        match state.step(report) {
            Progress::Continue(next, effect) => {
                state = next;
                if let Effect::CreateDirAll { path } = effect {
                    created.push(path);
                }
            },
            other => panic!("unexpected {:?}", other),
        }
    }
    assert_eq!(created.len(), 1);
    assert_eq!(created[0][0], "generations");
    assert_eq!(created[0][1].len(), 15);
    assert_eq!(created[0][1].as_bytes()[8], b'_');
}
