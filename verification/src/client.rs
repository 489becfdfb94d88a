//! The two requests to the prediction service: the prediction itself, and
//! the check of an API key.

use vstd::prelude::*;
use vstd::string::StringExecFns;
use crate::effects::{
    is_success,
    status_is_success,
    Effect,
    EffectModel,
    Progress,
    ProgressModel,
    Report,
    ReportModel,
};
use crate::error::{failure, ErrorKind, ErrorModel, PipelineError};
use crate::model::{GenerationResult, ResultModel};
use crate::payload::RequestPayload;

verus! {

/// The endpoint that runs a prediction.
pub open spec fn predictions_url() -> Seq<char> {
    "https://api.replicate.com/v1/models/black-forest-labs/flux-1.1-pro-ultra/predictions"@
}

/// The endpoint that lists the models; any valid key may read it.
pub open spec fn models_url() -> Seq<char> {
    "https://api.replicate.com/v1/models"@
}

/// The header that authorises a request with `api_key`.
pub open spec fn authorization(api_key: Seq<char>) -> (Seq<char>, Seq<char>) {
    ("Authorization"@, "Bearer "@ + api_key)
}

/// The prediction request for `payload` under `api_key`: a POST of the
/// payload as JSON, wrapped under `input`, with bearer authorisation, which
/// tells the service to answer only when the prediction is complete.
pub open spec fn prediction_effect(
    api_key: Seq<char>,
    payload: Map<Seq<char>, Seq<char>>,
) -> EffectModel {
    EffectModel::PostJson {
        url: predictions_url(),
        headers: seq![
            authorization(api_key),
            ("Content-Type"@, "application/json"@),
            ("Prefer"@, "wait"@),
        ],
        wrapper: "input"@,
        payload,
    }
}

/// The request that checks `api_key`: an authorised GET of the model list.
pub open spec fn validation_effect(api_key: Seq<char>) -> EffectModel {
    EffectModel::Get { url: models_url(), headers: seq![authorization(api_key)] }
}

fn authorization_header(api_key: &str) -> (header: (String, String))
    ensures
        header.deep_view() == authorization(api_key@),
{
    let mut value = String::from_str("Bearer ");
    value.append(api_key);
    (String::from_str("Authorization"), value)
}

/// One call of the prediction service: a single request, and the reading of
/// its reply. Nothing is tried twice.
#[derive(Debug, Clone, Copy, PartialEq, Eq, Structural)]
pub enum PredictionClient {
    /// The request is on its way.
    Requesting,
    /// The service reported success; its reply is being decoded.
    Decoding,
    /// The service reported a failure; its reply is being read as text.
    ReadingError,
}

impl View for PredictionClient {
    type V = PredictionClient;

    open spec fn view(&self) -> PredictionClient {
        *self
    }
}

impl PredictionClient {
    /// The answer of the client in state `self` to `report`.
    ///
    /// A request that does not get through is a transport failure. A reply
    /// in 2xx is the result that it decodes to, or a parse failure. Any
    /// other reply is an API failure that carries the reply's text, or
    /// `Unknown error` where the text cannot be read.
    pub open spec fn spec_step(self, report: ReportModel) -> ProgressModel<
        PredictionClient,
        Result<ResultModel, ErrorModel>,
    > {
        match (self, report) {
            (PredictionClient::Requesting, ReportModel::Failed(cause)) => ProgressModel::Finished(
                Err(failure(ErrorKind::Transport, "API request failed: "@, cause)),
            ),
            (PredictionClient::Requesting, ReportModel::Status { code, line }) => if is_success(
                code,
            ) {
                ProgressModel::Continue(PredictionClient::Decoding, EffectModel::DecodeResult)
            } else {
                ProgressModel::Continue(PredictionClient::ReadingError, EffectModel::ReadText)
            },
            (PredictionClient::Decoding, ReportModel::Decoded(result)) => ProgressModel::Finished(
                Ok(result),
            ),
            (PredictionClient::Decoding, ReportModel::Failed(cause)) => ProgressModel::Finished(
                Err(failure(ErrorKind::ResponseParse, "Failed to parse API response: "@, cause)),
            ),
            (PredictionClient::ReadingError, ReportModel::Text(body)) => ProgressModel::Finished(
                Err(failure(ErrorKind::Api, "API error: "@, body)),
            ),
            (PredictionClient::ReadingError, ReportModel::Failed(_)) => ProgressModel::Finished(
                Err(failure(ErrorKind::Api, "API error: "@, "Unknown error"@)),
            ),
            _ => ProgressModel::Rejected(self),
        }
    }

    /// Starts the call: the prediction request for `payload` under
    /// `api_key`.
    pub fn begin(api_key: &str, payload: RequestPayload) -> (start: (PredictionClient, Effect))
        ensures
            start.0 == PredictionClient::Requesting,
            start.1@ == prediction_effect(api_key@, payload@),
    {
        let mut headers: Vec<(String, String)> = Vec::new();
        headers.push(authorization_header(api_key));
        headers.push((String::from_str("Content-Type"), String::from_str("application/json")));
        headers.push((String::from_str("Prefer"), String::from_str("wait")));
        proof {
            assert(headers.deep_view() =~= seq![
                authorization(api_key@),
                ("Content-Type"@, "application/json"@),
                ("Prefer"@, "wait"@),
            ]);
        }
        let effect = Effect::PostJson {
            url: String::from_str(
                "https://api.replicate.com/v1/models/black-forest-labs/flux-1.1-pro-ultra/predictions",
            ),
            headers,
            wrapper: String::from_str("input"),
            payload,
        };
        (PredictionClient::Requesting, effect)
    }

    /// Takes the report of the effect that the client waits for.
    pub fn step(self, report: Report) -> (progress: Progress<
        PredictionClient,
        Result<GenerationResult, PipelineError>,
    >)
        ensures
            progress@ == self.spec_step(report@),
    {
        match (self, report) {
            (PredictionClient::Requesting, Report::Failed(cause)) => Progress::Finished(
                Err(
                    PipelineError::new(
                        ErrorKind::Transport,
                        "API request failed: ",
                        cause.as_str(),
                    ),
                ),
            ),
            (PredictionClient::Requesting, Report::Status { code, line }) => {
                if status_is_success(code) {
                    Progress::Continue(PredictionClient::Decoding, Effect::DecodeResult)
                } else {
                    Progress::Continue(PredictionClient::ReadingError, Effect::ReadText)
                }
            },
            (PredictionClient::Decoding, Report::Decoded(result)) => Progress::Finished(Ok(result)),
            (PredictionClient::Decoding, Report::Failed(cause)) => Progress::Finished(
                Err(
                    PipelineError::new(
                        ErrorKind::ResponseParse,
                        "Failed to parse API response: ",
                        cause.as_str(),
                    ),
                ),
            ),
            (PredictionClient::ReadingError, Report::Text(body)) => Progress::Finished(
                Err(PipelineError::new(ErrorKind::Api, "API error: ", body.as_str())),
            ),
            (PredictionClient::ReadingError, Report::Failed(_)) => Progress::Finished(
                Err(PipelineError::new(ErrorKind::Api, "API error: ", "Unknown error")),
            ),
            (state, _) => Progress::Rejected(state),
        }
    }
}

/// The check of an API key. The key is valid exactly when the service
/// answers the request with a status in 2xx.
#[derive(Debug, Clone, Copy, PartialEq, Eq, Structural)]
pub enum KeyValidation {
    /// Waiting for the service's reply.
    Checking,
}

impl View for KeyValidation {
    type V = KeyValidation;

    open spec fn view(&self) -> KeyValidation {
        *self
    }
}

impl KeyValidation {
    /// The answer of the check to `report`.
    pub open spec fn spec_step(self, report: ReportModel) -> ProgressModel<
        KeyValidation,
        Result<bool, ErrorModel>,
    > {
        match report {
            ReportModel::Status { code, line } => ProgressModel::Finished(Ok(is_success(code))),
            ReportModel::Failed(cause) => ProgressModel::Finished(
                Err(failure(ErrorKind::Transport, "API request failed: "@, cause)),
            ),
            _ => ProgressModel::Rejected(self),
        }
    }

    /// Starts the check of `api_key`.
    pub fn begin(api_key: &str) -> (start: (KeyValidation, Effect))
        ensures
            start.0 == KeyValidation::Checking,
            start.1@ == validation_effect(api_key@),
    {
        let mut headers: Vec<(String, String)> = Vec::new();
        headers.push(authorization_header(api_key));
        proof {
            assert(headers.deep_view() =~= seq![authorization(api_key@)]);
        }
        (
            KeyValidation::Checking,
            Effect::Get { url: String::from_str("https://api.replicate.com/v1/models"), headers },
        )
    }

    /// Takes the report of the request.
    pub fn step(self, report: Report) -> (progress: Progress<
        KeyValidation,
        Result<bool, PipelineError>,
    >)
        ensures
            progress@ == self.spec_step(report@),
    {
        match report {
            Report::Status { code, line } => Progress::Finished(Ok(status_is_success(code))),
            Report::Failed(cause) => Progress::Finished(
                Err(
                    PipelineError::new(
                        ErrorKind::Transport,
                        "API request failed: ",
                        cause.as_str(),
                    ),
                ),
            ),
            _ => Progress::Rejected(self),
        }
    }
}

} // verus!
