//! The two records of a generation: what was asked for and what came back.

use vstd::prelude::*;
use vstd::string::StringExecFns;

verus! {

/// The parameters of one image generation. Only `prompt` and `aspect_ratio`
/// are required; every other field may be absent.
#[derive(Debug, Clone, PartialEq, Eq)]
pub struct GenerationRequest {
    pub prompt: String,
    pub aspect_ratio: String,
    /// A prompt given as an image; an empty text counts as absent.
    pub image_prompt: Option<String>,
    /// The strength of the image prompt, as the decimal text of the caller's
    /// number.
    pub image_prompt_strength: Option<String>,
    pub safety_tolerance: Option<i32>,
    pub seed: Option<i32>,
    pub raw: Option<bool>,
    /// File format of the generated image; the service's default when absent.
    pub output_format: Option<String>,
}

/// What a [`GenerationRequest`] holds, as mathematical values.
pub struct RequestModel {
    pub prompt: Seq<char>,
    pub aspect_ratio: Seq<char>,
    pub image_prompt: Option<Seq<char>>,
    pub image_prompt_strength: Option<Seq<char>>,
    pub safety_tolerance: Option<int>,
    pub seed: Option<int>,
    pub raw: Option<bool>,
    pub output_format: Option<Seq<char>>,
}

/// An optional 32-bit integer as an optional mathematical integer.
pub open spec fn opt_int(v: Option<i32>) -> Option<int> {
    match v {
        Some(n) => Some(n as int),
        None => None,
    }
}

impl View for GenerationRequest {
    type V = RequestModel;

    open spec fn view(&self) -> RequestModel {
        RequestModel {
            prompt: self.prompt@,
            aspect_ratio: self.aspect_ratio@,
            image_prompt: self.image_prompt.deep_view(),
            image_prompt_strength: self.image_prompt_strength.deep_view(),
            safety_tolerance: opt_int(self.safety_tolerance),
            seed: opt_int(self.seed),
            raw: self.raw,
            output_format: self.output_format.deep_view(),
        }
    }
}

/// The extension of the image file of a request whose output format is
/// `output_format`: the format itself, or `jpeg` when none was asked for.
pub open spec fn extension_of(output_format: Option<Seq<char>>) -> Seq<char> {
    match output_format {
        Some(format) => format,
        None => "jpeg"@,
    }
}

impl GenerationRequest {
    /// The extension under which the generated image is stored locally.
    /// The default applies to the file's name only; it is never sent to the
    /// service.
    pub fn image_extension(&self) -> (ext: String)
        ensures
            ext@ == extension_of(self@.output_format),
    {
        match &self.output_format {
            Some(format) => format.clone(),
            None => String::from_str("jpeg"),
        }
    }
}

/// The prediction that the service reports: an opaque id, a state, and once
/// the prediction has produced something, the URLs of its assets.
#[derive(Debug, Clone, PartialEq, Eq)]
pub struct GenerationResult {
    pub id: String,
    /// URLs of the generated assets; the first is the primary one.
    pub output: Option<Vec<String>>,
    pub status: String,
    pub error: Option<String>,
    pub created_at: Option<String>,
    pub started_at: Option<String>,
    pub completed_at: Option<String>,
}

/// What a [`GenerationResult`] holds, as mathematical values.
pub struct ResultModel {
    pub id: Seq<char>,
    pub output: Option<Seq<Seq<char>>>,
    pub status: Seq<char>,
    pub error: Option<Seq<char>>,
    pub created_at: Option<Seq<char>>,
    pub started_at: Option<Seq<char>>,
    pub completed_at: Option<Seq<char>>,
}

impl View for GenerationResult {
    type V = ResultModel;

    open spec fn view(&self) -> ResultModel {
        ResultModel {
            id: self.id@,
            output: self.output.deep_view(),
            status: self.status@,
            error: self.error.deep_view(),
            created_at: self.created_at.deep_view(),
            started_at: self.started_at.deep_view(),
            completed_at: self.completed_at.deep_view(),
        }
    }
}

/// The URL of the primary asset: the first of the output, where there is one.
pub open spec fn primary_asset_of(output: Option<Seq<Seq<char>>>) -> Option<Seq<char>> {
    match output {
        Some(urls) => if urls.len() > 0 {
            Some(urls[0])
        } else {
            None
        },
        None => None,
    }
}

impl GenerationResult {
    /// The URL of the asset to download, if the prediction produced any.
    pub fn primary_asset(&self) -> (url: Option<String>)
        ensures
            url.deep_view() == primary_asset_of(self@.output),
    {
        match &self.output {
            Some(urls) => {
                if urls.len() > 0 {
                    Some(urls[0].clone())
                } else {
                    None
                }
            },
            None => None,
        }
    }
}

} // verus!
