//! Typed payloads for the image-generation endpoint.

use vstd::prelude::*;

verus! {

/// The image models this SDK knows.
#[derive(Debug, Clone, Copy, PartialEq, Eq, Structural)]
pub enum ImageModel {
    DallE3,
}

impl ImageModel {
    /// The model's wire name.
    pub open spec fn spec_str(self) -> Seq<char> {
        match self {
            ImageModel::DallE3 => "dall-e-3"@,
        }
    }

    /// The model's wire name.
    pub fn as_str(&self) -> (s: &'static str)
        ensures
            s@ == self.spec_str(),
    {
        match self {
            ImageModel::DallE3 => "dall-e-3",
        }
    }
}

/// Rendering quality.
#[derive(Debug, Clone, Copy, PartialEq, Eq, Structural)]
pub enum ImageQuality {
    Standard,
    Hd,
}

/// How the generated image is returned.
#[derive(Debug, Clone, Copy, PartialEq, Eq, Structural)]
pub enum ImageResponseFormat {
    Url,
    B64Json,
}

/// The sizes the model supports.
#[derive(Debug, Clone, Copy, PartialEq, Eq, Structural)]
pub enum ImageSize {
    Large,
    LargeWide,
    LargeTall,
}

impl ImageSize {
    /// The size's wire name.
    pub open spec fn spec_str(self) -> Seq<char> {
        match self {
            ImageSize::Large => "1024x1024"@,
            ImageSize::LargeWide => "1792x1024"@,
            ImageSize::LargeTall => "1024x1792"@,
        }
    }

    /// The size's wire name.
    pub fn as_str(&self) -> (s: &'static str)
        ensures
            s@ == self.spec_str(),
    {
        match self {
            ImageSize::Large => "1024x1024",
            ImageSize::LargeWide => "1792x1024",
            ImageSize::LargeTall => "1024x1792",
        }
    }
}

/// Rendering style.
#[derive(Debug, Clone, Copy, PartialEq, Eq, Structural)]
pub enum ImageStyle {
    Vivid,
    Natural,
}

/// An image-generation request.
#[derive(Debug)]
pub struct CreateImageRequest {
    /// What to draw; at most 4000 characters for the default model.
    pub prompt: String,
    pub model: ImageModel,
    /// How many images to generate; the default model supports only 1.
    pub n: Option<usize>,
    pub quality: Option<ImageQuality>,
    pub response_format: Option<ImageResponseFormat>,
    pub size: Option<ImageSize>,
    pub style: Option<ImageStyle>,
    /// End-user identifier for abuse monitoring.
    pub user: Option<String>,
}

impl CreateImageRequest {
    /// A request for the default model with everything else unset.
    pub fn new(prompt: &str) -> (r: CreateImageRequest)
        ensures
            r.prompt@ == prompt@,
            r.model == ImageModel::DallE3,
            r.n is None,
            r.quality is None,
            r.response_format is None,
            r.size is None,
            r.style is None,
            r.user is None,
    {
        CreateImageRequest {
            prompt: prompt.to_owned(),
            model: ImageModel::DallE3,
            n: None,
            quality: None,
            response_format: None,
            size: None,
            style: None,
            user: None,
        }
    }

    /// The endpoint this request is sent to, under the given base URL.
    pub fn url(base_url: &str) -> (u: String)
        ensures
            u@ == base_url@ + "/images/generations"@,
    {
        String::from_str(base_url).concat("/images/generations")
    }
}

/// One generated image.
#[derive(Debug)]
pub struct ImageObject {
    /// Base64-encoded image, when the request asked for `B64Json`.
    pub b64_json: Option<String>,
    /// URL of the image, when the request asked for `Url` (the default).
    pub url: Option<String>,
    /// The prompt actually used, after any revision.
    pub revised_prompt: String,
}

/// The typed response of the image-generation endpoint.
#[derive(Debug)]
pub struct CreateImageResponse {
    /// Unix timestamp (seconds) of creation.
    pub created: u64,
    pub data: Vec<ImageObject>,
}

} // verus!
