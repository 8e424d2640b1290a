//! Typed payloads for the speech-synthesis endpoint.

use vstd::prelude::*;

verus! {

/// The audio container the synthesized speech is returned in.
#[derive(Debug, Clone, Copy, PartialEq, Eq, Structural)]
pub enum SpeechResponseFormat {
    Mp3,
    Opus,
    Aac,
    Flac,
}

/// The text-to-speech models this SDK knows.
#[derive(Debug, Clone, Copy, PartialEq, Eq, Structural)]
pub enum SpeechModel {
    Tts1,
    Tts1Hd,
}

impl SpeechModel {
    /// The model's wire name.
    pub open spec fn spec_str(self) -> Seq<char> {
        match self {
            SpeechModel::Tts1 => "tts-1"@,
            SpeechModel::Tts1Hd => "tts-1-hd"@,
        }
    }

    /// The model's wire name.
    pub fn as_str(&self) -> (s: &'static str)
        ensures
            s@ == self.spec_str(),
    {
        match self {
            SpeechModel::Tts1 => "tts-1",
            SpeechModel::Tts1Hd => "tts-1-hd",
        }
    }
}

/// The voices the provider offers.
#[derive(Debug, Clone, Copy, PartialEq, Eq, Structural)]
pub enum SpeechVoice {
    Alloy,
    Echo,
    Fable,
    Onyx,
    Nova,
    Shimmer,
}

/// A speech-synthesis request. The playback `speed` (0.25 to 4.0) is carried
/// as its decimal text, exactly as sent on the wire.
#[derive(Debug)]
pub struct SpeechRequest {
    pub model: SpeechModel,
    /// The text to voice; at most 4096 characters.
    pub input: String,
    pub voice: SpeechVoice,
    pub response_format: SpeechResponseFormat,
    /// Playback speed between 0.25 and 4.0, as decimal text.
    pub speed: Option<String>,
}

impl SpeechRequest {
    /// A request for the default model, voice and format.
    pub fn new(input: &str) -> (r: SpeechRequest)
        ensures
            r.input@ == input@,
            r.model == SpeechModel::Tts1,
            r.voice == SpeechVoice::Nova,
            r.response_format == SpeechResponseFormat::Mp3,
            r.speed is None,
    {
        SpeechRequest {
            model: SpeechModel::Tts1,
            input: input.to_owned(),
            voice: SpeechVoice::Nova,
            response_format: SpeechResponseFormat::Mp3,
            speed: None,
        }
    }

    /// The endpoint this request is sent to, under the given base URL.
    pub fn url(base_url: &str) -> (u: String)
        ensures
            u@ == base_url@ + "/audio/speech"@,
    {
        String::from_str(base_url).concat("/audio/speech")
    }
}

} // verus!
