//! Typed payloads for the audio transcription and translation endpoints.
//!
//! These requests travel as multipart forms. The part naming (`file`,
//! `model`, `response_format`, optional `language`, `prompt`, `temperature`)
//! is a fixed contract with the provider and is pinned down here:
//! `form_fields` computes exactly the text parts the form must carry, and
//! the audio bytes travel as the `file` part beside them.

use vstd::prelude::*;
use crate::http::{field_views, FormField};

verus! {

/// Which endpoint the request goes to.
#[derive(Debug, Clone, Copy, PartialEq, Eq, Structural)]
pub enum WhisperRequestType {
    Transcription,
    Translation,
}

/// The transcript format to produce.
#[derive(Debug, Clone, Copy, PartialEq, Eq, Structural)]
pub enum WhisperResponseFormat {
    Json,
    Text,
    Srt,
    VerboseJson,
    Vtt,
}

impl WhisperResponseFormat {
    /// The format's wire name.
    pub open spec fn spec_str(self) -> Seq<char> {
        match self {
            WhisperResponseFormat::Json => "json"@,
            WhisperResponseFormat::Text => "text"@,
            WhisperResponseFormat::Srt => "srt"@,
            WhisperResponseFormat::VerboseJson => "verbose_json"@,
            WhisperResponseFormat::Vtt => "vtt"@,
        }
    }

    /// The format's wire name.
    pub fn as_str(&self) -> (s: &'static str)
        ensures
            s@ == self.spec_str(),
    {
        match self {
            WhisperResponseFormat::Json => "json",
            WhisperResponseFormat::Text => "text",
            WhisperResponseFormat::Srt => "srt",
            WhisperResponseFormat::VerboseJson => "verbose_json",
            WhisperResponseFormat::Vtt => "vtt",
        }
    }
}

/// The speech-to-text models this SDK knows.
#[derive(Debug, Clone, Copy, PartialEq, Eq, Structural)]
pub enum WhisperModel {
    Whisper1,
}

impl WhisperModel {
    /// The model's wire name.
    pub open spec fn spec_str(self) -> Seq<char> {
        match self {
            WhisperModel::Whisper1 => "whisper-1"@,
        }
    }

    /// The model's wire name.
    pub fn as_str(&self) -> (s: &'static str)
        ensures
            s@ == self.spec_str(),
    {
        match self {
            WhisperModel::Whisper1 => "whisper-1",
        }
    }
}

/// The text-to-speech models, as this module's callers knew them.
#[derive(Debug, Clone, Copy, PartialEq, Eq, Structural)]
pub enum SpeechModel {
    Tts1,
    Tts1Hd,
}

/// An audio transcription or translation request. The sampling
/// `temperature` (0 to 1) is carried as its decimal text, exactly as sent
/// on the wire.
#[derive(Debug)]
pub struct WhisperRequest {
    /// The audio bytes (flac, mp3, mp4, mpeg, mpga, m4a, ogg, wav or webm).
    pub file: Vec<u8>,
    pub model: WhisperModel,
    /// ISO-639-1 language of the input audio; only transcription sends it.
    pub language: Option<String>,
    /// Optional text to guide the model's style.
    pub prompt: Option<String>,
    pub response_format: WhisperResponseFormat,
    /// Sampling temperature between 0 and 1, as decimal text.
    pub temperature: Option<String>,
    pub request_type: WhisperRequestType,
}

impl WhisperRequest {
    /// A transcription request with the default model and format.
    pub fn transcription(data: Vec<u8>) -> (r: WhisperRequest)
        ensures
            r.file@ == data@,
            r.model == WhisperModel::Whisper1,
            r.language is None,
            r.prompt is None,
            r.response_format == WhisperResponseFormat::Json,
            r.temperature is None,
            r.request_type == WhisperRequestType::Transcription,
    {
        WhisperRequest {
            file: data,
            model: WhisperModel::Whisper1,
            language: None,
            prompt: None,
            response_format: WhisperResponseFormat::Json,
            temperature: None,
            request_type: WhisperRequestType::Transcription,
        }
    }

    /// A translation request with the default model and format.
    pub fn translation(data: Vec<u8>) -> (r: WhisperRequest)
        ensures
            r.file@ == data@,
            r.model == WhisperModel::Whisper1,
            r.language is None,
            r.prompt is None,
            r.response_format == WhisperResponseFormat::Json,
            r.temperature is None,
            r.request_type == WhisperRequestType::Translation,
    {
        WhisperRequest {
            file: data,
            model: WhisperModel::Whisper1,
            language: None,
            prompt: None,
            response_format: WhisperResponseFormat::Json,
            temperature: None,
            request_type: WhisperRequestType::Translation,
        }
    }

    /// Whether the response will be a JSON document (and should be decoded
    /// as one) rather than plain text.
    pub fn is_json(&self) -> (r: bool)
        ensures
            r == (self.response_format == WhisperResponseFormat::Json),
    {
        self.response_format == WhisperResponseFormat::Json
    }

    /// The endpoint this request is sent to, under the given base URL.
    pub fn url(&self, base_url: &str) -> (u: String)
        ensures
            self.request_type == WhisperRequestType::Transcription ==> u@ == base_url@
                + "/audio/transcriptions"@,
            self.request_type == WhisperRequestType::Translation ==> u@ == base_url@
                + "/audio/translations"@,
    {
        match self.request_type {
            WhisperRequestType::Transcription => String::from_str(base_url).concat(
                "/audio/transcriptions",
            ),
            WhisperRequestType::Translation => String::from_str(base_url).concat(
                "/audio/translations",
            ),
        }
    }

    /// The `language` part: sent only when one is set and the request is a
    /// transcription (translation always produces English).
    pub open spec fn spec_language_fields(self) -> Seq<(Seq<char>, Seq<char>)> {
        match self.language {
            Some(l) => if self.request_type == WhisperRequestType::Transcription {
                seq![("language"@, l@)]
            } else {
                Seq::empty()
            },
            None => Seq::empty(),
        }
    }

    /// The `prompt` part, when a prompt is set.
    pub open spec fn spec_prompt_fields(self) -> Seq<(Seq<char>, Seq<char>)> {
        match self.prompt {
            Some(p) => seq![("prompt"@, p@)],
            None => Seq::empty(),
        }
    }

    /// The `temperature` part, when a temperature is set.
    pub open spec fn spec_temperature_fields(self) -> Seq<(Seq<char>, Seq<char>)> {
        match self.temperature {
            Some(t) => seq![("temperature"@, t@)],
            None => Seq::empty(),
        }
    }

    /// The text parts of the multipart form, in order: `model` and
    /// `response_format` always, then `language` (transcription only),
    /// `prompt` and `temperature` when set.
    pub open spec fn spec_form_fields(self) -> Seq<(Seq<char>, Seq<char>)> {
        seq![
            ("model"@, self.model.spec_str()),
            ("response_format"@, self.response_format.spec_str()),
        ] + self.spec_language_fields() + self.spec_prompt_fields()
            + self.spec_temperature_fields()
    }

    /// Computes the text parts of the multipart form. The audio bytes in
    /// `file` travel as the form's `file` part beside these.
    pub fn form_fields(&self) -> (v: Vec<FormField>)
        ensures
            field_views(v@) == self.spec_form_fields(),
    {
        let mut v: Vec<FormField> = Vec::new();
        v.push(
            FormField {
                name: String::from_str("model"),
                value: String::from_str(self.model.as_str()),
            },
        );
        v.push(
            FormField {
                name: String::from_str("response_format"),
                value: String::from_str(self.response_format.as_str()),
            },
        );
        match &self.language {
            Some(l) => {
                match self.request_type {
                    WhisperRequestType::Transcription => {
                        v.push(
                            FormField { name: String::from_str("language"), value: l.clone() },
                        );
                    },
                    WhisperRequestType::Translation => {},
                }
            },
            None => {},
        }
        match &self.prompt {
            Some(p) => {
                v.push(FormField { name: String::from_str("prompt"), value: p.clone() });
            },
            None => {},
        }
        match &self.temperature {
            Some(t) => {
                v.push(FormField { name: String::from_str("temperature"), value: t.clone() });
            },
            None => {},
        }
        proof {
            assert(field_views(v@) =~~= self.spec_form_fields());
        }
        v
    }
}

/// The typed response of both audio endpoints.
#[derive(Debug)]
pub struct WhisperResponse {
    pub text: String,
}

} // verus!
