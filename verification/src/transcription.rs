//! Typed payloads for the standalone audio-transcription endpoint.
//!
//! This is the older sibling of the `whisper` module: one endpoint and the
//! same multipart contract (`file`, `model`, `response_format`, optional
//! `language`, `prompt`, `temperature`).

use vstd::prelude::*;
use crate::http::{field_views, FormField};

verus! {

/// The transcript format to produce.
#[derive(Debug, Clone, Copy, PartialEq, Eq, Structural)]
pub enum TranscriptionResponseFormat {
    Json,
    Text,
    Srt,
    VerboseJson,
    Vtt,
}

impl TranscriptionResponseFormat {
    /// The format's wire name.
    pub open spec fn spec_str(self) -> Seq<char> {
        match self {
            TranscriptionResponseFormat::Json => "json"@,
            TranscriptionResponseFormat::Text => "text"@,
            TranscriptionResponseFormat::Srt => "srt"@,
            TranscriptionResponseFormat::VerboseJson => "verbose_json"@,
            TranscriptionResponseFormat::Vtt => "vtt"@,
        }
    }

    /// The format's wire name.
    pub fn as_str(&self) -> (s: &'static str)
        ensures
            s@ == self.spec_str(),
    {
        match self {
            TranscriptionResponseFormat::Json => "json",
            TranscriptionResponseFormat::Text => "text",
            TranscriptionResponseFormat::Srt => "srt",
            TranscriptionResponseFormat::VerboseJson => "verbose_json",
            TranscriptionResponseFormat::Vtt => "vtt",
        }
    }
}

/// The speech-to-text models this SDK knows.
#[derive(Debug, Clone, Copy, PartialEq, Eq, Structural)]
pub enum TranscriptionModel {
    Whisper1,
}

impl TranscriptionModel {
    /// The model's wire name.
    pub open spec fn spec_str(self) -> Seq<char> {
        match self {
            TranscriptionModel::Whisper1 => "whisper-1"@,
        }
    }

    /// The model's wire name.
    pub fn as_str(&self) -> (s: &'static str)
        ensures
            s@ == self.spec_str(),
    {
        match self {
            TranscriptionModel::Whisper1 => "whisper-1",
        }
    }
}

/// The text-to-speech models, as this module's callers knew them.
#[derive(Debug, Clone, Copy, PartialEq, Eq, Structural)]
pub enum SpeechModel {
    Tts1,
    Tts1Hd,
}

/// An audio-transcription request. The sampling `temperature` (0 to 1) is
/// carried as its decimal text, exactly as sent on the wire.
#[derive(Debug)]
pub struct TranscriptionRequest {
    /// The audio bytes (flac, mp3, mp4, mpeg, mpga, m4a, ogg, wav or webm).
    pub file: Vec<u8>,
    pub model: TranscriptionModel,
    /// ISO-639-1 language of the input audio.
    pub language: Option<String>,
    /// Optional text to guide the model's style.
    pub prompt: Option<String>,
    pub response_format: TranscriptionResponseFormat,
    /// Sampling temperature between 0 and 1, as decimal text.
    pub temperature: Option<String>,
}

impl TranscriptionRequest {
    /// A transcription request with the default model and format.
    pub fn new(data: Vec<u8>) -> (r: TranscriptionRequest)
        ensures
            r.file@ == data@,
            r.model == TranscriptionModel::Whisper1,
            r.language is None,
            r.prompt is None,
            r.response_format == TranscriptionResponseFormat::Json,
            r.temperature is None,
    {
        TranscriptionRequest {
            file: data,
            model: TranscriptionModel::Whisper1,
            language: None,
            prompt: None,
            response_format: TranscriptionResponseFormat::Json,
            temperature: None,
        }
    }

    /// The endpoint this request is sent to, under the given base URL.
    pub fn url(base_url: &str) -> (u: String)
        ensures
            u@ == base_url@ + "/audio/transcriptions"@,
    {
        String::from_str(base_url).concat("/audio/transcriptions")
    }

    /// The `language` part, when a language is set.
    pub open spec fn spec_language_fields(self) -> Seq<(Seq<char>, Seq<char>)> {
        match self.language {
            Some(l) => seq![("language"@, l@)],
            None => Seq::empty(),
        }
    }

    /// The `prompt` part, when a prompt is set.
    pub open spec fn spec_prompt_fields(self) -> Seq<(Seq<char>, Seq<char>)> {
        match self.prompt {
            Some(p) => seq![("prompt"@, p@)],
            None => Seq::empty(),
        }
    }

    /// The `temperature` part, when a temperature is set.
    pub open spec fn spec_temperature_fields(self) -> Seq<(Seq<char>, Seq<char>)> {
        match self.temperature {
            Some(t) => seq![("temperature"@, t@)],
            None => Seq::empty(),
        }
    }

    /// The text parts of the multipart form, in order: `model` and
    /// `response_format` always, then `language`, `prompt` and
    /// `temperature` when set.
    pub open spec fn spec_form_fields(self) -> Seq<(Seq<char>, Seq<char>)> {
        seq![
            ("model"@, self.model.spec_str()),
            ("response_format"@, self.response_format.spec_str()),
        ] + self.spec_language_fields() + self.spec_prompt_fields()
            + self.spec_temperature_fields()
    }

    /// Computes the text parts of the multipart form. The audio bytes in
    /// `file` travel as the form's `file` part beside these.
    pub fn form_fields(&self) -> (v: Vec<FormField>)
        ensures
            field_views(v@) == self.spec_form_fields(),
    {
        let mut v: Vec<FormField> = Vec::new();
        v.push(
            FormField {
                name: String::from_str("model"),
                value: String::from_str(self.model.as_str()),
            },
        );
        v.push(
            FormField {
                name: String::from_str("response_format"),
                value: String::from_str(self.response_format.as_str()),
            },
        );
        match &self.language {
            Some(l) => {
                v.push(FormField { name: String::from_str("language"), value: l.clone() });
            },
            None => {},
        }
        match &self.prompt {
            Some(p) => {
                v.push(FormField { name: String::from_str("prompt"), value: p.clone() });
            },
            None => {},
        }
        match &self.temperature {
            Some(t) => {
                v.push(FormField { name: String::from_str("temperature"), value: t.clone() });
            },
            None => {},
        }
        proof {
            assert(field_views(v@) =~~= self.spec_form_fields());
        }
        v
    }
}

/// The typed response of the transcription endpoint.
#[derive(Debug)]
pub struct TranscriptionResponse {
    pub text: String,
}

} // verus!
