//! Verified core of an HTTP SDK for a large-language-model provider.
//!
//! The crate models the request-dispatch pipeline: typed request payloads for
//! the chat-completion, embedding, image, speech and transcription endpoints,
//! a retry-policy evaluator with exponential backoff, an outcome classifier
//! that turns a finished HTTP exchange into a success value or a structured
//! failure, and an observability tap that records every attempt. The network
//! transport itself stays outside; the dispatch loop is driven one step at a
//! time through `dispatch::dispatch_step`, or replayed in full from a list of
//! attempt outcomes through `dispatch::dispatch_with_outcomes`.

pub mod chat_completion;
pub mod create_embedding;
pub mod create_image;
pub mod dispatch;
pub mod http;
pub mod outcome;
pub mod retry;
pub mod speech;
pub mod strutil;
pub mod transcription;
pub mod whisper;
