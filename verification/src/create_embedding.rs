//! Typed payloads for the embedding endpoint.

use vstd::prelude::*;

verus! {

/// Input text to embed: one string, or several in one request.
#[derive(Debug)]
pub enum EmbeddingInput {
    Text(String),
    TextArray(Vec<String>),
}

impl From<String> for EmbeddingInput {
    fn from(value: String) -> (r: EmbeddingInput) {
        EmbeddingInput::Text(value)
    }
}

impl vstd::std_specs::convert::FromSpecImpl<String> for EmbeddingInput {
    open spec fn obeys_from_spec() -> bool {
        true
    }

    open spec fn from_spec(value: String) -> EmbeddingInput {
        EmbeddingInput::Text(value)
    }
}

impl From<&str> for EmbeddingInput {
    fn from(value: &str) -> (r: EmbeddingInput)
        ensures
            r matches EmbeddingInput::Text(s) && s@ == value@,
    {
        EmbeddingInput::Text(value.to_owned())
    }
}

impl vstd::std_specs::convert::FromSpecImpl<&str> for EmbeddingInput {
    open spec fn obeys_from_spec() -> bool {
        // A borrowed string has no owned counterpart at the spec level, so
        // the conversion is pinned by the `ensures` on `from` instead.
        false
    }

    open spec fn from_spec(value: &str) -> EmbeddingInput {
        arbitrary()
    }
}

impl From<Vec<String>> for EmbeddingInput {
    fn from(value: Vec<String>) -> (r: EmbeddingInput) {
        EmbeddingInput::TextArray(value)
    }
}

impl vstd::std_specs::convert::FromSpecImpl<Vec<String>> for EmbeddingInput {
    open spec fn obeys_from_spec() -> bool {
        true
    }

    open spec fn from_spec(value: Vec<String>) -> EmbeddingInput {
        EmbeddingInput::TextArray(value)
    }
}

/// An owned copy of a borrowed list of strings.
fn clone_strings(value: &[String]) -> (r: Vec<String>)
    ensures
        r@ == value@,
{
    let mut r: Vec<String> = Vec::new();
    let n = value.len();
    let mut i: usize = 0;
    while i < n
        invariant
            i <= n,
            n == value@.len(),
            r@ == value@.subrange(0, i as int),
        decreases n - i,
    {
        r.push(value[i].clone());
        proof {
            assert(r@ =~= value@.subrange(0, i + 1));
        }
        i += 1;
    }
    proof {
        assert(r@ =~= value@);
    }
    r
}

impl From<&[String]> for EmbeddingInput {
    fn from(value: &[String]) -> (r: EmbeddingInput)
        ensures
            r matches EmbeddingInput::TextArray(v) && v@ == value@,
    {
        EmbeddingInput::TextArray(clone_strings(value))
    }
}

impl vstd::std_specs::convert::FromSpecImpl<&[String]> for EmbeddingInput {
    open spec fn obeys_from_spec() -> bool {
        // A borrowed slice has no owned counterpart at the spec level, so
        // the conversion is pinned by the `ensures` on `from` instead.
        false
    }

    open spec fn from_spec(value: &[String]) -> EmbeddingInput {
        arbitrary()
    }
}

/// How the embedding vector is returned.
#[derive(Debug, Clone, Copy, PartialEq, Eq, Structural)]
pub enum EmbeddingEncodingFormat {
    Float,
    Base64,
}

/// The embedding models this SDK knows.
#[derive(Debug, Clone, Copy, PartialEq, Eq, Structural)]
pub enum EmbeddingModel {
    TextEmbeddingAda002,
    TextEmbeddingAda002V2,
}

impl EmbeddingModel {
    /// The model's wire name.
    pub open spec fn spec_str(self) -> Seq<char> {
        match self {
            EmbeddingModel::TextEmbeddingAda002 => "text-embedding-ada-002"@,
            EmbeddingModel::TextEmbeddingAda002V2 => "text-embedding-ada-002-v2"@,
        }
    }

    /// The model's wire name.
    pub fn as_str(&self) -> (s: &'static str)
        ensures
            s@ == self.spec_str(),
    {
        match self {
            EmbeddingModel::TextEmbeddingAda002 => "text-embedding-ada-002",
            EmbeddingModel::TextEmbeddingAda002V2 => "text-embedding-ada-002-v2",
        }
    }
}

/// An embedding request.
#[derive(Debug)]
pub struct CreateEmbeddingRequest {
    pub input: EmbeddingInput,
    pub model: EmbeddingModel,
    pub encoding_format: Option<EmbeddingEncodingFormat>,
    /// End-user identifier for abuse monitoring.
    pub user: Option<String>,
}

impl CreateEmbeddingRequest {
    /// A request for the default model with everything else unset.
    pub fn new(input: EmbeddingInput) -> (r: CreateEmbeddingRequest)
        ensures
            r.input == input,
            r.model == EmbeddingModel::TextEmbeddingAda002,
            r.encoding_format is None,
            r.user is None,
    {
        CreateEmbeddingRequest {
            input,
            model: EmbeddingModel::TextEmbeddingAda002,
            encoding_format: None,
            user: None,
        }
    }

    /// The endpoint this request is sent to, under the given base URL.
    pub fn url(base_url: &str) -> (u: String)
        ensures
            u@ == base_url@ + "/embeddings"@,
    {
        String::from_str(base_url).concat("/embeddings")
    }
}

/// What kind of object a response part is.
#[derive(Debug, Clone, Copy, PartialEq, Eq, Structural)]
pub enum EmbeddingObject {
    Embedding,
    List,
}

/// Token usage of one embedding request.
#[derive(Debug, Clone, Copy, PartialEq, Eq, Structural)]
pub struct EmbeddingUsage {
    pub prompt_tokens: usize,
    pub total_tokens: usize,
}

/// One embedding of the response. The vector itself is floating-point data
/// and stays outside the verified core; here only its position is kept.
#[derive(Debug)]
pub struct Embedding {
    /// The index of the embedding in the list of embeddings.
    pub index: usize,
    /// How many components the embedding vector has.
    pub embedding_len: usize,
    /// Always `Embedding`.
    pub object: EmbeddingObject,
}

/// The typed response of the embedding endpoint.
#[derive(Debug)]
pub struct CreateEmbeddingResponse {
    pub object: EmbeddingObject,
    pub data: Vec<Embedding>,
    pub model: EmbeddingModel,
    pub usage: EmbeddingUsage,
}

} // verus!
