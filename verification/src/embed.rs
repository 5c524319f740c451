//! The embedding client adapter: input validation for the external
//! text-to-vector call, the adapter's fixed configuration, and the
//! gateway's representation of an embedding vector.

use vstd::prelude::*;

use crate::GatewayError;
use crate::text::{trim_spec, trim_str};

verus! {

/// The adapter's fixed configuration: the embedding model identifier and
/// the vector dimensionality are configuration, not caller input.
#[derive(Debug, Clone)]
pub struct EmbedConfig {
    pub model: String,
    pub dimensions: usize,
}

impl EmbedConfig {
    pub open spec fn wf(self) -> bool {
        self.dimensions > 0
    }

    /// The adapter's fixed default: the small text-embedding model with
    /// 1536 dimensions.
    pub fn text_embedding_small() -> (c: EmbedConfig)
        ensures
            c.wf(),
            c.model@ == "text-embedding-3-small"@,
            c.dimensions == 1536,
    {
        EmbedConfig { model: String::from_str("text-embedding-3-small"), dimensions: 1536 }
    }
}

/// An embedding vector, component by component, each held as the bit
/// pattern of one IEEE 754 single-precision number. The gateway never
/// inspects the components; it produces the vector once per search
/// request and hands it to the similarity operator unchanged.
#[derive(Debug, Clone)]
pub struct EmbeddingVector {
    pub bits: Vec<u32>,
}

/// What came back from the external embedding provider: a vector, or a
/// failure (timeout, non-success reply, malformed payload).
#[derive(Debug)]
pub enum EmbedOutcome {
    Produced(EmbeddingVector),
    Failed,
}

/// Validate the text to embed before any external call: trim leading and
/// trailing whitespace, and reject input that is blank after trimming
/// with `EmptyInput`. On success the trimmed text is returned.
pub fn prepare_embed_input(text: &str) -> (r: Result<String, GatewayError>)
    ensures
        match r {
            Ok(t) => t@ == trim_spec(text@) && trim_spec(text@).len() > 0,
            Err(e) => e == GatewayError::EmptyInput && trim_spec(text@).len() == 0,
        },
{
    let t = trim_str(text);
    if t.unicode_len() == 0 {
        Err(GatewayError::EmptyInput)
    } else {
        Ok(t.to_owned())
    }
}

} // verus!
