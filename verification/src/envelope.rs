//! The gateway envelope: the one shape every response is wrapped in,
//! success or failure, together with the per-request correlation id it
//! must always carry.

use vstd::prelude::*;

use crate::GatewayError;
use crate::embed::EmbeddingVector;

verus! {

/// The uniform response envelope. `success` is false exactly when an
/// error is reported; a payload and an error never travel together; the
/// correlation id is never empty.
pub struct GatewayResponse<T> {
    pub success: bool,
    pub data: Option<T>,
    pub embed: Option<EmbeddingVector>,
    pub error: Option<String>,
    pub request_id: String,
}

impl<T> GatewayResponse<T> {
    /// The envelope's invariant: `success` iff no error is set, `data`
    /// and `error` mutually exclusive, and a non-empty request id.
    pub open spec fn wf(self) -> bool {
        &&& self.success <==> self.error is None
        &&& !(self.data is Some && self.error is Some)
        &&& self.request_id@.len() > 0
    }

    /// Wrap a successful payload (possibly empty, for "no match") in the
    /// envelope.
    pub fn success(data: Option<T>, embed: Option<EmbeddingVector>, request_id: String) -> (r:
        GatewayResponse<T>)
        requires
            request_id@.len() > 0,
        ensures
            r.wf(),
            r.success,
            r.data == data,
            r.embed == embed,
            r.error is None,
            r.request_id == request_id,
    {
        GatewayResponse { success: true, data, embed, error: None, request_id }
    }

    /// Wrap an error kind in the envelope, carrying its fixed message.
    pub fn failure(kind: GatewayError, request_id: String) -> (r: GatewayResponse<T>)
        requires
            request_id@.len() > 0,
        ensures
            r.wf(),
            !r.success,
            r.data is None,
            r.embed is None,
            r.error matches Some(m) && m@ == kind.spec_message(),
            r.request_id == request_id,
    {
        GatewayResponse {
            success: false,
            data: None,
            embed: None,
            error: Some(kind.message()),
            request_id,
        }
    }
}

/// Relies on uuid::Uuid::new_v4 and the hyphenated form its Display
/// implementation renders: a fresh random UUID as 36 characters.
#[verifier::external_body]
fn fresh_uuid_string() -> (r: String)
    ensures
        r@.len() == 36,
{
    uuid::Uuid::new_v4().to_string()
}

/// A fresh correlation id for one inbound request: never empty.
pub fn new_request_id() -> (r: String)
    ensures
        r@.len() > 0,
{
    fresh_uuid_string()
}

} // verus!
