//! The classified failures a call can end in.

use vstd::prelude::*;

verus! {

/// A procedure-level failure reported by the remote service inside a
/// well-formed response envelope.
#[derive(Clone, Debug)]
pub struct RpcError {
    pub code: i64,
    pub message: String,
    pub data: String,
}

/// Mathematical model of an [`RpcError`].
pub struct RpcErrorV {
    pub code: int,
    pub message: Seq<char>,
    pub data: Seq<char>,
}

impl View for RpcError {
    type V = RpcErrorV;

    open spec fn view(&self) -> RpcErrorV {
        RpcErrorV { code: self.code as int, message: self.message@, data: self.data@ }
    }
}

/// Everything a call can fail with, classified by the stage that failed.
#[derive(Clone, Debug)]
pub enum LitRpcError {
    /// The underlying network or channel operation failed; the detail text
    /// comes from the transport.
    TransportError(String),
    /// The response text could not be decoded as structured data.
    SerializationError,
    /// The response decoded but violates the envelope's shape: a required
    /// field is absent or has the wrong type, or the result does not match
    /// the procedure's declared reply shape.
    MalformedResponse,
    /// The response identifier does not match the issued request identifier,
    /// or the envelope carries both of `result`/`error`, or neither.
    InvalidResponse,
    /// The persistent channel's bounded receive budget was exhausted without
    /// a text frame arriving.
    Timeout,
    /// The remote service reported a procedure-level failure.
    RemoteError(RpcError),
}

/// Mathematical model of a [`LitRpcError`].
pub enum ErrV {
    Transport(Seq<char>),
    Serialization,
    Malformed,
    Invalid,
    Timeout,
    Remote(RpcErrorV),
}

impl View for LitRpcError {
    type V = ErrV;

    open spec fn view(&self) -> ErrV {
        match self {
            LitRpcError::TransportError(s) => ErrV::Transport(s@),
            LitRpcError::SerializationError => ErrV::Serialization,
            LitRpcError::MalformedResponse => ErrV::Malformed,
            LitRpcError::InvalidResponse => ErrV::Invalid,
            LitRpcError::Timeout => ErrV::Timeout,
            LitRpcError::RemoteError(e) => ErrV::Remote(e@),
        }
    }
}

impl LitRpcError {
    /// A short human-readable description, in place of a `Display` impl.
    pub fn describe(&self) -> (r: &'static str)
        ensures
            r@ == self.spec_describe(),
    {
        match self {
            LitRpcError::TransportError(_) => "transport failure",
            LitRpcError::SerializationError => "response is not structured data",
            LitRpcError::MalformedResponse => "response envelope is malformed",
            LitRpcError::InvalidResponse => "response does not answer the request",
            LitRpcError::Timeout => "receive budget exhausted",
            LitRpcError::RemoteError(_) => "remote service reported an error",
        }
    }

    pub open spec fn spec_describe(&self) -> Seq<char> {
        match self {
            LitRpcError::TransportError(_) => "transport failure"@,
            LitRpcError::SerializationError => "response is not structured data"@,
            LitRpcError::MalformedResponse => "response envelope is malformed"@,
            LitRpcError::InvalidResponse => "response does not answer the request"@,
            LitRpcError::Timeout => "receive budget exhausted"@,
            LitRpcError::RemoteError(_) => "remote service reported an error"@,
        }
    }
}

} // verus!
