//! The uniform success/error envelope returned to every caller.
//!
//! Every dispatched command ends in [`IpcResponse::from_result`], so a caller
//! always receives a structurally valid envelope: exactly one of a success
//! payload or an opaque error message, never both and never neither, with a
//! status that agrees with the populated branch.
use vstd::prelude::*;

use crate::error::AppError;

verus! {

/// An error message for inter-process communication.
pub struct IpcError {
    pub message: String,
}

/// A simple success result, containing only the data payload.
pub struct IpcSimpleResult<D> {
    pub data: D,
}

/// The status of a response.
pub enum IpcStatus {
    Success,
    Error,
}

/// The body of a response: either a success result or an error descriptor.
/// Being an enum, it holds exactly one of the two by construction.
pub enum Response<D> {
    Success { result: IpcSimpleResult<D> },
    Error { error: IpcError },
}

/// A response envelope: a status together with the matching body.
pub struct IpcResponse<D> {
    pub status: IpcStatus,
    pub response: Response<D>,
}

impl<D> IpcResponse<D> {
    /// A well-formed envelope's status agrees with its populated branch.
    pub open spec fn wf(&self) -> bool {
        match self.response {
            Response::Success { .. } => self.status is Success,
            Response::Error { .. } => self.status is Error,
        }
    }

    /// What `from_result` guarantees of its output for a given input: the
    /// status, the populated branch, and the payload or message are all
    /// pinned down by the result alone.
    pub open spec fn is_envelope_of(&self, res: Result<D, AppError>) -> bool {
        &&& self.wf()
        &&& (self.status is Success <==> res is Ok)
        &&& (res matches Ok(data) ==> self.response matches Response::Success { result }
            && result.data == data)
        &&& (res matches Err(err) ==> self.response matches Response::Error { error }
            && error.message@ == err.message_spec())
    }

    /// Converts a result into an envelope.
    ///
    /// This conversion is total and pure: an `Ok` becomes a success envelope
    /// holding the data as its sole payload, an `Err` becomes an error
    /// envelope holding the rendered message as its sole descriptor, and
    /// equivalent failures render to the same message text reproducibly.
    pub fn from_result(res: Result<D, AppError>) -> (r: IpcResponse<D>)
        ensures
            r.is_envelope_of(res),
    {
        match res {
            Ok(data) => IpcResponse {
                status: IpcStatus::Success,
                response: Response::Success { result: IpcSimpleResult { data } },
            },
            Err(err) => IpcResponse {
                status: IpcStatus::Error,
                response: Response::Error { error: IpcError { message: err.render() } },
            },
        }
    }
}

/// Law: an envelope produced for any result populates exactly one of the two
/// branches — a success payload when and only when the result was `Ok`, an
/// error descriptor when and only when it was `Err` — never both, never
/// neither, and the status names the populated branch.
pub proof fn lemma_envelope_exclusive<D>(r: IpcResponse<D>, res: Result<D, AppError>)
    requires
        r.is_envelope_of(res),
    ensures
        res is Ok ==> r.response is Success && !(r.response is Error) && r.status is Success,
        res is Err ==> r.response is Error && !(r.response is Success) && r.status is Error,
{
}

} // verus!
