use vstd::prelude::*;

verus! {

/// The code number that a backend reports for success.
pub const SUCCESS_CODE: u32 = 0;

/// The outcome of a helper call: success, one of the failures that this
/// library detects itself, or a failure code reported by a backend.
#[derive(PartialEq, Eq, Structural, Debug, Clone, Copy)]
pub enum StatusCode {
    Success,
    NoProvideAddress,
    ProvideAddressError,
    NoTransaction,
    NoneStatusCode,
    NoneHashResult,
    EncodeError,
    NoneBlockHeader,
    KmsServerNotReady,
    StorageServerNotReady,
    NetworkServerNotReady,
    /// A non-zero code that a backend reported.
    Backend(u32),
}

/// The status that a backend's code number stands for.
pub open spec fn status_of(code: u32) -> StatusCode {
    if code == SUCCESS_CODE {
        StatusCode::Success
    } else {
        StatusCode::Backend(code)
    }
}

impl StatusCode {
    /// The status that a backend's code number stands for.
    pub fn from_code(code: u32) -> (r: StatusCode)
        ensures
            r == status_of(code),
    {
        if code == SUCCESS_CODE {
            StatusCode::Success
        } else {
            StatusCode::Backend(code)
        }
    }

    /// `Ok` for success, else the status itself as the error.
    pub fn is_success(self) -> (r: Result<(), StatusCode>)
        ensures
            self == StatusCode::Success ==> r is Ok,
            self != StatusCode::Success ==> r == Err::<(), StatusCode>(self),
    {
        if self == StatusCode::Success {
            Ok(())
        } else {
            Err(self)
        }
    }
}

/// What a backend answered: its status code, when it sent one, and its
/// payload, when it sent one.
pub struct BackendReply {
    pub status: Option<u32>,
    pub payload: Option<Vec<u8>>,
}

/// The result of a forwarding call: a transport failure gives `not_ready`, a
/// reply without status gives `NoneStatusCode`, a reported failure gives that
/// status, and a success gives the payload, or `missing` without one.
pub open spec fn forwarded(
    reply: Option<BackendReply>,
    not_ready: StatusCode,
    missing: StatusCode,
) -> Result<Seq<u8>, StatusCode> {
    match reply {
        None => Err(not_ready),
        Some(r) => match r.status {
            None => Err(StatusCode::NoneStatusCode),
            Some(code) => if code != SUCCESS_CODE {
                Err(status_of(code))
            } else {
                match r.payload {
                    Some(p) => Ok(p@),
                    None => Err(missing),
                }
            },
        },
    }
}

/// Decides the result of a call forwarded to a backend from what came back
/// (`None` for a transport failure). `not_ready` is the status of an
/// unreachable backend and `missing` that of a success without payload.
pub fn forward_result(reply: Option<BackendReply>, not_ready: StatusCode, missing: StatusCode) -> (r:
    Result<Vec<u8>, StatusCode>)
    ensures
        match (r, forwarded(reply, not_ready, missing)) {
            (Ok(v), Ok(w)) => v@ == w,
            (Err(e), Err(f)) => e == f,
            _ => false,
        },
{
    match reply {
        None => Err(not_ready),
        Some(r) => match r.status {
            None => Err(StatusCode::NoneStatusCode),
            Some(code) => if code != SUCCESS_CODE {
                Err(StatusCode::from_code(code))
            } else {
                match r.payload {
                    Some(p) => Ok(p),
                    None => Err(missing),
                }
            },
        },
    }
}

/// The status of a call whose backend answers with a bare code (`None` for a
/// transport failure, which gives `not_ready`).
pub fn code_result(reply: Option<u32>, not_ready: StatusCode) -> (r: StatusCode)
    ensures
        r == match reply {
            None => not_ready,
            Some(code) => status_of(code),
        },
{
    match reply {
        None => not_ready,
        Some(code) => StatusCode::from_code(code),
    }
}

} // verus!
