use vstd::prelude::*;
use crate::error::SystemError;

verus! {

/// What the host's own UI answers when asked whether the application may draw.
#[derive(Clone, Copy, Debug, PartialEq, Eq, Structural)]
pub enum Response {
    Continue,
    Redraw,
    Ignore,
    Error,
    Cancel,
    Success,
}

impl Response {
    pub open spec fn code(self) -> u32 {
        match self {
            Response::Continue => 0,
            Response::Redraw => 0xB0105055,
            Response::Ignore => 0xB0105044,
            Response::Error => 0xB0105033,
            Response::Cancel => 0xB0105022,
            Response::Success => 0xB0105011,
        }
    }

    /// The answer whose code is `value`, if any.
    pub fn from_u8(value: u32) -> (r: Option<Response>)
        ensures
            r matches Some(x) ==> x.code() == value,
            r is None ==> forall|x: Response| x.code() != value,
    {
        if value == 0 {
            Some(Response::Continue)
        } else if value == 0xB0105055 {
            Some(Response::Redraw)
        } else if value == 0xB0105044 {
            Some(Response::Ignore)
        } else if value == 0xB0105033 {
            Some(Response::Error)
        } else if value == 0xB0105022 {
            Some(Response::Cancel)
        } else if value == 0xB0105011 {
            Some(Response::Success)
        } else {
            None
        }
    }
}

/// The answer that a UX request got: a failed call and an unknown code both
/// count as `Error`.
pub fn ux_response(result: Result<u32, SystemError>) -> (r: Response)
    ensures
        result matches Ok(v) && (exists|x: Response| x.code() == v) ==> r.code() == result->Ok_0,
        result matches Ok(v) && (forall|x: Response| x.code() != v) ==> r == Response::Error,
        result is Err ==> r == Response::Error,
{
    match result {
        Ok(v) => match Response::from_u8(v) {
            Some(x) => x,
            None => Response::Error,
        },
        Err(_) => Response::Error,
    }
}

} // verus!
