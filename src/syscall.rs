use vstd::prelude::*;
use crate::error::SystemError;

verus! {

/// The outcome of a supervisor call, from what the supervisor handed back.
///
/// `exception` is the code that the call raised, zero when it returned
/// normally. A normal return is accepted only when the supervisor answered
/// with `expected_id`, the reply identifier that belongs to the request.
pub fn supervisor_result(expected_id: u32, exception: u16, ret_id: u32, ret_val: u32) -> (r: Result<
    u32,
    SystemError,
>)
    ensures
        exception == 0 && ret_id == expected_id ==> r == Ok::<u32, SystemError>(ret_val),
        exception == 0 && ret_id != expected_id ==> r == Err::<u32, SystemError>(
            SystemError::Security,
        ),
        exception != 0 && 1 <= exception <= 18 ==> (r matches Err(e) && e.code() == exception),
        exception != 0 && !(1 <= exception <= 18) ==> r == Err::<u32, SystemError>(
            SystemError::Exception,
        ),
{
    if exception == 0 {
        if ret_id != expected_id {
            Err(SystemError::Security)
        } else {
            Ok(ret_val)
        }
    } else {
        match SystemError::from_u16(exception) {
            Some(e) => Err(e),
            None => Err(SystemError::Exception),
        }
    }
}

} // verus!
