use vstd::prelude::*;
use crate::bytes::joined;
use crate::bytes::join_under;

verus! {

/// Failure of the platform's persistent environment-variable update: the
/// underlying call reported a non-success status.
#[derive(Clone, Copy, PartialEq, Eq, Structural, Debug)]
pub struct EnvWriteError;

/// The new value of the persistent search-path variable: the current value,
/// the platform's path-list separator, then the directory being registered.
/// The current value is kept in full, the new directory comes last.
pub fn append_search_path(current: &Vec<u8>, sep: u8, dir: &Vec<u8>) -> (r: Vec<u8>)
    ensures
        r@ == joined(current@, sep, dir@),
{
    join_under(current, sep, dir)
}

/// Decides from the status of the platform's update call whether
/// registration succeeded; a non-success status is an `EnvWriteError`.
/// The caller reports the error but still lets the run complete, since
/// extraction has already succeeded by this stage.
pub fn registration_result(call_succeeded: bool) -> (r: Result<(), EnvWriteError>)
    ensures
        r is Ok <==> call_succeeded,
{
    if call_succeeded {
        Ok(())
    } else {
        Err(EnvWriteError)
    }
}

} // verus!
