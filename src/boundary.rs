use vstd::prelude::*;
use vstd::string::*;

verus! {

/// Status code that accompanies every failure reported by a guest export.
pub const FAILURE_CODE: i32 = 1;

/// The failure half of the guest's result envelope: a message and a status
/// code. Structured error types do not cross the boundary.
pub struct Failure {
    pub message: String,
    pub code: i32,
}

/// Adapts an implementation's outcome to the guest envelope: success passes
/// through unchanged, a failure keeps its rendered message and gets the fixed
/// status code.
pub fn guest_outcome<T>(r: Result<T, String>) -> (out: Result<T, Failure>)
    ensures
        match r {
            Ok(v) => out == Ok::<T, Failure>(v),
            Err(m) => out is Err && out->Err_0.message@ == m@ && out->Err_0.code == FAILURE_CODE,
        },
{
    match r {
        Ok(v) => Ok(v),
        Err(m) => Err(Failure { message: m, code: FAILURE_CODE }),
    }
}

/// The single error type a host caller sees, whatever failed.
pub struct HostError {
    pub message: String,
}

/// Message of an error raised when the worker task did not run to completion.
pub open spec fn dispatch_error_text(detail: Seq<char>) -> Seq<char> {
    "worker dispatch failed: "@ + detail
}

/// Message of an error reported by the runtime call, which includes a
/// failure reported by the guest itself.
pub open spec fn call_error_text(detail: Seq<char>) -> Seq<char> {
    "plugin call failed: "@ + detail
}

/// Flattens the outcome of a dispatched runtime call into one result: the
/// outer layer is the worker dispatch, the inner one the call by name.
pub fn flatten<T>(joined: Result<Result<T, String>, String>) -> (out: Result<T, HostError>)
    ensures
        match joined {
            Ok(Ok(v)) => out == Ok::<T, HostError>(v),
            Ok(Err(c)) => out is Err && out->Err_0.message@ == call_error_text(c@),
            Err(d) => out is Err && out->Err_0.message@ == dispatch_error_text(d@),
        },
{
    match joined {
        Ok(Ok(v)) => Ok(v),
        Ok(Err(c)) => {
            let mut message = String::from_str("plugin call failed: ");
            message.append(c.as_str());
            Err(HostError { message })
        },
        Err(d) => {
            let mut message = String::from_str("worker dispatch failed: ");
            message.append(d.as_str());
            Err(HostError { message })
        },
    }
}

/// A dispatch failure can always be told from a call failure (and so from a
/// guest's own failure) by its message, though both are `HostError`s.
pub proof fn lemma_dispatch_distinguishable(d: Seq<char>, c: Seq<char>)
    ensures
        dispatch_error_text(d) != call_error_text(c),
        dispatch_error_text(d)[0] != call_error_text(c)[0],
{
    reveal_strlit("worker dispatch failed: ");
    reveal_strlit("plugin call failed: ");
    assert(dispatch_error_text(d)[0] == 'w');
    assert(call_error_text(c)[0] == 'p');
}

/// The message of a call failure ends with the detail the runtime gave, so a
/// guest's own failure message reaches the host caller.
pub proof fn lemma_guest_message_reaches_host(m: Seq<char>)
    ensures
        call_error_text(m).subrange(
            call_error_text(m).len() - m.len(),
            call_error_text(m).len() as int,
        ) == m,
{
    assert(call_error_text(m).subrange(
        call_error_text(m).len() - m.len(),
        call_error_text(m).len() as int,
    ) =~= m);
}

} // verus!
