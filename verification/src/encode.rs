//! Encoding the terminal outcome of a call as an opaque host-facing value:
//! exactly one of the two shapes, never both, never neither, and never a
//! failure of its own.

use vstd::prelude::*;

use crate::host_value::HostValue;
use crate::outcome::{ExecutionError, ExecutionResult};

verus! {

/// The shape of a successful call's value: the four fields of the result —
/// `failed`, `stdout`, `stderr`, `status_code` — and nothing else.
pub open spec fn is_success_value(v: HostValue, r: ExecutionResult) -> bool {
    &&& v is Obj
    &&& v->Obj_0@.len() == 4
    &&& v->Obj_0@[0].0@ == "failed"@
    &&& v->Obj_0@[0].1 == HostValue::Bool(r.failed)
    &&& v->Obj_0@[1].0@ == "stdout"@
    &&& (v->Obj_0@[1].1 matches HostValue::Str(s) && s@ == r.stdout@)
    &&& v->Obj_0@[2].0@ == "stderr"@
    &&& (v->Obj_0@[2].1 matches HostValue::Str(s) && s@ == r.stderr@)
    &&& v->Obj_0@[3].0@ == "status_code"@
    &&& v->Obj_0@[3].1 == HostValue::Int(r.status_code as i64)
}

/// The shape of a failed call's value: a single `error` message string, and
/// nothing else.
pub open spec fn is_error_value(v: HostValue) -> bool {
    &&& v is Obj
    &&& v->Obj_0@.len() == 1
    &&& v->Obj_0@[0].0@ == "error"@
    &&& v->Obj_0@[0].1 is Str
}

/// The message an error-shaped value carries.
pub open spec fn error_message_of(v: HostValue) -> Seq<char> {
    v->Obj_0@[0].1->Str_0@
}

/// No host value is both a success value and an error value: the two shapes
/// exclude each other.
pub proof fn lemma_shapes_exclusive(v: HostValue, r: ExecutionResult)
    ensures
        !(is_success_value(v, r) && is_error_value(v)),
{
}

/// Encode a result: an object exposing `failed`, `stdout`, `stderr` and
/// `status_code`.
pub fn encode_result(r: &ExecutionResult) -> (v: HostValue)
    ensures
        is_success_value(v, *r),
{
    let mut pairs: Vec<(String, HostValue)> = Vec::new();
    pairs.push((String::from_str("failed"), HostValue::Bool(r.failed)));
    pairs.push((String::from_str("stdout"), HostValue::Str(r.stdout.clone())));
    pairs.push((String::from_str("stderr"), HostValue::Str(r.stderr.clone())));
    pairs.push((String::from_str("status_code"), HostValue::Int(r.status_code as i64)));
    HostValue::Obj(pairs)
}

/// Encode a bridge error: an object exposing a single `error` message.
pub fn encode_error(e: &ExecutionError) -> (v: HostValue)
    ensures
        is_error_value(v),
        error_message_of(v) == e.message@,
{
    let mut pairs: Vec<(String, HostValue)> = Vec::new();
    pairs.push((String::from_str("error"), HostValue::Str(e.message.clone())));
    HostValue::Obj(pairs)
}

/// Encode the terminal outcome of a call: the success shape exactly when the
/// run concluded with a result, the error shape exactly when the bridge
/// failed — one of the two, never both, never neither.
pub fn encode_outcome(outcome: &Result<ExecutionResult, ExecutionError>) -> (v: HostValue)
    ensures
        (outcome matches Ok(r) ==> is_success_value(v, *r)),
        (outcome matches Err(e) ==> error_message_of(v) == e.message@),
        (is_error_value(v) <==> outcome is Err),
{
    match outcome {
        Ok(r) => encode_result(r),
        Err(e) => encode_error(e),
    }
}

/// The fixed value answering a request that does not decode. Decoding never
/// reaches execution: this value is built from nothing but the refusal.
pub fn encode_parse_failure() -> (v: HostValue)
    ensures
        is_error_value(v),
        error_message_of(v) == "Failed to parse wasi execution request"@,
{
    let message = String::from_str("Failed to parse wasi execution request");
    let mut pairs: Vec<(String, HostValue)> = Vec::new();
    pairs.push((String::from_str("error"), HostValue::Str(message)));
    HostValue::Obj(pairs)
}

} // verus!
