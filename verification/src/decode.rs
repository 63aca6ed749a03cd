//! Decoding an opaque host value into a typed execution request: the single
//! fallible conversion at the boundary, run before any execution logic.

use vstd::prelude::*;

use crate::host_value::{find, lookup, HostValue};
use crate::request::{lemma_pairs_map_update, pairs_map, unique_keys, ExecutionRequest};

verus! {

/// Why a decode failed: the first requirement, in the order the fields are
/// read, that the input value does not meet.
#[derive(Clone, Copy, PartialEq, Eq, Structural, Debug)]
pub enum DecodeError {
    /// The request is not an object.
    NotObject,
    /// `program` is missing or not a string.
    Program,
    /// `stdin` is missing or not a string.
    Stdin,
    /// `args` is missing or not an array.
    Args,
    /// An element of `args` is not a string.
    ArgElement,
    /// `env` is missing or not an object.
    Env,
    /// A property of `env` carries a value that is not a string.
    EnvValue,
}

/// The characters of a string-shaped host value.
pub open spec fn str_of(v: HostValue) -> Seq<char> {
    v->Str_0@
}

/// The named property exists and is a string.
pub open spec fn str_field(pairs: Seq<(String, HostValue)>, key: Seq<char>) -> bool {
    lookup(pairs, key) matches Some(f) && f is Str
}

/// Every element is a string.
pub open spec fn all_strings(elems: Seq<HostValue>) -> bool {
    forall|i: int| 0 <= i < elems.len() ==> elems[i] is Str
}

/// Every property carries a string value.
pub open spec fn all_string_values(pairs: Seq<(String, HostValue)>) -> bool {
    forall|i: int| 0 <= i < pairs.len() ==> pairs[i].1 is Str
}

/// The views of a sequence of string-shaped values, in order.
pub open spec fn strings_of(elems: Seq<HostValue>) -> Seq<Seq<char>> {
    elems.map(|i: int, e: HostValue| str_of(e))
}

/// The environment mapping an object stands for; a later property of the same
/// name wins.
pub open spec fn env_map_of(pairs: Seq<(String, HostValue)>) -> Map<Seq<char>, Seq<char>>
    decreases pairs.len(),
{
    if pairs.len() == 0 {
        Map::<Seq<char>, Seq<char>>::empty()
    } else {
        env_map_of(pairs.drop_last()).insert(pairs.last().0@, str_of(pairs.last().1))
    }
}

/// A host value from which a whole request can be decoded: an object whose
/// `program` and `stdin` are strings, whose `args` is an array of strings,
/// and whose `env` is an object of string values.
pub open spec fn wf_request_value(v: HostValue) -> bool {
    &&& v is Obj
    &&& str_field(v->Obj_0@, "program"@)
    &&& str_field(v->Obj_0@, "stdin"@)
    &&& (lookup(v->Obj_0@, "args"@) matches Some(a) && a is Arr && all_strings(a->Arr_0@))
    &&& (lookup(v->Obj_0@, "env"@) matches Some(e) && e is Obj && all_string_values(e->Obj_0@))
}

/// The error a malformed request decodes to: the first requirement it misses,
/// in the order the fields are read.
pub open spec fn decode_error_of(v: HostValue) -> DecodeError {
    if !(v is Obj) {
        DecodeError::NotObject
    } else if !str_field(v->Obj_0@, "program"@) {
        DecodeError::Program
    } else if !str_field(v->Obj_0@, "stdin"@) {
        DecodeError::Stdin
    } else if !(lookup(v->Obj_0@, "args"@) matches Some(a) && a is Arr) {
        DecodeError::Args
    } else if !(lookup(v->Obj_0@, "args"@) matches Some(a) && all_strings(a->Arr_0@)) {
        DecodeError::ArgElement
    } else if !(lookup(v->Obj_0@, "env"@) matches Some(e) && e is Obj) {
        DecodeError::Env
    } else {
        DecodeError::EnvValue
    }
}

/// All a decoded request holds of the value it was decoded from: the two
/// strings, the arguments in order, and the environment mapping with unique
/// names, the last write winning.
pub open spec fn decoded_request(v: HostValue, req: ExecutionRequest) -> bool {
    &&& req.wf()
    &&& (lookup(v->Obj_0@, "program"@) matches Some(p) && req.program@ == str_of(p))
    &&& (lookup(v->Obj_0@, "stdin"@) matches Some(s) && req.stdin@ == str_of(s))
    &&& (lookup(v->Obj_0@, "args"@) matches Some(a) && req.args.deep_view() == strings_of(
        a->Arr_0@,
    ))
    &&& (lookup(v->Obj_0@, "env"@) matches Some(e) && req.env_map() == env_map_of(e->Obj_0@))
}

/// Write `key = value` into an entry list with unique names: replace the
/// entry that carries the name, or add one.
#[verifier::loop_isolation(false)]
fn upsert(env: &mut Vec<(String, String)>, key: String, value: String)
    requires
        unique_keys(old(env)@),
    ensures
        unique_keys(final(env)@),
        pairs_map(final(env)@) == pairs_map(old(env)@).insert(key@, value@),
{
    let mut j: usize = 0;
    while j < env.len()
        invariant
            j <= env@.len(),
            env@ == old(env)@,
            forall|t: int| 0 <= t < j ==> env@[t].0@ != key@,
        decreases env@.len() - j,
    {
        if env[j].0 == key {
            proof {
                lemma_pairs_map_update(env@, j as int, (key, value));
            }
            env[j] = (key, value);
            return ;
        }
        j += 1;
    }
    env.push((key, value));
    proof {
        assert(env@.drop_last() =~= old(env)@);
    }
}

/// Validate and convert an opaque host value into a typed request. No field
/// is optional, nothing is defaulted, and a failure leaves nothing partially
/// populated: the request exists only when every requirement is met.
#[verifier::loop_isolation(false)]
pub fn decode_request(v: &HostValue) -> (r: Result<ExecutionRequest, DecodeError>)
    ensures
        r is Ok <==> wf_request_value(*v),
        (r matches Ok(req) ==> decoded_request(*v, req)),
        (r matches Err(e) ==> e == decode_error_of(*v)),
{
    let pairs: &Vec<(String, HostValue)> = match v {
        HostValue::Obj(pairs) => pairs,
        _ => { return Err(DecodeError::NotObject) },
    };

    let program: String = match find(pairs, &String::from_str("program")) {
        Some(HostValue::Str(s)) => s.clone(),
        _ => { return Err(DecodeError::Program) },
    };

    let stdin: String = match find(pairs, &String::from_str("stdin")) {
        Some(HostValue::Str(s)) => s.clone(),
        _ => { return Err(DecodeError::Stdin) },
    };

    let items: &Vec<HostValue> = match find(pairs, &String::from_str("args")) {
        Some(HostValue::Arr(items)) => items,
        _ => { return Err(DecodeError::Args) },
    };
    let mut args: Vec<String> = Vec::new();
    let mut i: usize = 0;
    while i < items.len()
        invariant
            i <= items@.len(),
            args.deep_view() == strings_of(items@.take(i as int)),
            forall|t: int| 0 <= t < i ==> items@[t] is Str,
        decreases items@.len() - i,
    {
        let item = &items[i];
        match item {
            HostValue::Str(s) => {
                let ghost pre = args.deep_view();
                args.push(s.clone());
                proof {
                    assert(args@.len() == i + 1);
                    assert(args.deep_view().len() == i + 1);
                    assert(strings_of(items@.take(i + 1)).len() == i + 1);
                    assert forall|t: int| 0 <= t < i + 1 implies args.deep_view()[t]
                        == strings_of(items@.take(i + 1))[t] by {
                        assert(strings_of(items@.take(i + 1))[t] == str_of(items@.take(i + 1)[t]));
                        assert(items@.take(i + 1)[t] == items@[t]);
                        if t < i {
                            assert(args@[t] == args@.drop_last()[t]);
                            assert(args.deep_view()[t] == pre[t]);
                            assert(pre[t] == strings_of(items@.take(i as int))[t]);
                            assert(strings_of(items@.take(i as int))[t] == str_of(
                                items@.take(i as int)[t],
                            ));
                        } else {
                            assert(args@[t]@ == str_of(items@[t]));
                        }
                    }
                    assert(args.deep_view() =~= strings_of(items@.take(i + 1)));
                }
            },
            _ => { return Err(DecodeError::ArgElement) },
        }
        i += 1;
    }
    proof {
        assert(items@.take(items@.len() as int) =~= items@);
    }

    let props: &Vec<(String, HostValue)> = match find(pairs, &String::from_str("env")) {
        Some(HostValue::Obj(props)) => props,
        _ => { return Err(DecodeError::Env) },
    };
    let mut env: Vec<(String, String)> = Vec::new();
    let mut k: usize = 0;
    while k < props.len()
        invariant
            k <= props@.len(),
            unique_keys(env@),
            pairs_map(env@) == env_map_of(props@.take(k as int)),
            forall|t: int| 0 <= t < k ==> props@[t].1 is Str,
        decreases props@.len() - k,
    {
        let prop = &props[k];
        let value: String = match &prop.1 {
            HostValue::Str(s) => s.clone(),
            _ => { return Err(DecodeError::EnvValue) },
        };
        proof {
            assert(props@.take(k + 1).drop_last() =~= props@.take(k as int));
            assert(props@.take(k + 1).last() == props@[k as int]);
        }
        upsert(&mut env, prop.0.clone(), value);
        k += 1;
    }
    proof {
        assert(props@.take(props@.len() as int) =~= props@);
    }

    Ok(ExecutionRequest { program, args, env, stdin })
}

} // verus!
