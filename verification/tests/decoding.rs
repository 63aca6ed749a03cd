use wasi_bridge::bridge::accept_request;
use wasi_bridge::decode::{decode_request, DecodeError};
use wasi_bridge::host_value::HostValue;

fn s(t: &str) -> HostValue {
    HostValue::Str(String::from(t))
}

fn valid_request() -> HostValue {
    HostValue::Obj(vec![
        (String::from("program"), s("guest.wasm")),
        (String::from("stdin"), s("hello")),
        (String::from("args"), HostValue::Arr(vec![s("a"), s("b")])),
        (
            String::from("env"),
            HostValue::Obj(vec![(String::from("X"), s("42"))]),
        ),
    ])
}

/// Drop the property named `key` from an object value.
fn without(v: HostValue, key: &str) -> HostValue {
    match v {
        HostValue::Obj(pairs) => {
            HostValue::Obj(pairs.into_iter().filter(|(k, _)| k != key).collect())
        }
        other => other,
    }
}

#[test]
fn decode_valid_request() {
    let req = decode_request(&valid_request()).unwrap();
    assert_eq!(req.program, "guest.wasm");
    assert_eq!(req.stdin, "hello");
    assert_eq!(req.args, vec![String::from("a"), String::from("b")]);
    assert_eq!(req.env, vec![(String::from("X"), String::from("42"))]);
}

#[test]
fn decode_missing_program() {
    let v = without(valid_request(), "program");
    assert_eq!(decode_request(&v).unwrap_err(), DecodeError::Program);
}

#[test]
fn decode_non_string_program() {
    let v = HostValue::Obj(vec![(String::from("program"), HostValue::Int(3))]);
    assert_eq!(decode_request(&v).unwrap_err(), DecodeError::Program);
}

#[test]
fn decode_missing_stdin() {
    let v = without(valid_request(), "stdin");
    assert_eq!(decode_request(&v).unwrap_err(), DecodeError::Stdin);
}

#[test]
fn decode_missing_args() {
    let v = without(valid_request(), "args");
    assert_eq!(decode_request(&v).unwrap_err(), DecodeError::Args);
}

#[test]
fn decode_non_string_arg_element() {
    let mut pairs = match valid_request() {
        HostValue::Obj(pairs) => pairs,
        _ => unreachable!(),
    };
    for pair in pairs.iter_mut() {
        if pair.0 == "args" {
            pair.1 = HostValue::Arr(vec![s("ok"), HostValue::Bool(true)]);
        }
    }
    let v = HostValue::Obj(pairs);
    assert_eq!(decode_request(&v).unwrap_err(), DecodeError::ArgElement);
}

#[test]
fn decode_missing_env() {
    let v = without(valid_request(), "env");
    assert_eq!(decode_request(&v).unwrap_err(), DecodeError::Env);
}

#[test]
fn decode_non_string_env_value() {
    let mut pairs = match valid_request() {
        HostValue::Obj(pairs) => pairs,
        _ => unreachable!(),
    };
    for pair in pairs.iter_mut() {
        if pair.0 == "env" {
            pair.1 = HostValue::Obj(vec![(String::from("X"), HostValue::Other)]);
        }
    }
    let v = HostValue::Obj(pairs);
    assert_eq!(decode_request(&v).unwrap_err(), DecodeError::EnvValue);
}

#[test]
fn decode_non_object() {
    assert_eq!(
        decode_request(&s("not an object")).unwrap_err(),
        DecodeError::NotObject
    );
}

#[test]
fn decode_empty_args_and_env() {
    let v = HostValue::Obj(vec![
        (String::from("program"), s("guest.wasm")),
        (String::from("stdin"), s("")),
        (String::from("args"), HostValue::Arr(Vec::new())),
        (String::from("env"), HostValue::Obj(Vec::new())),
    ]);
    let req = decode_request(&v).unwrap();
    assert!(req.args.is_empty());
    assert!(req.env.is_empty());
    assert_eq!(req.stdin, "");
}

#[test]
fn decode_duplicate_env_keys_last_wins() {
    let env = HostValue::Obj(vec![
        (String::from("X"), s("1")),
        (String::from("Y"), s("7")),
        (String::from("X"), s("2")),
    ]);
    let v = HostValue::Obj(vec![
        (String::from("program"), s("guest.wasm")),
        (String::from("stdin"), s("")),
        (String::from("args"), HostValue::Arr(Vec::new())),
        (String::from("env"), env),
    ]);
    let req = decode_request(&v).unwrap();
    assert_eq!(req.env.len(), 2);
    assert!(req.env.contains(&(String::from("X"), String::from("2"))));
    assert!(req.env.contains(&(String::from("Y"), String::from("7"))));
}

#[test]
fn duplicate_request_properties_last_wins() {
    let v = HostValue::Obj(vec![
        (String::from("program"), s("first.wasm")),
        (String::from("stdin"), s("")),
        (String::from("args"), HostValue::Arr(Vec::new())),
        (String::from("env"), HostValue::Obj(Vec::new())),
        (String::from("program"), s("second.wasm")),
    ]);
    let req = decode_request(&v).unwrap();
    assert_eq!(req.program, "second.wasm");
}

#[test]
fn accept_request_answers_malformed_input() {
    let v = without(valid_request(), "env");
    let answer = accept_request(&v).unwrap_err();
    match answer {
        HostValue::Obj(pairs) => {
            assert_eq!(pairs.len(), 1);
            assert_eq!(pairs[0].0, "error");
            match &pairs[0].1 {
                HostValue::Str(m) => assert_eq!(m, "Failed to parse wasi execution request"),
                _ => panic!("error message is not a string"),
            }
        }
        _ => panic!("answer is not an object"),
    }
}

#[test]
fn accept_request_passes_valid_input() {
    let req = accept_request(&valid_request()).unwrap();
    assert_eq!(req.program, "guest.wasm");
}
