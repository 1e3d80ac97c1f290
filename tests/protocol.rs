use demonite::error::DemoniteErr;
use demonite::service::Service;
use demonite::wire::{
    decode_call_bytes, decode_error, decode_reply, encode_call_bytes, encode_error,
    encode_reply, Call,
};

fn calculator() -> Service {
    Service::new(
        "Calculator".to_string(),
        vec!["add".to_string(), "negate".to_string(), "echo".to_string()],
    )
    .unwrap()
}

fn add(a: u32, b: u32) -> Result<Vec<u8>, DemoniteErr> {
    Ok(bincode::serialize(&(a + b)).unwrap())
}

fn dispatch(call: &Call) -> Result<Vec<u8>, DemoniteErr> {
    match call.procedure {
        0 => {
            let (a, b): (u32, u32) = bincode::deserialize(&call.args).unwrap();
            add(a, b)
        }
        1 => Err(DemoniteErr::Io("no such file".to_string())),
        _ => Ok(call.args.clone()),
    }
}

#[test]
fn call_bytes_are_tag_then_arguments() {
    assert_eq!(encode_call_bytes(1, &[9, 8]), vec![1, 0, 0, 0, 9, 8]);
    assert_eq!(encode_call_bytes(0x0102_0304, &[]), vec![4, 3, 2, 1]);
}

#[test]
fn call_bytes_match_the_codec_encoding_of_a_variant() {
    let args = bincode::serialize(&(2u32, 3u32)).unwrap();
    let mut expected = bincode::serialize(&0u32).unwrap();
    expected.extend_from_slice(&args);
    assert_eq!(calculator().encode_call(0, &args).unwrap(), expected);
}

#[test]
fn call_round_trip() {
    let s = calculator();
    let args = bincode::serialize(&(40u32, 2u32)).unwrap();
    let bytes = s.encode_call(0, &args).unwrap();
    let call = s.decode_call(&bytes).unwrap();
    assert_eq!(call, Call { procedure: 0, args: args.clone() });
}

#[test]
fn remote_call_returns_what_the_procedure_returns() {
    let s = calculator();
    let args = bincode::serialize(&(40u32, 2u32)).unwrap();
    let request = s.encode_named_call(&"add".to_string(), &args).unwrap();
    let call = s.decode_call(&request).unwrap();
    let reply = encode_reply(&dispatch(&call));
    let payload = decode_reply(&reply).unwrap();
    let value: u32 = bincode::deserialize(&payload).unwrap();
    assert_eq!(value, 42);
    assert_eq!(Ok(payload), add(40, 2));
}

#[test]
fn remote_call_returns_the_procedure_error() {
    let s = calculator();
    let request = s.encode_named_call(&"negate".to_string(), &[]).unwrap();
    let call = s.decode_call(&request).unwrap();
    let reply = encode_reply(&dispatch(&call));
    assert_eq!(decode_reply(&reply), Err(DemoniteErr::Io("no such file".to_string())));
}

#[test]
fn unknown_procedure_tag_is_refused() {
    let s = calculator();
    let r = s.decode_call(&[3, 0, 0, 0, 1, 2]);
    assert!(matches!(r, Err(DemoniteErr::Serialize(_))));
    let r = decode_call_bytes(&[0xff, 0xff, 0xff, 0xff], 3);
    assert!(matches!(r, Err(DemoniteErr::Serialize(_))));
}

#[test]
fn truncated_call_is_refused() {
    let s = calculator();
    assert!(matches!(s.decode_call(&[]), Err(DemoniteErr::Serialize(_))));
    assert!(matches!(s.decode_call(&[0, 0, 0]), Err(DemoniteErr::Serialize(_))));
}

#[test]
fn service_with_no_procedures_accepts_no_call() {
    let s = Service::new("Empty".to_string(), vec![]).unwrap();
    assert_eq!(s.procedure_count(), 0);
    assert!(matches!(s.decode_call(&[0, 0, 0, 0]), Err(DemoniteErr::Serialize(_))));
    assert!(matches!(s.encode_call(0, &[]), Err(DemoniteErr::Serialize(_))));
}

#[test]
fn call_outside_the_service_cannot_be_encoded() {
    let s = calculator();
    assert!(matches!(s.encode_call(3, &[1]), Err(DemoniteErr::Serialize(_))));
    assert!(matches!(
        s.encode_named_call(&"divide".to_string(), &[1]),
        Err(DemoniteErr::Serialize(_))
    ));
}

#[test]
fn procedure_lookup_takes_the_first_match() {
    let s = Service::new(
        "Dup".to_string(),
        vec!["a".to_string(), "b".to_string(), "b".to_string()],
    )
    .unwrap();
    assert_eq!(s.index_of(&"a".to_string()), Some(0));
    assert_eq!(s.index_of(&"b".to_string()), Some(1));
    assert_eq!(s.index_of(&"c".to_string()), None);
    assert_eq!(s.encode_named_call(&"b".to_string(), &[7]).unwrap(), vec![1, 0, 0, 0, 7]);
}

#[test]
fn error_bytes_match_the_codec() {
    let e = encode_error(&DemoniteErr::Serialize("ab".to_string()));
    assert_eq!(e, vec![0, 0, 0, 0, 2, 0, 0, 0, 0, 0, 0, 0, b'a', b'b']);
    let mut io = bincode::serialize(&1u32).unwrap();
    io.extend_from_slice(&bincode::serialize("héllo").unwrap());
    assert_eq!(encode_error(&DemoniteErr::Io("héllo".to_string())), io);
    assert_eq!(
        encode_error(&DemoniteErr::XdgRuntimeDirInvPerm(0o755)),
        vec![3, 0, 0, 0, 0xed, 0x01, 0, 0]
    );
    assert_eq!(encode_error(&DemoniteErr::XdgRuntimeDirMissing), vec![4, 0, 0, 0]);
    assert_eq!(encode_error(&DemoniteErr::AlreadyRunning), vec![5, 0, 0, 0]);
}

#[test]
fn every_error_round_trips() {
    let all = vec![
        DemoniteErr::Serialize("bad".to_string()),
        DemoniteErr::Io("broken pipe".to_string()),
        DemoniteErr::EnvVar("environment variable not found".to_string()),
        DemoniteErr::EnvVar(String::new()),
        DemoniteErr::XdgRuntimeDirInvPerm(0o755),
        DemoniteErr::XdgRuntimeDirMissing,
        DemoniteErr::AlreadyRunning,
    ];
    for e in all {
        let bytes = encode_error(&e);
        assert_eq!(decode_error(&bytes), Some(e));
    }
}

#[test]
fn reply_round_trips() {
    let ok: Result<Vec<u8>, DemoniteErr> = Ok(vec![1, 2, 3]);
    assert_eq!(encode_reply(&ok), vec![0, 0, 0, 0, 1, 2, 3]);
    assert_eq!(decode_reply(&encode_reply(&ok)), ok);
    let empty: Result<Vec<u8>, DemoniteErr> = Ok(vec![]);
    assert_eq!(decode_reply(&encode_reply(&empty)), empty);
    let err: Result<Vec<u8>, DemoniteErr> = Err(DemoniteErr::AlreadyRunning);
    assert_eq!(encode_reply(&err), vec![1, 0, 0, 0, 5, 0, 0, 0]);
    assert_eq!(decode_reply(&encode_reply(&err)), err);
}

#[test]
fn malformed_replies_are_serialize_errors() {
    assert!(matches!(decode_reply(&[]), Err(DemoniteErr::Serialize(_))));
    assert!(matches!(decode_reply(&[2, 0, 0, 0]), Err(DemoniteErr::Serialize(_))));
    assert!(matches!(decode_reply(&[1, 0, 0, 0, 9, 0, 0, 0]), Err(DemoniteErr::Serialize(_))));
    // a text that announces more bytes than it has
    assert!(matches!(
        decode_reply(&[1, 0, 0, 0, 0, 0, 0, 0, 5, 0, 0, 0, 0, 0, 0, 0, b'a']),
        Err(DemoniteErr::Serialize(_))
    ));
    // a text that is not UTF-8
    assert!(matches!(
        decode_reply(&[1, 0, 0, 0, 1, 0, 0, 0, 1, 0, 0, 0, 0, 0, 0, 0, 0xff]),
        Err(DemoniteErr::Serialize(_))
    ));
    // a mode field cut short
    assert_eq!(decode_error(&[3, 0, 0, 0, 1]), None);
}

#[test]
fn answer_carries_the_dispatched_outcome() {
    let s = calculator();
    let args = bincode::serialize(&(1u32, 2u32)).unwrap();
    let request = s.encode_call(0, &args).unwrap();
    let reply = s.answer(&request, |c: Call| dispatch(&c)).unwrap();
    let expected = bincode::serialize(&3u32).unwrap();
    assert_eq!(decode_reply(&reply), Ok(expected));
}

#[test]
fn answer_drops_requests_that_hold_no_call() {
    let s = calculator();
    let mut called = false;
    let r = s.answer(&[7, 0, 0, 0], |c: Call| {
        called = true;
        dispatch(&c)
    });
    assert_eq!(r, None);
    assert!(!called);
}

#[test]
fn answers_to_successive_requests_follow_their_own_calls() {
    let s = calculator();
    let first = s.encode_call(2, &[1, 1]).unwrap();
    let second = s.encode_call(2, &[2, 2, 2]).unwrap();
    let r2 = s.answer(&second, |c: Call| dispatch(&c)).unwrap();
    let r1 = s.answer(&first, |c: Call| dispatch(&c)).unwrap();
    assert_eq!(decode_reply(&r1), Ok(vec![1, 1]));
    assert_eq!(decode_reply(&r2), Ok(vec![2, 2, 2]));
}

#[test]
fn error_type_is_reachable_from_the_crate_root() {
    let e: demonite::DemoniteErr = DemoniteErr::AlreadyRunning;
    assert_eq!(decode_error(&encode_error(&e)), Some(DemoniteErr::AlreadyRunning));
}
