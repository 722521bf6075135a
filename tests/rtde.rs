use universal_robot::codec::PackageType;
use universal_robot::data::DataType;
use universal_robot::recipe::{csv_bytes, parse_types, recipe_bytes};
use universal_robot::rtde::{frame_bytes, Exchange, Session, MAX_READ_ATTEMPTS, MESSAGE_HISTORY};
use universal_robot::types::{Level, Payload, Protocol, Recipe};
use universal_robot::Error;

fn answer(t: PackageType, body: &[u8]) -> Payload {
    Payload::new(t, body.to_vec(), None).unwrap()
}

fn with_header(size: u16, tag: u8, body: &[u8]) -> Vec<u8> {
    let mut v = vec![(size >> 8) as u8, size as u8, tag];
    v.extend_from_slice(body);
    v
}

#[test]
fn output_recipe_request_frames_rate_and_names() {
    let s = Session::new();
    let bytes = s.setup_output_request(&["timestamp"], 125.0f64.to_bits()).unwrap();
    let mut body = 125.0f64.to_be_bytes().to_vec();
    body.extend_from_slice(b"timestamp\r\n");
    assert_eq!(bytes, with_header(3 + body.len() as u16, 79, &body));
}

#[test]
fn end_to_end_output_recipe_start_pause_and_write() {
    let mut s = Session::new();
    let rate = 125.0f64.to_bits();
    s.setup_output_request(&["timestamp"], rate).unwrap();
    let mut reply = vec![1u8];
    reply.extend_from_slice(b"DOUBLE");
    let recipe = s.accept_setup_output(&answer(PackageType::SetupOutputs, &reply), rate).unwrap();
    assert_eq!(recipe.id(), 1);
    assert_eq!(recipe.get_types(), vec![DataType::F64]);
    assert_eq!(s.output_types(), vec![DataType::F64]);
    assert_eq!(s.rate_bits(), Some(rate));
    assert_eq!(s.start_request().unwrap(), vec![0, 3, 83]);
    assert!(Session::accept_start(&[1]).is_ok());
    assert_eq!(Session::pause_request(), vec![0, 3, 80]);
    assert!(Session::accept_pause(&[1]).is_ok());
    let frame = Session::data_frame(&7.5f64.to_be_bytes(), 42).unwrap();
    let mut body = vec![42u8];
    body.extend_from_slice(&7.5f64.to_be_bytes());
    assert_eq!(frame, with_header(12, 85, &body));
}

#[test]
fn second_output_recipe_is_refused() {
    let mut s = Session::new();
    let rate = 500.0f64.to_bits();
    let mut reply = vec![1u8];
    reply.extend_from_slice(b"DOUBLE");
    s.accept_setup_output(&answer(PackageType::SetupOutputs, &reply), rate).unwrap();
    assert!(s.has_output());
    let r = s.setup_output_request(&["timestamp"], rate);
    assert!(matches!(r, Err(Error::Static(_))));
}

#[test]
fn start_without_output_recipe_fails() {
    let s = Session::new();
    assert!(matches!(s.start_request(), Err(Error::Static(_))));
}

#[test]
fn pause_is_accepted_without_start() {
    let s = Session::new();
    assert!(!s.has_output());
    assert_eq!(Session::pause_request(), vec![0, 3, 80]);
    assert!(Session::accept_pause(&[1]).is_ok());
}

#[test]
fn refused_start_and_pause_are_errors() {
    assert!(matches!(Session::accept_start(&[0]), Err(Error::Static(_))));
    assert!(matches!(Session::accept_pause(&[0]), Err(Error::Static(_))));
    assert!(matches!(Session::accept_pause(&[7]), Err(Error::Deserialization(_))));
}

#[test]
fn output_answer_of_wrong_type_is_unexpected() {
    let mut s = Session::new();
    let r = s.accept_setup_output(&answer(PackageType::Data, &[1]), 0);
    match r {
        Err(Error::UnexpectedResponse(text)) => assert!(text.contains("Data")),
        other => panic!("{:?}", other),
    }
    assert!(!s.has_output());
}

#[test]
fn empty_output_answer_is_a_decode_error() {
    let mut s = Session::new();
    let r = s.accept_setup_output(&answer(PackageType::SetupOutputs, &[]), 0);
    assert!(matches!(r, Err(Error::Deserialization(_))));
}

#[test]
fn test_start_stop() {
    let mut s = Session::new();
    let names = [
        "actual_digital_output_bits",
        "timestamp",
        "actual_TCP_pose",
        "actual_TCP_speed",
        "actual_q",
        "safety_mode",
        "robot_mode",
    ];
    s.setup_output_request(&names, 500.0f64.to_bits()).unwrap();
    let mut reply = vec![1u8];
    reply.extend_from_slice(b"UINT64,DOUBLE,VECTOR6D,VECTOR6D,VECTOR6D,INT32,INT32");
    let resp = s
        .accept_setup_output(&answer(PackageType::SetupOutputs, &reply), 500.0f64.to_bits())
        .unwrap();
    assert_eq!(
        resp.get_types(),
        vec![
            DataType::U64,
            DataType::F64,
            DataType::Vec6,
            DataType::Vec6,
            DataType::Vec6,
            DataType::I32,
            DataType::I32
        ]
    );
    assert!(s.start_request().is_ok());
    assert!(Session::accept_start(&[1]).is_ok());
    assert!(Session::accept_pause(&[1]).is_ok());
}

#[test]
fn test_setup_inputs() {
    let bytes = Session::setup_input_request(&["input_int_register_0"]).unwrap();
    assert_eq!(bytes, with_header(25, 73, b"input_int_register_0\r\n"));
    let mut reply = vec![1u8];
    reply.extend_from_slice(b"INT32");
    let resp = Session::accept_setup_input(&answer(PackageType::SetupInputs, &reply), &["input_int_register_0"])
        .unwrap();
    assert_eq!((resp.id(), resp.get_types()), (1, vec![DataType::I32]));
    let mut reply = vec![2u8];
    reply.extend_from_slice(b"DOUBLE");
    let resp =
        Session::accept_setup_input(&answer(PackageType::SetupInputs, &reply), &["input_double_register_1"])
            .unwrap();
    assert_eq!((resp.id(), resp.get_types()), (2, vec![DataType::F64]));
}

#[test]
fn rejected_input_recipe_names_the_variables() {
    let r = Session::accept_setup_input(&answer(PackageType::SetupInputs, b"\0IN_USE"), &["a", "b"]);
    match r {
        Err(Error::UnexpectedResponse(text)) => assert!(text.contains("a,b")),
        other => panic!("{:?}", other),
    }
    let r = Session::accept_setup_input(&answer(PackageType::SetupOutputs, b"\x01INT32"), &["a"]);
    assert!(matches!(r, Err(Error::UnexpectedResponse(_))));
}

#[test]
fn unknown_type_names_are_not_found() {
    let types = parse_types(b"DOUBLE,NOT_FOUND,,bool").unwrap();
    assert_eq!(types, vec![DataType::F64, DataType::NotFound, DataType::NotFound, DataType::Bool]);
    assert_eq!(parse_types(b"").unwrap(), vec![DataType::NotFound]);
}

#[test]
fn invalid_utf8_type_names_fail() {
    assert!(matches!(parse_types(&[b'a', 0xff, b',', b'b']), Err(Error::Deserialization(_))));
    assert!(matches!(parse_types(&[b'a', b',', 0xc3]), Err(Error::Deserialization(_))));
}

#[test]
fn recipe_names_are_joined_with_commas() {
    assert_eq!(recipe_bytes(&["a", "bc"]), b"a,bc\r\n".to_vec());
    assert_eq!(recipe_bytes(&[]), b"\r\n".to_vec());
    assert_eq!(csv_bytes(&["x", "y", "z"]), b"x,y,z".to_vec());
}

#[test]
fn oversized_frames_fail_to_encode() {
    let big = vec![0u8; 65533];
    assert!(matches!(frame_bytes(PackageType::Data, &big), Err(Error::Serialization(_))));
    assert!(matches!(Session::data_frame(&big[..65532], 1), Err(Error::Serialization(_))));
    assert!(Session::data_frame(&big[..65531], 1).is_ok());
}

#[test]
fn test_set_protocol() {
    let mut s = Session::new();
    assert_eq!(Session::protocol_request(Protocol::V2), vec![0, 5, 86, 0, 2]);
    assert_eq!(s.protocol_version(), Protocol::V1);
    s.accept_protocol(Protocol::V2, &[1]).unwrap();
    assert_eq!(s.protocol_version(), Protocol::V2);
}

#[test]
fn refused_protocol_keeps_the_old_version() {
    let mut s = Session::new();
    assert!(matches!(s.accept_protocol(Protocol::V2, &[0]), Err(Error::Static(_))));
    assert_eq!(s.protocol_version(), Protocol::V1);
}

#[test]
fn test_send_message() {
    let bytes = Session::message_frame("Hello World", "Rust", Level::Info).unwrap();
    let mut body = vec![0, 0, 0, 0, 0, 0, 0, 11];
    body.extend_from_slice(b"Hello World");
    body.extend_from_slice(&[0, 0, 0, 0, 0, 0, 0, 4]);
    body.extend_from_slice(b"Rust");
    body.push(3);
    assert_eq!(bytes, with_header(3 + body.len() as u16, 77, &body));
}

#[test]
fn version_request_is_a_bare_header() {
    assert_eq!(Session::version_request(), vec![0, 3, 118]);
}

#[test]
fn wait_keeps_messages_and_returns_the_awaited_frame() {
    let mut s = Session::new();
    let mut ex = Exchange::new(PackageType::Data, MAX_READ_ATTEMPTS);
    let first = s.receive(&mut ex, answer(PackageType::Message, b"first")).unwrap();
    assert!(first.is_none());
    let second = s.receive(&mut ex, answer(PackageType::Message, b"second")).unwrap();
    assert!(second.is_none());
    let data = s.receive(&mut ex, answer(PackageType::Data, &[1, 0, 0, 0, 9])).unwrap().unwrap();
    assert_eq!(data.value_bytes().unwrap(), vec![0, 0, 0, 9]);
    assert_eq!(ex.reads(), 3);
    assert_eq!(s.messages(), vec!["first".to_string(), "second".to_string()]);
    assert_eq!(s.close(), vec!["first".to_string(), "second".to_string()]);
}

#[test]
fn wait_drops_other_frames() {
    let mut s = Session::new();
    let mut ex = Exchange::new(PackageType::Start, MAX_READ_ATTEMPTS);
    assert!(s.receive(&mut ex, answer(PackageType::Data, &[1, 2])).unwrap().is_none());
    let p = s.receive(&mut ex, answer(PackageType::Start, &[1])).unwrap().unwrap();
    assert!(Session::accept_start(&p.payload).is_ok());
    assert!(s.messages().is_empty());
}

#[test]
fn wait_gives_up_after_the_allowed_reads() {
    let mut s = Session::new();
    let mut ex = Exchange::new(PackageType::Pause, 3);
    assert!(s.receive(&mut ex, answer(PackageType::Data, &[1])).unwrap().is_none());
    assert!(s.receive(&mut ex, answer(PackageType::Data, &[1])).unwrap().is_none());
    let r = s.receive(&mut ex, answer(PackageType::Data, &[1]));
    assert!(matches!(r, Err(Error::MaxReads(PackageType::Pause))));
    let r = s.receive(&mut ex, answer(PackageType::Pause, &[1]));
    assert!(matches!(r, Err(Error::MaxReads(PackageType::Pause))));
    assert_eq!(ex.reads(), 3);
}

#[test]
fn message_history_drops_the_oldest() {
    let mut s = Session::new();
    let mut ex = Exchange::new(PackageType::Pause, MAX_READ_ATTEMPTS);
    for i in 0..MESSAGE_HISTORY + 2 {
        let text = format!("m{}", i);
        s.receive(&mut ex, answer(PackageType::Message, text.as_bytes())).unwrap();
    }
    let kept = s.messages();
    assert_eq!(kept.len(), MESSAGE_HISTORY);
    assert_eq!(kept[0], "m2");
    assert_eq!(kept[MESSAGE_HISTORY - 1], format!("m{}", MESSAGE_HISTORY + 1));
}

#[test]
fn invalid_utf8_messages_are_kept_lossily() {
    let mut s = Session::new();
    let mut ex = Exchange::new(PackageType::Pause, MAX_READ_ATTEMPTS);
    s.receive(&mut ex, answer(PackageType::Message, &[b'a', 0xff])).unwrap();
    assert_eq!(s.messages(), vec!["a\u{fffd}".to_string()]);
}

#[test]
fn recipe_accessors() {
    let r = Recipe::new(4, vec![DataType::Bool, DataType::U8]);
    assert_eq!(r.id(), 4);
    assert_eq!(r.get_types(), vec![DataType::Bool, DataType::U8]);
}
