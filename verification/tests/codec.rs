use rclip::codec::{decode_response, str_eq, str_starts_with, ClipboardCmd, Response};

#[test]
fn encode_read() {
    let cmd = ClipboardCmd { name: String::from("READ"), text: None };
    assert_eq!(cmd.encode(), "READ:");
}

#[test]
fn encode_clear() {
    let cmd = ClipboardCmd { name: String::from("CLEAR"), text: Some(String::new()) };
    assert_eq!(cmd.encode(), "CLEAR:");
}

#[test]
fn encode_clear_ignores_text() {
    let cmd = ClipboardCmd { name: String::from("CLEAR"), text: Some(String::from("leftover")) };
    assert_eq!(cmd.encode(), "CLEAR:");
}

#[test]
fn encode_write_with_text() {
    let cmd = ClipboardCmd { name: String::from("WRITE"), text: Some(String::from("abc")) };
    assert_eq!(cmd.encode(), "WRITE:abc");
}

#[test]
fn encode_write_without_text() {
    let cmd = ClipboardCmd { name: String::from("WRITE"), text: None };
    assert_eq!(cmd.encode(), "WRITE:");
}

#[test]
fn write_payload_with_colons_round_trips() {
    let cmd = ClipboardCmd { name: String::from("WRITE"), text: Some(String::from("a:b")) };
    let wire = cmd.encode();
    assert_eq!(wire, "WRITE:a:b");
    assert_eq!(&wire["WRITE:".len()..], "a:b");
}

#[test]
fn success_payload_round_trips_through_decode() {
    let payload = "a:b:c";
    let wire = format!("SUCCESS:{}", payload);
    match decode_response(&wire) {
        Response::Success(p) => assert_eq!(p, payload),
        Response::Failure(_) => panic!("success wire decoded as failure"),
    }
}

#[test]
fn decode_success_empty_payload() {
    match decode_response("SUCCESS:") {
        Response::Success(p) => assert_eq!(p, ""),
        Response::Failure(_) => panic!("success wire decoded as failure"),
    }
}

#[test]
fn decode_success_hello() {
    match decode_response("SUCCESS:hello") {
        Response::Success(p) => assert_eq!(p, "hello"),
        Response::Failure(_) => panic!("success wire decoded as failure"),
    }
}

#[test]
fn decode_failure_keeps_whole_text() {
    match decode_response("Unknown certificate issuer.") {
        Response::Success(_) => panic!("failure wire decoded as success"),
        Response::Failure(m) => assert_eq!(m, "Unknown certificate issuer."),
    }
}

#[test]
fn decode_marker_must_lead() {
    match decode_response("xSUCCESS:hello") {
        Response::Success(_) => panic!("marker not at the start must fail"),
        Response::Failure(m) => assert_eq!(m, "xSUCCESS:hello"),
    }
}

#[test]
fn prefix_test_behaves() {
    assert!(str_starts_with("SUCCESS:hi", "SUCCESS:"));
    assert!(!str_starts_with("SUCCES", "SUCCESS:"));
    assert!(str_starts_with("anything", ""));
    assert!(!str_starts_with("", "a"));
}

#[test]
fn string_equality_behaves() {
    assert!(str_eq("READ", "READ"));
    assert!(!str_eq("READ", "READ:"));
    assert!(!str_eq("", "x"));
}
