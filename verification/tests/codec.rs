use xplane_udp_bridge::error::InvalidUdpRequestError;
use xplane_udp_bridge::request::{
    encode_request, RequestDataType, RequestOperation, RequestType, UdpRequest,
};
use xplane_udp_bridge::response::{Status, UdpResponse};

#[test]
fn encode_request_builds_the_wire_message() {
    let msg = encode_request(
        RequestType::DataRef,
        RequestOperation::Read,
        RequestDataType::Float,
        "sim/cockpit2/controls/parking_brake_ratio",
    );
    assert_eq!(msg, "dataref|read|float|sim/cockpit2/controls/parking_brake_ratio");
}

#[test]
fn decode_undoes_encode_for_every_data_type() {
    let cases = vec![
        (RequestDataType::Int, "int"),
        (RequestDataType::Float, "float"),
        (RequestDataType::IntArray, "[int]"),
        (RequestDataType::FloatArray, "[float]"),
    ];
    for (dt, token) in cases {
        let msg = encode_request(RequestType::DataRef, RequestOperation::Read, dt, "sim/a/b");
        assert_eq!(msg, format!("dataref|read|{}|sim/a/b", token));
        let req = UdpRequest::new(msg).expect("a freshly encoded message must decode");
        assert_eq!(req.get_data_type(), dt);
        assert_eq!(req.get_data(), "sim/a/b");
        assert_eq!(req.body(), "sim/a/b");
    }
}

#[test]
fn decode_rejects_three_fields_as_malformed() {
    let r = UdpRequest::new(String::from("dataref|read|float"));
    assert!(matches!(r, Err(InvalidUdpRequestError::InvalidMessageFormat { .. })));
}

#[test]
fn decode_rejects_five_fields_as_malformed() {
    let r = UdpRequest::new(String::from("extra|dataref|read|float|sim/x"));
    assert!(matches!(r, Err(InvalidUdpRequestError::InvalidMessageFormat { .. })));
}

#[test]
fn decode_rejects_empty_message_as_malformed() {
    let r = UdpRequest::new(String::new());
    assert!(matches!(r, Err(InvalidUdpRequestError::InvalidMessageFormat { .. })));
}

#[test]
fn decode_rejects_unknown_category() {
    let r = UdpRequest::new(String::from("command|read|float|sim/x"));
    match r {
        Err(InvalidUdpRequestError::UnrecognizedRequestType { request_type }) => {
            assert_eq!(request_type, "command");
        }
        _ => panic!("an unknown category must be rejected as such"),
    }
}

#[test]
fn decode_rejects_unknown_operation() {
    let r = UdpRequest::new(String::from("dataref|write|float|sim/x"));
    match r {
        Err(InvalidUdpRequestError::UnsupportedOperation { operation }) => {
            assert_eq!(operation, "write");
        }
        _ => panic!("an unknown operation must be rejected as such"),
    }
}

#[test]
fn decode_rejects_unknown_data_type() {
    let r = UdpRequest::new(String::from("dataref|read|double|sim/x"));
    match r {
        Err(InvalidUdpRequestError::MismatchedDataType { data_type }) => {
            assert_eq!(data_type, "double");
        }
        _ => panic!("an unknown data type must be rejected as such"),
    }
}

#[test]
fn decode_takes_the_body_verbatim() {
    let req = UdpRequest::new(String::from("dataref|read|int|")).expect("empty body is accepted");
    assert_eq!(req.get_data(), "");
    let req = UdpRequest::new(String::from("dataref|read|int| spaced body "))
        .expect("body with spaces is accepted");
    assert_eq!(req.get_data(), " spaced body ");
}

#[test]
fn decode_error_messages_describe_the_input() {
    let e = UdpRequest::new(String::from("dataref|read|float")).unwrap_err();
    assert_eq!(e.message(), "UDP request message format is invalid: dataref|read|float");
    let e = UdpRequest::new(String::from("dataref|write|float|x")).unwrap_err();
    assert_eq!(e.message(), "UDP request operation is unsupported: write");
}

#[test]
fn selector_is_the_three_leading_tokens() {
    let req = UdpRequest::new(String::from("dataref|read|[float]|sim/x")).unwrap();
    assert_eq!(req.parse_handler_selector(), "dataref|read|[float]");
    let req = UdpRequest::new(String::from("dataref|read|int|sim/x")).unwrap();
    assert_eq!(req.parse_handler_selector(), "dataref|read|int");
}

#[test]
fn token_accessors_return_the_wire_tokens() {
    assert_eq!(RequestType::DataRef.as_str(), "dataref");
    assert_eq!(RequestOperation::Read.as_str(), "read");
    assert_eq!(RequestDataType::Int.as_str(), "int");
    assert_eq!(RequestDataType::Float.as_str(), "float");
    assert_eq!(RequestDataType::IntArray.as_str(), "[int]");
    assert_eq!(RequestDataType::FloatArray.as_str(), "[float]");
}

#[test]
fn response_serialize_joins_code_phrase_and_body() {
    assert_eq!(UdpResponse::ok(String::from("1.0")).serialize(), "200|OK|1.0");
    assert_eq!(
        UdpResponse::error(Status::BadRequest, String::from("nope")).serialize(),
        "400|Bad Request|nope"
    );
    assert_eq!(
        UdpResponse::error(Status::InternalServerError, String::from("boom")).serialize(),
        "500|Internal Server Error|boom"
    );
}
