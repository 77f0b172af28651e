use dora_gst_webrtc_sink::node::{
    on_node_event, parse_port, resolve_encoding, route_input, signaling_port, EncodingParameter,
    NodeAction, NodeEvent, PortError,
};

#[test]
fn default_port_is_8080() {
    assert_eq!(signaling_port(None), Ok(8080));
    assert_eq!(signaling_port(Some("9000")), Ok(9000));
    assert_eq!(signaling_port(Some("http")), Err(PortError::InvalidDigit));
}

#[test]
fn port_parsing_agrees_with_std() {
    let cases = [
        "", "+", "-", "0", "8080", "+8080", "-8080", "+-1", "65535", "65536", "99999", "999999a",
        "6553a", "0000000000080", " 80", "80 ", "8_0", "\u{0663}", "1\u{00e9}", "00", "+0",
        "655350", "7x", "x7",
    ];
    for case in cases {
        let expected = case.parse::<u16>();
        let actual = parse_port(case);
        match (expected, actual) {
            (Ok(e), Ok(a)) => assert_eq!(e, a, "{:?}", case),
            (Err(e), Err(a)) => assert_eq!(e.to_string(), a.message(), "{:?}", case),
            (e, a) => panic!("{:?}: std gives {:?}, library gives {:?}", case, e, a),
        }
    }
}

#[test]
fn port_error_kinds() {
    assert_eq!(parse_port(""), Err(PortError::Empty));
    assert_eq!(parse_port("+"), Err(PortError::InvalidDigit));
    assert_eq!(parse_port("65536"), Err(PortError::PosOverflow));
    assert_eq!(parse_port("65535"), Ok(65535));
    assert_eq!(PortError::Empty.message(), "cannot parse integer from empty string");
    assert_eq!(PortError::InvalidDigit.message(), "invalid digit found in string");
    assert_eq!(PortError::PosOverflow.message(), "number too large to fit in target type");
}

#[test]
fn encoding_defaults_to_rgb8_and_is_lowercased() {
    assert_eq!(resolve_encoding(&None), "rgb8");
    assert_eq!(resolve_encoding(&Some(EncodingParameter::Other)), "rgb8");
    assert_eq!(resolve_encoding(&Some(EncodingParameter::Text("RGB8".to_string()))), "rgb8");
    assert_eq!(resolve_encoding(&Some(EncodingParameter::Text("BGR8".to_string()))), "bgr8");
}

#[test]
fn only_rgb8_images_are_forwarded() {
    let forward = on_node_event(NodeEvent::Input {
        id: "image".to_string(),
        encoding: Some(EncodingParameter::Text("Rgb8".to_string())),
        data: Some(vec![1, 2, 3]),
    });
    assert!(matches!(forward, NodeAction::Forward(b) if b == vec![1, 2, 3]));
    let unsupported = on_node_event(NodeEvent::Input {
        id: "image".to_string(),
        encoding: Some(EncodingParameter::Text("YUV420".to_string())),
        data: Some(vec![1]),
    });
    assert!(matches!(unsupported, NodeAction::UnsupportedEncoding(e) if e == "yuv420"));
    let not_bytes = on_node_event(NodeEvent::Input { id: "image".to_string(), encoding: None, data: None });
    assert!(matches!(not_bytes, NodeAction::NotBytes));
    let other_input = on_node_event(NodeEvent::Input { id: "depth".to_string(), encoding: None, data: Some(vec![]) });
    assert!(matches!(other_input, NodeAction::Ignore));
    assert!(matches!(on_node_event(NodeEvent::Stop), NodeAction::Stop));
    assert!(matches!(on_node_event(NodeEvent::Other), NodeAction::Ignore));
}

#[test]
fn route_input_needs_exact_lowercase_encoding() {
    assert!(matches!(route_input("image", "RGB8".to_string(), Some(vec![])), NodeAction::UnsupportedEncoding(_)));
    assert!(matches!(route_input("image", "rgb8".to_string(), Some(vec![9])), NodeAction::Forward(b) if b == vec![9]));
    assert!(matches!(route_input("Image", "rgb8".to_string(), Some(vec![9])), NodeAction::Ignore));
}
