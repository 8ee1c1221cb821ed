use wireman::grpcurl::grpcurl;
use wireman::history::Snapshot;

#[test]
fn grpcurl_line_holds_body_headers_address_and_method() {
    let snapshot = Snapshot {
        address: "localhost:50051".to_string(),
        metadata: vec![
            ("authorization".to_string(), "Bearer abc".to_string()),
            ("x-id".to_string(), "7".to_string()),
        ],
        request: "{\n  \"name\": \"John\"\n}".to_string(),
    };
    assert_eq!(
        grpcurl(&snapshot, "greeter.Greeter", "SayHello"),
        "grpcurl -d '{  \"name\": \"John\"}' -H 'authorization: Bearer abc' -H 'x-id: 7' localhost:50051 greeter.Greeter/SayHello"
    );
}

#[test]
fn grpcurl_line_without_headers_and_body() {
    let snapshot = Snapshot { address: String::new(), metadata: vec![], request: "\n\n".to_string() };
    assert_eq!(grpcurl(&snapshot, "S", "M"), "grpcurl -d ''  S/M");
}
