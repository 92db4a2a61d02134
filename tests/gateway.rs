use api_gateway::{
    echo_path, is_success_status, lookup_text, CallOutcome, ContentType, FilePathRequest,
    GatewayConfig, GatewayError, ImageUrlRequest, JsonField, OutboundCall, Route, Service, Step,
    UploadMetadata, DEFAULT_TIMEOUT_SECS,
};

fn text(key: &str, value: &str) -> JsonField {
    JsonField { key: key.to_string(), text: Some(value.to_string()) }
}

fn upload_fields(request_id: &str) -> Vec<JsonField> {
    vec![
        text("season", "FW24"),
        text("show_name", "Paris"),
        text("designer", "A. Designer"),
        text("description", "look 12"),
        text("final_image_key", "images/fw24/12.png"),
        text("label", "couture"),
        text("type", "runway"),
        text("requestId", request_id),
    ]
}

fn forwarded(step: Step) -> OutboundCall {
    match step {
        Step::Forward(call) => call,
        other => panic!("expected a forwarded call, got {:?}", other),
    }
}

fn rejected(step: Step) -> GatewayError {
    match step {
        Step::Reject(e) => e,
        other => panic!("expected a rejection, got {:?}", other),
    }
}

fn malformed_detail(e: GatewayError) -> String {
    match e {
        GatewayError::MalformedPayload { detail } => detail,
        other => panic!("expected a malformed payload, got {:?}", other),
    }
}

#[test]
fn url_scenario_replies_with_request_id() {
    let config = GatewayConfig::local();
    let fields = vec![text("url", "http://example.com/a.png"), text("requestId", "r1")];
    let call = forwarded(config.accept(Route::Url, Ok(fields)));
    assert_eq!(call.service, Service::SaveImage);
    assert_eq!(call.target, "http://localhost:3032/url");
    assert_eq!(call.request_id, "r1");
    assert_eq!(call.body, r#"{"url":"http://example.com/a.png","requestId":"r1"}"#);
    let reply = call
        .complete(CallOutcome::Responded { status: 200, resolved_url: None })
        .unwrap();
    assert_eq!(reply.status, 200);
    assert_eq!(reply.content_type, ContentType::Json);
    assert_eq!(reply.body, r#"{"message":"URL sent successfully","requestId":"r1"}"#);
}

#[test]
fn url_scenario_relays_resolved_url() {
    let config = GatewayConfig::local();
    let fields = vec![text("url", "http://example.com/a.png"), text("requestId", "r1")];
    let call = forwarded(config.accept(Route::Url, Ok(fields)));
    let reply = call
        .complete(CallOutcome::Responded {
            status: 200,
            resolved_url: Some("http://cdn/a.png".to_string()),
        })
        .unwrap();
    assert_eq!(
        reply.body,
        r#"{"message":"URL sent successfully","requestId":"r1","url":"http://cdn/a.png"}"#
    );
    let v: serde_json::Value = serde_json::from_str(&reply.body).unwrap();
    assert_eq!(v["requestId"], "r1");
}

#[test]
fn dynamo_scenario_forwards_metadata() {
    let config = GatewayConfig::local();
    let call = forwarded(config.accept(Route::Dynamo, Ok(upload_fields("r2"))));
    assert_eq!(call.service, Service::StorageWrite);
    assert_eq!(call.target, "http://localhost:3033/upload");
    assert_eq!(call.request_id, "r2");
    assert_eq!(call.timeout_secs, 30);
    assert_eq!(
        call.body,
        r#"{"season":"FW24","show_name":"Paris","designer":"A. Designer","description":"look 12","final_image_key":"images/fw24/12.png","label":"couture","type":"runway","requestId":"r2"}"#
    );
    let reply = call
        .complete(CallOutcome::Responded { status: 201, resolved_url: None })
        .unwrap();
    assert_eq!(reply.status, 200);
    assert_eq!(reply.content_type, ContentType::Html);
    assert_eq!(reply.body, "Received metadata successfully");
}

#[test]
fn upload_body_round_trips_through_json() {
    let config = GatewayConfig::local();
    let mut fields = upload_fields("id \"7\"\n\\x");
    fields[3] = text("description", "tab\there, ctrl\u{1}, \u{e9}\u{1F600}");
    let call = forwarded(config.accept(Route::Dynamo, Ok(fields.clone())));
    let v: serde_json::Value = serde_json::from_str(&call.body).unwrap();
    let object = v.as_object().unwrap();
    assert_eq!(object.len(), 8);
    for f in &fields {
        assert_eq!(object[&f.key].as_str(), f.text.as_deref());
    }
    assert_eq!(call.request_id, "id \"7\"\n\\x");
}

#[test]
fn unreachable_service_is_transport_failure() {
    let call = forwarded(GatewayConfig::local().accept(
        Route::Url,
        Ok(vec![text("url", "http://example.com/a.png"), text("requestId", "r3")]),
    ));
    let err = call
        .complete(CallOutcome::Unreachable { cause: "connection refused".to_string() })
        .unwrap_err();
    assert!(matches!(&err, GatewayError::TransportFailure { cause } if cause == "connection refused"));
    assert_eq!(err.http_status(), 502);
    assert_eq!(err.message(), "HTTP request error: connection refused");
}

#[test]
fn timed_out_call_is_timeout() {
    let call = forwarded(GatewayConfig::local().accept(Route::Dynamo, Ok(upload_fields("r4"))));
    assert_eq!(call.timeout_secs, DEFAULT_TIMEOUT_SECS);
    let err = call.complete(CallOutcome::TimedOut).unwrap_err();
    assert!(matches!(err, GatewayError::Timeout));
    assert_eq!(err.http_status(), 502);
    assert_eq!(err.message(), "Request timed out");
}

#[test]
fn configured_timeout_is_carried() {
    let config = GatewayConfig {
        storage_write_url: "http://store/upload".to_string(),
        save_image_url: "http://save/url".to_string(),
        timeout_secs: 5,
    };
    let call = forwarded(config.accept(
        Route::Url,
        Ok(vec![text("url", "u"), text("requestId", "r5")]),
    ));
    assert_eq!(call.target, "http://save/url");
    assert_eq!(call.timeout_secs, 5);
}

#[test]
fn non_success_status_is_downstream_rejected() {
    let call = forwarded(GatewayConfig::local().accept(Route::Dynamo, Ok(upload_fields("r6"))));
    for status in [100u16, 199, 300, 302, 404, 500, 503] {
        let err = call
            .complete(CallOutcome::Responded {
                status,
                resolved_url: Some("http://cdn/x.png".to_string()),
            })
            .unwrap_err();
        assert!(matches!(err, GatewayError::DownstreamRejected { status: s } if s == status));
        assert_eq!(err.http_status(), 502);
    }
}

#[test]
fn success_status_range() {
    assert!(!is_success_status(199));
    assert!(is_success_status(200));
    assert!(is_success_status(299));
    assert!(!is_success_status(300));
    assert!(!is_success_status(0));
}

#[test]
fn unparsable_body_is_malformed_on_every_route() {
    let config = GatewayConfig::local();
    for route in [Route::Dynamo, Route::Url, Route::Path] {
        let err = rejected(config.accept(route, Err("expected value at line 1 column 1".to_string())));
        assert_eq!(err.http_status(), 400);
        assert_eq!(
            err.message(),
            "Malformed payload: expected value at line 1 column 1"
        );
    }
}

#[test]
fn missing_request_id_is_malformed() {
    let config = GatewayConfig::local();
    let mut fields = upload_fields("r7");
    fields.pop();
    let detail = malformed_detail(rejected(config.accept(Route::Dynamo, Ok(fields))));
    assert_eq!(detail, "missing or non-string field `requestId`");
}

#[test]
fn first_missing_field_is_named() {
    let config = GatewayConfig::local();
    let fields = vec![text("requestId", "r8")];
    let detail = malformed_detail(rejected(config.accept(Route::Dynamo, Ok(fields))));
    assert_eq!(detail, "missing or non-string field `season`");
    let detail = malformed_detail(rejected(config.accept(Route::Url, Ok(vec![]))));
    assert_eq!(detail, "missing or non-string field `url`");
}

#[test]
fn non_string_member_is_malformed() {
    let config = GatewayConfig::local();
    let fields = vec![
        JsonField { key: "url".to_string(), text: None },
        text("requestId", "r9"),
    ];
    let detail = malformed_detail(rejected(config.accept(Route::Url, Ok(fields))));
    assert_eq!(detail, "missing or non-string field `url`");
}

#[test]
fn extra_members_are_ignored() {
    let config = GatewayConfig::local();
    let fields = vec![
        text("extra", "x"),
        text("requestId", "r10"),
        text("url", "http://example.com/b.png"),
    ];
    let call = forwarded(config.accept(Route::Url, Ok(fields)));
    assert_eq!(call.body, r#"{"url":"http://example.com/b.png","requestId":"r10"}"#);
}

#[test]
fn path_is_echoed_without_call() {
    let config = GatewayConfig::local();
    let fields = vec![text("final_image_path", "/img/a.png"), text("requestId", "r11")];
    match config.accept(Route::Path, Ok(fields)) {
        Step::Reply(reply) => {
            assert_eq!(reply.status, 200);
            assert_eq!(
                reply.body,
                r#"{"message":"Received path successfully","final_image_path":"/img/a.png","requestId":"r11"}"#
            );
        }
        other => panic!("expected a reply, got {:?}", other),
    }
    let direct = echo_path(&FilePathRequest {
        final_image_path: "p".to_string(),
        request_id: "q".to_string(),
    });
    assert_eq!(
        direct.body,
        r#"{"message":"Received path successfully","final_image_path":"p","requestId":"q"}"#
    );
}

#[test]
fn quoting_escapes_special_characters() {
    let request = ImageUrlRequest { url: "a\"b\\c\nd".to_string(), request_id: "r12".to_string() };
    assert_eq!(request.to_json(), r#"{"url":"a\"b\\c\nd","requestId":"r12"}"#);
}

#[test]
fn validators_read_members() {
    let m = UploadMetadata::from_fields(&upload_fields("r13")).unwrap();
    assert_eq!(m.type_, "runway");
    assert_eq!(m.request_id, "r13");
    let fields = vec![text("url", "u"), text("url", "v"), text("requestId", "r14")];
    let r = ImageUrlRequest::from_fields(&fields).unwrap();
    assert_eq!(r.url, "u");
    assert_eq!(lookup_text(&fields, "url"), Some("u".to_string()));
    assert_eq!(lookup_text(&fields, "nope"), None);
    let p = FilePathRequest::from_fields(&vec![text("requestId", "r")]).unwrap_err();
    assert_eq!(malformed_detail(p), "missing or non-string field `final_image_path`");
}

#[test]
fn routes_by_path() {
    assert_eq!(Route::from_path(&"dynamo".to_string()), Some(Route::Dynamo));
    assert_eq!(Route::from_path(&"url".to_string()), Some(Route::Url));
    assert_eq!(Route::from_path(&"path".to_string()), Some(Route::Path));
    assert_eq!(Route::from_path(&"upload".to_string()), None);
}

#[test]
fn rejected_message_and_status() {
    let e = GatewayError::DownstreamRejected { status: 500 };
    assert_eq!(e.message(), "Downstream service rejected the request");
    assert_eq!(e.http_status(), 502);
}
