use webview::{
    bridge_script, current_uri, decode_payload, invoke_message_name, load_plan, plan_for_html,
    plan_for_request, Load, LoadPlan,
};

#[test]
fn bridge_script_text() {
    let script = bridge_script();
    assert!(script.contains("window.external"));
    assert_eq!(
        script,
        r#"
            window.external = {
                invoke: function(arg) {
                    webkit.messageHandlers.invoke.postMessage(JSON.stringify(arg));
                }
            };
        "#
    );
}

#[test]
fn invoke_name_is_invoke() {
    assert_eq!(invoke_message_name(), "invoke");
}

#[test]
fn decode_payload_valid_utf8() {
    let bytes = "{\"cmd\":\"ping\"}".as_bytes().to_vec();
    assert_eq!(decode_payload(bytes), Some("{\"cmd\":\"ping\"}".to_string()));
}

#[test]
fn decode_payload_invalid_utf8() {
    assert_eq!(decode_payload(vec![0xff, 0xfe, 0x41]), None);
}

#[test]
fn decode_payload_empty() {
    assert_eq!(decode_payload(Vec::new()), Some(String::new()));
}

#[test]
fn current_uri_absent() {
    assert!(current_uri(None).is_none());
}

#[test]
fn current_uri_empty_bytes() {
    assert!(current_uri(Some(Vec::new())).is_none());
}

#[test]
fn current_uri_parses_location() {
    let raw = b"https://example.com/a/b?q=1".to_vec();
    let uri = current_uri(Some(raw)).expect("a well-formed location parses");
    assert_eq!(uri.to_string(), "https://example.com/a/b?q=1");
    assert_eq!(uri.path(), "/a/b");
}

#[test]
fn current_uri_rejects_garbage() {
    assert!(current_uri(Some(b"http://[not a uri".to_vec())).is_none());
}

#[test]
fn plan_for_html_echoes_parts() {
    let plan = plan_for_html("<p>hi</p>", "https://example.com/".to_string());
    match plan {
        LoadPlan::Html { html, base } => {
            assert_eq!(html, "<p>hi</p>");
            assert_eq!(base, "https://example.com/");
        }
        _ => panic!("expected an HTML plan"),
    }
}

#[test]
fn plan_for_request_echoes_parts() {
    let headers = vec![("accept".to_string(), b"text/html".to_vec())];
    let plan = plan_for_request("POST".to_string(), "https://example.com/x".to_string(), headers);
    match plan {
        LoadPlan::Request(p) => {
            assert_eq!(p.method, "POST");
            assert_eq!(p.uri, "https://example.com/x");
            assert_eq!(p.headers, vec![("accept".to_string(), b"text/html".to_vec())]);
        }
        _ => panic!("expected a request plan"),
    }
}

#[test]
fn load_plan_html_renders_base() {
    let base = http::Uri::try_from("https://example.com/docs/").unwrap();
    let plan = load_plan(&Load::Html { data: "<h1>t</h1>", base });
    match plan {
        LoadPlan::Html { html, base } => {
            assert_eq!(html, "<h1>t</h1>");
            assert_eq!(base, "https://example.com/docs/");
        }
        _ => panic!("expected an HTML plan"),
    }
}

#[test]
fn load_plan_request_renders_parts() {
    let req = http::Request::builder()
        .method("POST")
        .uri("https://example.com/submit")
        .header("content-type", "application/json")
        .header("x-token", "abc")
        .body(())
        .unwrap();
    let plan = load_plan(&Load::Request(req));
    match plan {
        LoadPlan::Request(p) => {
            assert_eq!(p.method, "POST");
            assert_eq!(p.uri, "https://example.com/submit");
            assert_eq!(
                p.headers,
                vec![
                    ("content-type".to_string(), b"application/json".to_vec()),
                    ("x-token".to_string(), b"abc".to_vec()),
                ]
            );
        }
        _ => panic!("expected a request plan"),
    }
}

#[test]
fn load_plan_request_default_method() {
    let req = http::Request::builder().uri("https://example.com/").body(()).unwrap();
    let plan = load_plan(&Load::Request(req));
    match plan {
        LoadPlan::Request(p) => {
            assert_eq!(p.method, "GET");
            assert_eq!(p.uri, "https://example.com/");
            assert!(p.headers.is_empty());
        }
        _ => panic!("expected a request plan"),
    }
}
