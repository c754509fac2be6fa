use middle::{HostRequestResponse, HostRequestType, RequestBuilder};
use serde_json::Value;

fn response(body: &str) -> HostRequestResponse {
    HostRequestResponse { http_code: 404, headers: vec![], body: body.to_string() }
}

#[test]
fn response_gives_code_and_body() {
    let r = response("not here");
    assert_eq!(r.code(), 404);
    assert_eq!(r.body(), "not here");
}

#[test]
fn response_body_is_read_as_json() {
    assert_eq!(response("[true]").json().unwrap(), Value::Array(vec![Value::Bool(true)]));
    assert!(response("not json").json().is_err());
}

#[test]
fn new_request_has_nothing_set() {
    let b = RequestBuilder::new("http://example.test".to_string(), HostRequestType::Put);
    assert_eq!(
        b,
        RequestBuilder {
            url: "http://example.test".to_string(),
            method: HostRequestType::Put,
            headers: None,
            basic_auth: None,
            bearer_auth: None,
            body: None,
            timeout: None,
            form: None,
            json: None,
        }
    );
}

#[test]
fn get_and_post_set_the_method() {
    assert_eq!(
        RequestBuilder::get("u"),
        RequestBuilder::new("u".to_string(), HostRequestType::Get)
    );
    assert_eq!(
        RequestBuilder::post("u"),
        RequestBuilder::new("u".to_string(), HostRequestType::Post)
    );
}

#[test]
fn builder_steps_set_one_thing_each() {
    let b = RequestBuilder::get("u")
        .with_json(Value::Null)
        .with_bearer_auth("token".to_string())
        .set_basic_auth("user", "secret");
    assert_eq!(b.json, Some(Value::Null));
    assert_eq!(b.bearer_auth, Some("token".to_string()));
    assert_eq!(b.basic_auth, Some(("user".to_string(), "secret".to_string())));
    assert_eq!(b.url, "u");
    assert_eq!(b.method, HostRequestType::Get);
    assert_eq!(b.form, None);
}

#[test]
fn form_keys_are_kept_in_the_order_they_were_set() {
    let b = RequestBuilder::post("u").set_form_key("a", "1").set_form_key("b", "2").set_form_key("a", "3");
    assert_eq!(
        b.form,
        Some(vec![
            ("a".to_string(), "1".to_string()),
            ("b".to_string(), "2".to_string()),
            ("a".to_string(), "3".to_string()),
        ])
    );
    assert_eq!(b.json, None);
}
