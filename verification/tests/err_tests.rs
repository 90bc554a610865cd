use errdef::define::Error as StdError;
use errdef::define::{ExtraDescError, FileNotFound};
use errdef::err::{Error, ErrorOutTpl, ErrorWrapper};

#[test]
fn render_with_attached_error_round_trips() {
    let responder = Error::new(404).err(StdError(FileNotFound).from_desc("missing"));
    let body = responder.error_response();
    assert_eq!(
        body,
        "{\"error\":{\"status\":404,\"details\":[{\"err_type\":\"file not found\",\"desc\":\"missing\"}]}}"
    );
    assert_eq!(responder.status_code(), 404);
}

#[test]
fn render_is_idempotent() {
    let responder = Error::new(500).err(StdError(FileNotFound).from_desc("gone"));
    let first = responder.error_response();
    let second = responder.error_response();
    assert_eq!(first, second);
    assert_eq!(first.as_bytes(), second.as_bytes());
}

#[test]
fn render_without_error_uses_fallback() {
    let responder = Error::new(500);
    let body = responder.error_response();
    assert_eq!(
        body,
        "{\"error\":{\"status\":500,\"details\":[{\"err_type\":\"unexpected error occured\",\"desc\":\"发生意外错误\"}]}}"
    );
}

#[test]
fn render_with_unregistered_code_uses_placeholder() {
    let responder = Error::new(500).err(StdError(9999).from_desc("odd"));
    let body = responder.error_response();
    assert_eq!(
        body,
        "{\"error\":{\"status\":500,\"details\":[{\"err_type\":\"unkown err\",\"desc\":\"odd\"}]}}"
    );
}

#[test]
fn not_find_setter_selects_result_not_found() {
    let responder = Error::new(404).not_find("no such row");
    let body = responder.error_response();
    assert_eq!(
        body,
        "{\"error\":{\"status\":404,\"details\":[{\"err_type\":\"result not found\",\"desc\":\"no such row\"}]}}"
    );
}

#[test]
fn invalid_data_setter_selects_invalid_message_data() {
    let responder = Error::new(400).invalid_data("bad body");
    let body = responder.error_response();
    assert_eq!(
        body,
        "{\"error\":{\"status\":400,\"details\":[{\"err_type\":\"invalid message data\",\"desc\":\"bad body\"}]}}"
    );
}

#[test]
fn transport_failure_is_internal_server_invalid_data() {
    let responder = Error::transport_failure("stream closed early");
    assert_eq!(responder.status_code(), 500);
    let body = responder.error_response();
    assert_eq!(
        body,
        "{\"error\":{\"status\":500,\"details\":[{\"err_type\":\"invalid message data\",\"desc\":\"stream closed early\"}]}}"
    );
}

#[test]
fn rendered_description_is_escaped() {
    let responder = Error::new(500).invalid_data("say \"hi\"\nback\\slash");
    let body = responder.error_response();
    assert_eq!(
        body,
        "{\"error\":{\"status\":500,\"details\":[{\"err_type\":\"invalid message data\",\"desc\":\"say \\\"hi\\\"\\nback\\\\slash\"}]}}"
    );
}

#[test]
fn rendered_body_parses_back_to_the_inputs() {
    let desc = "tricky \"quote\" and \\ and \n and \t and \u{1} end";
    let responder = Error::new(502).err(StdError(FileNotFound).from_desc(desc));
    let body = responder.error_response();
    let value: serde_json::Value = serde_json::from_str(&body).unwrap();
    assert_eq!(value["error"]["status"], 502);
    let details = value["error"]["details"].as_array().unwrap();
    assert_eq!(details.len(), 1);
    assert_eq!(details[0]["err_type"], "file not found");
    assert_eq!(details[0]["desc"], desc);
}

#[test]
fn wrapper_without_error_has_empty_details() {
    let responder = Error::new(400);
    let wrapper = ErrorWrapper::new_from_error(&responder);
    assert_eq!(wrapper.status, 400);
    assert!(wrapper.details.is_empty());
    let tpl = ErrorOutTpl::new_from_error(&responder);
    assert_eq!(tpl.to_json(), "{\"error\":{\"status\":400,\"details\":[]}}");
}

#[test]
fn wrapper_with_error_has_one_detail() {
    let responder = Error::new(500).err(ExtraDescError {
        err: StdError(FileNotFound),
        desc: String::from("lost"),
    });
    let wrapper = ErrorWrapper::new_from_error(&responder);
    assert_eq!(wrapper.details.len(), 1);
    assert_eq!(wrapper.details[0].err_type, "file not found");
    assert_eq!(wrapper.details[0].desc, "lost");
}

#[test]
fn json_config_error_body_has_the_legacy_shape() {
    let body = errdef::json_config_error_body("Json deserialize error");
    assert_eq!(
        body,
        "{\"error\":{\"details\":{\"desc\":\"json解析错误\",\"status_text\":\"Json deserialize error\"},\"status\":500}}"
    );
    let value: serde_json::Value = serde_json::from_str(&body).unwrap();
    assert_eq!(value["error"]["status"], 500);
    assert_eq!(value["error"]["details"]["desc"], "json解析错误");
    assert_eq!(
        value["error"]["details"]["status_text"],
        "Json deserialize error"
    );
}
