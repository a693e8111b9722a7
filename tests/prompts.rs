use agixtsdk::client::AGiXTSDK;
use agixtsdk::json::JsonValue;
use agixtsdk::request::HttpMethod;

fn sdk() -> AGiXTSDK {
    AGiXTSDK::new("http://localhost:7437/", None).unwrap()
}

fn text(s: &str) -> JsonValue {
    JsonValue::Str(s.to_string())
}

fn entries(items: Vec<(&str, JsonValue)>) -> Vec<(String, JsonValue)> {
    items.into_iter().map(|(k, v)| (k.to_string(), v)).collect()
}

fn prompt_body(name: &str, args: Vec<(&str, JsonValue)>) -> Option<JsonValue> {
    Some(JsonValue::Object(entries(vec![
        ("prompt_name", text(name)),
        ("prompt_args", JsonValue::Object(entries(args))),
    ])))
}

#[test]
fn prompt_agent_request() {
    let r = sdk().prompt_agent("a", "Think", entries(vec![("x", JsonValue::Null)]));
    assert_eq!(r.method, HttpMethod::Post);
    assert_eq!(r.url, "http://localhost:7437/api/agent/a/prompt");
    assert_eq!(r.reply.as_deref(), Some("response"));
    assert_eq!(r.body, prompt_body("Think", vec![("x", JsonValue::Null)]));
}

#[test]
fn chat_prompts_with_fixed_flags() {
    let r = sdk().chat("a", "hi", "c1", 3);
    assert_eq!(r.url, "http://localhost:7437/api/agent/a/prompt");
    assert_eq!(
        r.body,
        prompt_body(
            "Chat",
            vec![
                ("user_input", text("hi")),
                ("context_results", JsonValue::UInt(3)),
                ("conversation_name", text("c1")),
                ("disable_memory", JsonValue::Bool(true)),
            ]
        )
    );
}

#[test]
fn smartchat_is_chat_with_one_result() {
    let c = sdk();
    assert_eq!(c.smartchat("a", "hi", "c1"), c.chat("a", "hi", "c1", 1));
}

#[test]
fn instruct_prompts_without_memory() {
    let r = sdk().instruct("a", "do it", "c1");
    assert_eq!(r.method, HttpMethod::Post);
    assert_eq!(
        r.body,
        prompt_body(
            "instruct",
            vec![
                ("user_input", text("do it")),
                ("disable_memory", JsonValue::Bool(true)),
                ("conversation_name", text("c1")),
            ]
        )
    );
    let c = sdk();
    assert_eq!(c.smartinstruct("a", "do it", "c1"), c.instruct("a", "do it", "c1"));
}
