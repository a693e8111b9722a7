use agixtsdk::client::AGiXTSDK;
use agixtsdk::json::JsonValue;
use agixtsdk::request::{ApiRequest, HttpMethod};

fn sdk() -> AGiXTSDK {
    AGiXTSDK::new("http://localhost:7437", Some("Bearer key")).unwrap()
}

fn text(s: &str) -> JsonValue {
    JsonValue::Str(s.to_string())
}

fn entries(items: Vec<(&str, JsonValue)>) -> Vec<(String, JsonValue)> {
    items.into_iter().map(|(k, v)| (k.to_string(), v)).collect()
}

fn check(r: &ApiRequest, method: HttpMethod, url: &str, reply: Option<&str>) {
    assert_eq!(r.method, method);
    assert_eq!(r.url, url);
    assert_eq!(r.reply.as_deref(), reply);
}

#[test]
fn provider_listings() {
    let c = sdk();
    let r = c.get_providers();
    check(&r, HttpMethod::Get, "http://localhost:7437/api/provider", Some("providers"));
    assert_eq!(r.body, None);
    let r = c.get_providers_by_service("llm");
    check(&r, HttpMethod::Get, "http://localhost:7437/api/providers/service/llm", Some("providers"));
    let r = c.get_provider_settings("openai");
    check(&r, HttpMethod::Get, "http://localhost:7437/api/provider/openai", Some("settings"));
    let r = c.get_embed_providers();
    check(&r, HttpMethod::Get, "http://localhost:7437/api/embedding_providers", Some("providers"));
    let r = c.get_embedders();
    check(&r, HttpMethod::Get, "http://localhost:7437/api/embedders", Some("embedders"));
}

#[test]
fn delete_agent_request() {
    let r = sdk().delete_agent("x");
    check(&r, HttpMethod::Delete, "http://localhost:7437/api/agent/x", Some("message"));
    assert_eq!(r.body, None);
}

#[test]
fn agent_reads() {
    let c = sdk();
    check(&c.get_agents(), HttpMethod::Get, "http://localhost:7437/api/agent", Some("agents"));
    check(&c.get_agentconfig("a1"), HttpMethod::Get, "http://localhost:7437/api/agent/a1", Some("agent"));
}

#[test]
fn add_agent_forwards_settings() {
    let settings = entries(vec![("provider", text("openai")), ("nested", JsonValue::Array(vec![JsonValue::Null]))]);
    let r = sdk().add_agent("a1", settings);
    check(&r, HttpMethod::Post, "http://localhost:7437/api/agent", None);
    let expected = entries(vec![("provider", text("openai")), ("nested", JsonValue::Array(vec![JsonValue::Null]))]);
    assert_eq!(
        r.body,
        Some(JsonValue::Object(entries(vec![("agent_name", text("a1")), ("settings", JsonValue::Object(expected))])))
    );
}

#[test]
fn import_agent_forwards_settings_and_commands() {
    let r = sdk().import_agent(
        "a1",
        entries(vec![("k", JsonValue::UInt(1))]),
        entries(vec![("Search", JsonValue::Bool(false))]),
    );
    check(&r, HttpMethod::Post, "http://localhost:7437/api/agent/import", None);
    assert_eq!(
        r.body,
        Some(JsonValue::Object(entries(vec![
            ("agent_name", text("a1")),
            ("settings", JsonValue::Object(entries(vec![("k", JsonValue::UInt(1))]))),
            ("commands", JsonValue::Object(entries(vec![("Search", JsonValue::Bool(false))]))),
        ])))
    );
}

#[test]
fn rename_agent_request() {
    let r = sdk().rename_agent("old", "new");
    check(&r, HttpMethod::Patch, "http://localhost:7437/api/agent/old", None);
    assert_eq!(r.body, Some(JsonValue::Object(entries(vec![("new_name", text("new"))]))));
}

#[test]
fn update_agent_settings_and_commands() {
    let c = sdk();
    let r = c.update_agent_settings("a1", entries(vec![("t", JsonValue::Decimal("0.7".to_string()))]));
    check(&r, HttpMethod::Put, "http://localhost:7437/api/agent/a1", Some("message"));
    assert_eq!(
        r.body,
        Some(JsonValue::Object(entries(vec![
            ("settings", JsonValue::Object(entries(vec![("t", JsonValue::Decimal("0.7".to_string()))]))),
            ("agent_name", text("a1")),
        ])))
    );
    let r = c.update_agent_commands("a1", entries(vec![]));
    check(&r, HttpMethod::Put, "http://localhost:7437/api/agent/a1/commands", Some("message"));
    assert_eq!(
        r.body,
        Some(JsonValue::Object(entries(vec![("commands", JsonValue::Object(vec![])), ("agent_name", text("a1"))])))
    );
}

#[test]
fn conversation_listing_with_and_without_agent() {
    let c = sdk();
    check(&c.get_conversations(""), HttpMethod::Get, "http://localhost:7437/api/conversations", Some("conversations"));
    check(&c.get_conversations("a1"), HttpMethod::Get, "http://localhost:7437/api/a1/conversations", Some("conversations"));
}

#[test]
fn conversation_page_request() {
    let r = sdk().get_conversation("a1", "c1", 100, 2);
    check(&r, HttpMethod::Get, "http://localhost:7437/api/conversation", Some("conversation_history"));
    assert_eq!(
        r.body,
        Some(JsonValue::Object(entries(vec![
            ("conversation_name", text("c1")),
            ("agent_name", text("a1")),
            ("limit", JsonValue::UInt(100)),
            ("page", JsonValue::UInt(2)),
        ])))
    );
}

#[test]
fn new_and_deleted_conversations() {
    let c = sdk();
    let r = c.new_conversation("a1", "c1", vec![text("hello")]);
    check(&r, HttpMethod::Post, "http://localhost:7437/api/conversation", Some("conversation_history"));
    assert_eq!(
        r.body,
        Some(JsonValue::Object(entries(vec![
            ("conversation_name", text("c1")),
            ("agent_name", text("a1")),
            ("conversation_content", JsonValue::Array(vec![text("hello")])),
        ])))
    );
    let r = c.delete_conversation("a1", "c1");
    check(&r, HttpMethod::Delete, "http://localhost:7437/api/conversation", Some("message"));
    assert_eq!(
        r.body,
        Some(JsonValue::Object(entries(vec![("conversation_name", text("c1")), ("agent_name", text("a1"))])))
    );
}

#[test]
fn conversation_messages_by_text() {
    let c = sdk();
    let r = c.delete_conversation_message("a1", "c1", "hi");
    check(&r, HttpMethod::Delete, "http://localhost:7437/api/conversation/message", Some("message"));
    assert_eq!(
        r.body,
        Some(JsonValue::Object(entries(vec![
            ("message", text("hi")),
            ("agent_name", text("a1")),
            ("conversation_name", text("c1")),
        ])))
    );
    let r = c.update_conversation_message("a1", "c1", "hi", "hello");
    check(&r, HttpMethod::Put, "http://localhost:7437/api/conversation/message", Some("message"));
    assert_eq!(
        r.body,
        Some(JsonValue::Object(entries(vec![
            ("message", text("hi")),
            ("new_message", text("hello")),
            ("agent_name", text("a1")),
            ("conversation_name", text("c1")),
        ])))
    );
}
