use vstd::prelude::*;
use vstd::string::*;

use crate::client::AGiXTSDK;
use crate::json::{field_of, lemma_entry_of_first, JsonValue};

verus! {

/// The HTTP verbs the service uses.
#[derive(Debug, Clone, Copy, PartialEq, Eq, Structural)]
pub enum HttpMethod {
    Get,
    Post,
    Put,
    Patch,
    Delete,
}

/// One call to the service: the verb, the full URL, the JSON body if any, and
/// the field of the reply envelope that is the call's result (none where the
/// whole reply is the result).
#[derive(Debug, PartialEq)]
pub struct ApiRequest {
    pub method: HttpMethod,
    pub url: String,
    pub body: Option<JsonValue>,
    pub reply: Option<String>,
}

/// `r` goes by `method` to `url`, and its result is the reply field `reply`.
pub open spec fn sends(
    r: ApiRequest,
    method: HttpMethod,
    url: Seq<char>,
    reply: Option<Seq<char>>,
) -> bool {
    &&& r.method == method
    &&& r.url@ == url
    &&& match reply {
        Some(f) => r.reply matches Some(g) && g@ == f,
        None => r.reply is None,
    }
}

/// The entries of the body of `r`, where the body is an object.
pub open spec fn body_entries(r: ApiRequest) -> Option<Seq<(String, JsonValue)>> {
    match r.body {
        Some(JsonValue::Object(entries)) => Some(entries@),
        _ => None,
    }
}

/// The field `key` of the body of `r`.
pub open spec fn body_field(r: ApiRequest, key: Seq<char>) -> Option<JsonValue> {
    match r.body {
        Some(b) => field_of(b, key),
        None => None,
    }
}

/// The entry `e` is named `key` and holds the string `value`.
pub open spec fn text_entry(e: (String, JsonValue), key: Seq<char>, value: Seq<char>) -> bool {
    &&& e.0@ == key
    &&& e.1 matches JsonValue::Str(s) && s@ == value
}

/// The entry `e` is named `key` and holds the integer `value`.
pub open spec fn count_entry(e: (String, JsonValue), key: Seq<char>, value: u64) -> bool {
    e.0@ == key && e.1 == JsonValue::UInt(value)
}

/// The entry `e` is named `key` and holds the boolean `value`.
pub open spec fn flag_entry(e: (String, JsonValue), key: Seq<char>, value: bool) -> bool {
    e.0@ == key && e.1 == JsonValue::Bool(value)
}

pub(crate) fn text_entry_of(key: &str, value: &str) -> (r: (String, JsonValue))
    ensures
        text_entry(r, key@, value@),
{
    (String::from_str(key), JsonValue::Str(String::from_str(value)))
}

fn make(method: HttpMethod, url: String, body: Option<JsonValue>, reply: Option<&str>) -> (r:
    ApiRequest)
    ensures
        sends(
            r,
            method,
            url@,
            match reply {
                Some(f) => Some(f@),
                None => None,
            },
        ),
        r.body == body,
{
    let reply = match reply {
        Some(f) => Some(String::from_str(f)),
        None => None,
    };
    ApiRequest { method, url, body, reply }
}

impl AGiXTSDK {
    /// Lists the providers the server knows.
    pub fn get_providers(&self) -> (r: ApiRequest)
        ensures
            sends(r, HttpMethod::Get, self@.base_uri + "api/provider"@, Some("providers"@)),
            r.body is None,
    {
        make(HttpMethod::Get, self.endpoint("api/provider"), None, Some("providers"))
    }

    /// Lists the providers of one service.
    pub fn get_providers_by_service(&self, service: &str) -> (r: ApiRequest)
        ensures
            sends(
                r,
                HttpMethod::Get,
                self@.base_uri + "api/providers/service/"@ + service@,
                Some("providers"@),
            ),
            r.body is None,
    {
        make(
            HttpMethod::Get,
            self.endpoint_named("api/providers/service/", service),
            None,
            Some("providers"),
        )
    }

    /// Reads the settings of one provider.
    pub fn get_provider_settings(&self, provider_name: &str) -> (r: ApiRequest)
        ensures
            sends(
                r,
                HttpMethod::Get,
                self@.base_uri + "api/provider/"@ + provider_name@,
                Some("settings"@),
            ),
            r.body is None,
    {
        make(
            HttpMethod::Get,
            self.endpoint_named("api/provider/", provider_name),
            None,
            Some("settings"),
        )
    }

    /// Lists the embedding providers.
    pub fn get_embed_providers(&self) -> (r: ApiRequest)
        ensures
            sends(
                r,
                HttpMethod::Get,
                self@.base_uri + "api/embedding_providers"@,
                Some("providers"@),
            ),
            r.body is None,
    {
        make(HttpMethod::Get, self.endpoint("api/embedding_providers"), None, Some("providers"))
    }

    /// Lists the embedders with their settings.
    pub fn get_embedders(&self) -> (r: ApiRequest)
        ensures
            sends(r, HttpMethod::Get, self@.base_uri + "api/embedders"@, Some("embedders"@)),
            r.body is None,
    {
        make(HttpMethod::Get, self.endpoint("api/embedders"), None, Some("embedders"))
    }

    /// Creates an agent with the given settings; the whole reply is the result.
    pub fn add_agent(&self, agent_name: &str, settings: Vec<(String, JsonValue)>) -> (r:
        ApiRequest)
        ensures
            sends(r, HttpMethod::Post, self@.base_uri + "api/agent"@, None),
            body_entries(r) matches Some(fs) && fs.len() == 2 && text_entry(
                fs[0],
                "agent_name"@,
                agent_name@,
            ) && fs[1].0@ == "settings"@ && fs[1].1 == JsonValue::Object(settings),
            body_field(r, "settings"@) == Some(JsonValue::Object(settings)),
    {
        let mut fs: Vec<(String, JsonValue)> = Vec::new();
        fs.push(text_entry_of("agent_name", agent_name));
        fs.push((String::from_str("settings"), JsonValue::Object(settings)));
        proof {
            reveal_strlit("agent_name");
            reveal_strlit("settings");
            assert(fs@[0].0@.len() != "settings"@.len());
            lemma_entry_of_first(fs@, "settings"@, 1);
        }
        make(HttpMethod::Post, self.endpoint("api/agent"), Some(JsonValue::Object(fs)), None)
    }

    /// Creates an agent from exported settings and commands; the whole reply
    /// is the result.
    pub fn import_agent(
        &self,
        agent_name: &str,
        settings: Vec<(String, JsonValue)>,
        commands: Vec<(String, JsonValue)>,
    ) -> (r: ApiRequest)
        ensures
            sends(r, HttpMethod::Post, self@.base_uri + "api/agent/import"@, None),
            body_entries(r) matches Some(fs) && fs.len() == 3 && text_entry(
                fs[0],
                "agent_name"@,
                agent_name@,
            ) && fs[1].0@ == "settings"@ && fs[1].1 == JsonValue::Object(settings) && fs[2].0@
                == "commands"@ && fs[2].1 == JsonValue::Object(commands),
            body_field(r, "settings"@) == Some(JsonValue::Object(settings)),
            body_field(r, "commands"@) == Some(JsonValue::Object(commands)),
    {
        let mut fs: Vec<(String, JsonValue)> = Vec::new();
        fs.push(text_entry_of("agent_name", agent_name));
        fs.push((String::from_str("settings"), JsonValue::Object(settings)));
        fs.push((String::from_str("commands"), JsonValue::Object(commands)));
        proof {
            reveal_strlit("agent_name");
            reveal_strlit("settings");
            reveal_strlit("commands");
            assert(fs@[0].0@.len() != "settings"@.len());
            assert(fs@[0].0@.len() != "commands"@.len());
            assert(fs@[1].0@[0] != "commands"@[0]);
            lemma_entry_of_first(fs@, "settings"@, 1);
            lemma_entry_of_first(fs@, "commands"@, 2);
        }
        make(
            HttpMethod::Post,
            self.endpoint("api/agent/import"),
            Some(JsonValue::Object(fs)),
            None,
        )
    }

    /// Renames an agent; the whole reply is the result.
    pub fn rename_agent(&self, agent_name: &str, new_name: &str) -> (r: ApiRequest)
        ensures
            sends(r, HttpMethod::Patch, self@.base_uri + "api/agent/"@ + agent_name@, None),
            body_entries(r) matches Some(fs) && fs.len() == 1 && text_entry(
                fs[0],
                "new_name"@,
                new_name@,
            ),
    {
        let mut fs: Vec<(String, JsonValue)> = Vec::new();
        fs.push(text_entry_of("new_name", new_name));
        make(
            HttpMethod::Patch,
            self.endpoint_named("api/agent/", agent_name),
            Some(JsonValue::Object(fs)),
            None,
        )
    }

    /// Replaces the settings of an agent.
    pub fn update_agent_settings(&self, agent_name: &str, settings: Vec<(String, JsonValue)>) -> (r:
        ApiRequest)
        ensures
            sends(
                r,
                HttpMethod::Put,
                self@.base_uri + "api/agent/"@ + agent_name@,
                Some("message"@),
            ),
            body_entries(r) matches Some(fs) && fs.len() == 2 && fs[0].0@ == "settings"@ && fs[0].1
                == JsonValue::Object(settings) && text_entry(fs[1], "agent_name"@, agent_name@),
            body_field(r, "settings"@) == Some(JsonValue::Object(settings)),
    {
        let mut fs: Vec<(String, JsonValue)> = Vec::new();
        fs.push((String::from_str("settings"), JsonValue::Object(settings)));
        fs.push(text_entry_of("agent_name", agent_name));
        proof {
            lemma_entry_of_first(fs@, "settings"@, 0);
        }
        make(
            HttpMethod::Put,
            self.endpoint_named("api/agent/", agent_name),
            Some(JsonValue::Object(fs)),
            Some("message"),
        )
    }

    /// Replaces the command switches of an agent.
    pub fn update_agent_commands(&self, agent_name: &str, commands: Vec<(String, JsonValue)>) -> (r:
        ApiRequest)
        ensures
            sends(
                r,
                HttpMethod::Put,
                self@.base_uri + "api/agent/"@ + agent_name@ + "/commands"@,
                Some("message"@),
            ),
            body_entries(r) matches Some(fs) && fs.len() == 2 && fs[0].0@ == "commands"@ && fs[0].1
                == JsonValue::Object(commands) && text_entry(fs[1], "agent_name"@, agent_name@),
            body_field(r, "commands"@) == Some(JsonValue::Object(commands)),
    {
        let mut fs: Vec<(String, JsonValue)> = Vec::new();
        fs.push((String::from_str("commands"), JsonValue::Object(commands)));
        fs.push(text_entry_of("agent_name", agent_name));
        proof {
            lemma_entry_of_first(fs@, "commands"@, 0);
        }
        make(
            HttpMethod::Put,
            self.endpoint_with("api/agent/", agent_name, "/commands"),
            Some(JsonValue::Object(fs)),
            Some("message"),
        )
    }

    /// Deletes an agent.
    pub fn delete_agent(&self, agent_name: &str) -> (r: ApiRequest)
        ensures
            sends(
                r,
                HttpMethod::Delete,
                self@.base_uri + "api/agent/"@ + agent_name@,
                Some("message"@),
            ),
            r.body is None,
    {
        make(
            HttpMethod::Delete,
            self.endpoint_named("api/agent/", agent_name),
            None,
            Some("message"),
        )
    }

    /// Lists the agents.
    pub fn get_agents(&self) -> (r: ApiRequest)
        ensures
            sends(r, HttpMethod::Get, self@.base_uri + "api/agent"@, Some("agents"@)),
            r.body is None,
    {
        make(HttpMethod::Get, self.endpoint("api/agent"), None, Some("agents"))
    }

    /// Reads the configuration of one agent.
    pub fn get_agentconfig(&self, agent_name: &str) -> (r: ApiRequest)
        ensures
            sends(r, HttpMethod::Get, self@.base_uri + "api/agent/"@ + agent_name@, Some("agent"@)),
            r.body is None,
    {
        make(HttpMethod::Get, self.endpoint_named("api/agent/", agent_name), None, Some("agent"))
    }

    /// Lists the conversations of an agent, or all of them where the name is
    /// empty.
    pub fn get_conversations(&self, agent_name: &str) -> (r: ApiRequest)
        ensures
            sends(
                r,
                HttpMethod::Get,
                if agent_name@.len() == 0 {
                    self@.base_uri + "api/conversations"@
                } else {
                    self@.base_uri + "api/"@ + agent_name@ + "/conversations"@
                },
                Some("conversations"@),
            ),
            r.body is None,
    {
        let url = if agent_name.is_empty() {
            self.endpoint("api/conversations")
        } else {
            self.endpoint_with("api/", agent_name, "/conversations")
        };
        make(HttpMethod::Get, url, None, Some("conversations"))
    }

    /// Reads one page of a conversation's history. The fields go in the body
    /// of the GET request, as the service expects.
    pub fn get_conversation(
        &self,
        agent_name: &str,
        conversation_name: &str,
        limit: usize,
        page: usize,
    ) -> (r: ApiRequest)
        ensures
            sends(
                r,
                HttpMethod::Get,
                self@.base_uri + "api/conversation"@,
                Some("conversation_history"@),
            ),
            body_entries(r) matches Some(fs) && fs.len() == 4 && text_entry(
                fs[0],
                "conversation_name"@,
                conversation_name@,
            ) && text_entry(fs[1], "agent_name"@, agent_name@) && count_entry(
                fs[2],
                "limit"@,
                limit as u64,
            ) && count_entry(fs[3], "page"@, page as u64),
    {
        let mut fs: Vec<(String, JsonValue)> = Vec::new();
        fs.push(text_entry_of("conversation_name", conversation_name));
        fs.push(text_entry_of("agent_name", agent_name));
        fs.push((String::from_str("limit"), JsonValue::UInt(limit as u64)));
        fs.push((String::from_str("page"), JsonValue::UInt(page as u64)));
        make(
            HttpMethod::Get,
            self.endpoint("api/conversation"),
            Some(JsonValue::Object(fs)),
            Some("conversation_history"),
        )
    }

    /// Starts a conversation with the given messages.
    pub fn new_conversation(
        &self,
        agent_name: &str,
        conversation_name: &str,
        conversation_content: Vec<JsonValue>,
    ) -> (r: ApiRequest)
        ensures
            sends(
                r,
                HttpMethod::Post,
                self@.base_uri + "api/conversation"@,
                Some("conversation_history"@),
            ),
            body_entries(r) matches Some(fs) && fs.len() == 3 && text_entry(
                fs[0],
                "conversation_name"@,
                conversation_name@,
            ) && text_entry(fs[1], "agent_name"@, agent_name@) && fs[2].0@
                == "conversation_content"@ && fs[2].1 == JsonValue::Array(conversation_content),
    {
        let mut fs: Vec<(String, JsonValue)> = Vec::new();
        fs.push(text_entry_of("conversation_name", conversation_name));
        fs.push(text_entry_of("agent_name", agent_name));
        fs.push((String::from_str("conversation_content"), JsonValue::Array(conversation_content)));
        make(
            HttpMethod::Post,
            self.endpoint("api/conversation"),
            Some(JsonValue::Object(fs)),
            Some("conversation_history"),
        )
    }

    /// Deletes a conversation.
    pub fn delete_conversation(&self, agent_name: &str, conversation_name: &str) -> (r: ApiRequest)
        ensures
            sends(r, HttpMethod::Delete, self@.base_uri + "api/conversation"@, Some("message"@)),
            body_entries(r) matches Some(fs) && fs.len() == 2 && text_entry(
                fs[0],
                "conversation_name"@,
                conversation_name@,
            ) && text_entry(fs[1], "agent_name"@, agent_name@),
    {
        let mut fs: Vec<(String, JsonValue)> = Vec::new();
        fs.push(text_entry_of("conversation_name", conversation_name));
        fs.push(text_entry_of("agent_name", agent_name));
        make(
            HttpMethod::Delete,
            self.endpoint("api/conversation"),
            Some(JsonValue::Object(fs)),
            Some("message"),
        )
    }

    /// Deletes the message of a conversation whose text is `message`. The
    /// service finds the message by its text, so of two equal messages it
    /// decides which one goes.
    pub fn delete_conversation_message(
        &self,
        agent_name: &str,
        conversation_name: &str,
        message: &str,
    ) -> (r: ApiRequest)
        ensures
            sends(
                r,
                HttpMethod::Delete,
                self@.base_uri + "api/conversation/message"@,
                Some("message"@),
            ),
            body_entries(r) matches Some(fs) && fs.len() == 3 && text_entry(
                fs[0],
                "message"@,
                message@,
            ) && text_entry(fs[1], "agent_name"@, agent_name@) && text_entry(
                fs[2],
                "conversation_name"@,
                conversation_name@,
            ),
    {
        let mut fs: Vec<(String, JsonValue)> = Vec::new();
        fs.push(text_entry_of("message", message));
        fs.push(text_entry_of("agent_name", agent_name));
        fs.push(text_entry_of("conversation_name", conversation_name));
        make(
            HttpMethod::Delete,
            self.endpoint("api/conversation/message"),
            Some(JsonValue::Object(fs)),
            Some("message"),
        )
    }

    /// Replaces the text of the message of a conversation whose text is
    /// `message`, found by its text as in `delete_conversation_message`.
    pub fn update_conversation_message(
        &self,
        agent_name: &str,
        conversation_name: &str,
        message: &str,
        new_message: &str,
    ) -> (r: ApiRequest)
        ensures
            sends(
                r,
                HttpMethod::Put,
                self@.base_uri + "api/conversation/message"@,
                Some("message"@),
            ),
            body_entries(r) matches Some(fs) && fs.len() == 4 && text_entry(
                fs[0],
                "message"@,
                message@,
            ) && text_entry(fs[1], "new_message"@, new_message@) && text_entry(
                fs[2],
                "agent_name"@,
                agent_name@,
            ) && text_entry(fs[3], "conversation_name"@, conversation_name@),
    {
        let mut fs: Vec<(String, JsonValue)> = Vec::new();
        fs.push(text_entry_of("message", message));
        fs.push(text_entry_of("new_message", new_message));
        fs.push(text_entry_of("agent_name", agent_name));
        fs.push(text_entry_of("conversation_name", conversation_name));
        make(
            HttpMethod::Put,
            self.endpoint("api/conversation/message"),
            Some(JsonValue::Object(fs)),
            Some("message"),
        )
    }
}

} // verus!
