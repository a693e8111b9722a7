use vstd::prelude::*;
use vstd::string::*;

use crate::client::{AGiXTSDK, ClientView};
use crate::json::JsonValue;
use crate::request::{
    body_entries, count_entry, flag_entry, sends, text_entry, text_entry_of, ApiRequest, HttpMethod,
};

verus! {

/// `r` asks the agent `agent` of the client `c` to run the prompt
/// `prompt_name`, with arguments that satisfy `args_ok`; its result is the
/// reply field "response".
pub open spec fn prompts(
    c: ClientView,
    r: ApiRequest,
    agent: Seq<char>,
    prompt_name: Seq<char>,
    args_ok: spec_fn(Seq<(String, JsonValue)>) -> bool,
) -> bool {
    &&& sends(
        r,
        HttpMethod::Post,
        c.base_uri + "api/agent/"@ + agent + "/prompt"@,
        Some("response"@),
    )
    &&& body_entries(r) matches Some(fs)
    &&& fs.len() == 2
    &&& text_entry(fs[0], "prompt_name"@, prompt_name)
    &&& fs[1].0@ == "prompt_args"@
    &&& fs[1].1 matches JsonValue::Object(a) && args_ok(a@)
}

/// The arguments of an "instruct" prompt: the input, memory switched off, and
/// the conversation.
pub open spec fn instruct_args(a: Seq<(String, JsonValue)>, input: Seq<char>, conversation: Seq<
    char,
>) -> bool {
    &&& a.len() == 3
    &&& text_entry(a[0], "user_input"@, input)
    &&& flag_entry(a[1], "disable_memory"@, true)
    &&& text_entry(a[2], "conversation_name"@, conversation)
}

/// The arguments of a "Chat" prompt: the input, the number of context
/// results, the conversation, and memory switched off.
pub open spec fn chat_args(
    a: Seq<(String, JsonValue)>,
    input: Seq<char>,
    context_results: u64,
    conversation: Seq<char>,
) -> bool {
    &&& a.len() == 4
    &&& text_entry(a[0], "user_input"@, input)
    &&& count_entry(a[1], "context_results"@, context_results)
    &&& text_entry(a[2], "conversation_name"@, conversation)
    &&& flag_entry(a[3], "disable_memory"@, true)
}

/// `r` is the "instruct" prompt of `input` to `agent` in `conversation`.
pub open spec fn is_instruct(
    c: ClientView,
    r: ApiRequest,
    agent: Seq<char>,
    input: Seq<char>,
    conversation: Seq<char>,
) -> bool {
    prompts(c, r, agent, "instruct"@, |a: Seq<(String, JsonValue)>| instruct_args(a, input, conversation))
}

/// `r` is the "Chat" prompt of `input` to `agent` in `conversation`, with
/// `context_results` context results.
pub open spec fn is_chat(
    c: ClientView,
    r: ApiRequest,
    agent: Seq<char>,
    input: Seq<char>,
    conversation: Seq<char>,
    context_results: u64,
) -> bool {
    prompts(
        c,
        r,
        agent,
        "Chat"@,
        |a: Seq<(String, JsonValue)>| chat_args(a, input, context_results, conversation),
    )
}

impl AGiXTSDK {
    /// Runs the prompt `prompt_name` on an agent with the given arguments; the
    /// result is the reply field "response".
    pub fn prompt_agent(
        &self,
        agent_name: &str,
        prompt_name: &str,
        prompt_args: Vec<(String, JsonValue)>,
    ) -> (r: ApiRequest)
        ensures
            prompts(
                self@,
                r,
                agent_name@,
                prompt_name@,
                |a: Seq<(String, JsonValue)>| a == prompt_args@,
            ),
    {
        let mut fs: Vec<(String, JsonValue)> = Vec::new();
        fs.push(text_entry_of("prompt_name", prompt_name));
        fs.push((String::from_str("prompt_args"), JsonValue::Object(prompt_args)));
        let url = self.endpoint_with("api/agent/", agent_name, "/prompt");
        proof {
            reveal_strlit("response");
        }
        ApiRequest {
            method: HttpMethod::Post,
            url,
            body: Some(JsonValue::Object(fs)),
            reply: Some(String::from_str("response")),
        }
    }

    /// Asks an agent to follow an instruction, without memory.
    pub fn instruct(&self, agent_name: &str, user_input: &str, conversation: &str) -> (r:
        ApiRequest)
        ensures
            is_instruct(self@, r, agent_name@, user_input@, conversation@),
    {
        let mut args: Vec<(String, JsonValue)> = Vec::new();
        args.push(text_entry_of("user_input", user_input));
        args.push((String::from_str("disable_memory"), JsonValue::Bool(true)));
        args.push(text_entry_of("conversation_name", conversation));
        self.prompt_agent(agent_name, "instruct", args)
    }

    /// Chats with an agent, without memory, drawing on `context_results`
    /// context results.
    pub fn chat(
        &self,
        agent_name: &str,
        user_input: &str,
        conversation: &str,
        context_results: usize,
    ) -> (r: ApiRequest)
        ensures
            is_chat(self@, r, agent_name@, user_input@, conversation@, context_results as u64),
    {
        let mut args: Vec<(String, JsonValue)> = Vec::new();
        args.push(text_entry_of("user_input", user_input));
        args.push((String::from_str("context_results"), JsonValue::UInt(context_results as u64)));
        args.push(text_entry_of("conversation_name", conversation));
        args.push((String::from_str("disable_memory"), JsonValue::Bool(true)));
        self.prompt_agent(agent_name, "Chat", args)
    }

    /// The same call as `instruct`.
    pub fn smartinstruct(&self, agent_name: &str, user_input: &str, conversation: &str) -> (r:
        ApiRequest)
        ensures
            is_instruct(self@, r, agent_name@, user_input@, conversation@),
    {
        self.instruct(agent_name, user_input, conversation)
    }

    /// The same call as `chat` with one context result.
    pub fn smartchat(&self, agent_name: &str, user_input: &str, conversation: &str) -> (r:
        ApiRequest)
        ensures
            is_chat(self@, r, agent_name@, user_input@, conversation@, 1),
    {
        self.chat(agent_name, user_input, conversation, 1)
    }
}

} // verus!
