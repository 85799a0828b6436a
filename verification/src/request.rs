//! Assembly of the complete HTTP request for one analysis invocation.

use vstd::prelude::*;

verus! {

use vstd::string::StringExecFns;
use crate::encode::build_request_body;
use crate::encode::message_json;
use crate::encode::messages_json_inner;
use crate::encode::ChatMessage;
use crate::encode::GenerationParams;
use crate::error::ChatError;
use crate::jsonval::json_error_text_of;
use crate::jsonval::json_parse_error_of;
use crate::jsonval::json_parses;
use crate::prompt::compose_system_prompt;
use crate::prompt::composed_system_prompt;
use crate::prompt::extract_prompt_parts;
use crate::prompt::prompt_instructions_pretty_of;
use crate::prompt::prompt_role_of;
use crate::url::build_endpoint_url;
use crate::url::endpoint_url;

/// How one invocation is shaped: which model to ask for, whether the system
/// prompt is a structured JSON descriptor or plain text, whether the document
/// is prefixed with an explanatory phrase, and which generation parameters,
/// if any, are forwarded.
pub struct RequestConfig {
    /// The model identifier; the default model is used when absent.
    pub model: Option<String>,
    /// Parse the system prompt as a JSON descriptor instead of using it
    /// verbatim.
    pub structured_prompt: bool,
    /// Prefix the document content with the explanatory phrase.
    pub prefix_user_content: bool,
    /// Generation parameters to forward, when set.
    pub generation_params: Option<GenerationParams>,
}

/// The model asked for when the configuration names none.
pub open spec fn default_model() -> Seq<char> {
    "gpt-4o"@
}

/// The model named by the configuration, or the default.
pub open spec fn effective_model(config: RequestConfig) -> Seq<char> {
    match config.model {
        Some(m) => m@,
        None => default_model(),
    }
}

/// The phrase put in front of the document content when the configuration
/// asks for it.
pub open spec fn user_prefix() -> Seq<char> {
    "this is the uploaded document content, please begin analysis:\n\n"@
}

/// The content of the user message: the document text, prefixed when the
/// configuration asks for it.
pub open spec fn user_content(text: Seq<char>, prefix: bool) -> Seq<char> {
    if prefix {
        user_prefix() + text
    } else {
        text
    }
}

/// The value of the `Authorization` header: the Bearer scheme around the API
/// key, for every provider.
pub open spec fn bearer(key: Seq<char>) -> Seq<char> {
    "Bearer "@ + key
}

/// The request body for the two-message conversation the client always
/// sends: the system message, then the user message.
pub open spec fn chat_body_json(
    model: Seq<char>,
    system: Seq<char>,
    user: Seq<char>,
    gen: Option<GenerationParams>,
) -> Seq<char> {
    "{\"model\":\""@ + crate::encode::json_escaped(model) + "\",\"messages\":"@ + "["@
        + message_json("system"@, system) + ","@ + message_json("user"@, user) + "]"@ + (match gen {
        Some(p) => crate::encode::generation_params_json(p),
        None => Seq::empty(),
    }) + "}"@
}

/// Everything the surrounding application needs to issue the HTTP POST: the
/// URL, the value of the `Authorization` header, and the JSON body.  The
/// `Content-Type` is always `application/json`.
pub struct HttpRequestParts {
    pub url: String,
    pub authorization: String,
    pub body: String,
}

/// Builds the user message content: the document text, prefixed with the
/// explanatory phrase when asked.
fn build_user_content(text_content: &str, prefix: bool) -> (r: String)
    ensures
        r@ == user_content(text_content@, prefix),
{
    let mut out = String::new();
    if prefix {
        out.append("this is the uploaded document content, please begin analysis:\n\n");
    }
    out.append(text_content);
    out
}

/// Builds the complete HTTP request from an already-composed system message.
pub fn build_chat_request(
    config: &RequestConfig,
    api_key: &str,
    api_base_url: &str,
    system_content: &str,
    text_content: &str,
) -> (r: HttpRequestParts)
    ensures
        r.url@ == endpoint_url(api_base_url@),
        r.authorization@ == bearer(api_key@),
        r.body@ == chat_body_json(
            effective_model(*config),
            system_content@,
            user_content(text_content@, config.prefix_user_content),
            config.generation_params,
        ),
{
    let url = build_endpoint_url(api_base_url);
    let mut authorization = String::new();
    authorization.append("Bearer ");
    authorization.append(api_key);
    let system_owned = system_content.to_owned();
    let user = build_user_content(text_content, config.prefix_user_content);
    let messages: Vec<ChatMessage> = vec![
        ChatMessage { role: String::from_str("system"), content: system_owned },
        ChatMessage { role: String::from_str("user"), content: user },
    ];
    let body = match &config.model {
        Some(m) => build_request_body(m.as_str(), &messages, &config.generation_params),
        None => build_request_body("gpt-4o", &messages, &config.generation_params),
    };
    proof {
        let ms = messages@;
        assert(ms.subrange(0, 1).drop_last() =~= Seq::<ChatMessage>::empty());
        assert(ms.drop_last() =~= ms.subrange(0, 1));
        assert(messages_json_inner(ms.drop_last()) == message_json(ms[0].role@, ms[0].content@));
        assert(body@ =~= chat_body_json(
            effective_model(*config),
            system_content@,
            user_content(text_content@, config.prefix_user_content),
            config.generation_params,
        ));
    }
    HttpRequestParts { url, authorization, body }
}

/// Builds the complete HTTP request for one analysis invocation from the raw
/// inputs.  In structured-prompt mode the system prompt is parsed as a JSON
/// descriptor and the effective system message is composed from it; the call
/// fails, before anything is sent, exactly when that parse fails.  In plain
/// mode the system prompt is used verbatim and the call never fails.
pub fn build_analysis_request(
    config: &RequestConfig,
    api_key: &str,
    api_base_url: &str,
    system_prompt: &str,
    text_content: &str,
) -> (r: Result<HttpRequestParts, ChatError>)
    ensures
        r is Ok <==> (!config.structured_prompt || json_parses(system_prompt@)),
        r matches Ok(p) ==> p.url@ == endpoint_url(api_base_url@) && p.authorization@ == bearer(
            api_key@,
        ),
        !config.structured_prompt ==> (r matches Ok(p) && p.body@ == chat_body_json(
            effective_model(*config),
            system_prompt@,
            user_content(text_content@, config.prefix_user_content),
            config.generation_params,
        )),
        config.structured_prompt ==> (r matches Ok(p) ==> p.body@ == chat_body_json(
            effective_model(*config),
            composed_system_prompt(
                prompt_role_of(system_prompt@),
                prompt_instructions_pretty_of(system_prompt@),
            ),
            user_content(text_content@, config.prefix_user_content),
            config.generation_params,
        )),
        r matches Err(e) ==> (e matches ChatError::PromptParse(d) && d@ == json_error_text_of(
            json_parse_error_of(system_prompt@),
        ) && config.structured_prompt && !json_parses(system_prompt@)),
{
    if config.structured_prompt {
        let parts = match extract_prompt_parts(system_prompt) {
            Ok(parts) => parts,
            Err(e) => {
                return Err(e);
            },
        };
        let system_content = compose_system_prompt(&parts);
        let req = build_chat_request(
            config,
            api_key,
            api_base_url,
            system_content.as_str(),
            text_content,
        );
        Ok(req)
    } else {
        Ok(build_chat_request(config, api_key, api_base_url, system_prompt, text_content))
    }
}

} // verus!
