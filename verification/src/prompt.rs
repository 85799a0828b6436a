//! The structured system prompt: a JSON descriptor with an optional role and
//! optional instructions, composed into the effective system message.

use vstd::prelude::*;

verus! {

use vstd::string::StringExecFns;
use crate::error::ChatError;
use crate::jsonval::json_as_str;
use crate::jsonval::json_error_string;
use crate::jsonval::json_error_text_of;
use crate::jsonval::json_field_of;
use crate::jsonval::json_get;
use crate::jsonval::json_parse_error_of;
use crate::jsonval::json_parses;
use crate::jsonval::json_pretty;
use crate::jsonval::json_pretty_of;
use crate::jsonval::json_str_of;
use crate::jsonval::json_value_of;
use crate::jsonval::parse_json;

/// What the client reads out of a structured prompt descriptor: the role, if
/// the descriptor carries one as a string, and the pretty-printed rendering
/// of its instructions, if it carries any.
pub struct PromptParts {
    pub role: Option<String>,
    pub instructions_pretty: Option<String>,
}

/// The view of an optional string.
pub open spec fn opt_view(o: Option<String>) -> Option<Seq<char>> {
    match o {
        Some(s) => Some(s@),
        None => None,
    }
}

/// The role used when the descriptor names none.
pub open spec fn default_role() -> Seq<char> {
    "AI助手"@
}

/// The instructions text used when the descriptor carries none: the
/// pretty-printed empty object.
pub open spec fn default_instructions() -> Seq<char> {
    "{}"@
}

/// The effective system message built from the descriptor's parts, with the
/// defaults filled in where a part is missing.
pub open spec fn composed_system_prompt(
    role: Option<Seq<char>>,
    instructions_pretty: Option<Seq<char>>,
) -> Seq<char> {
    "Role: "@ + (match role {
        Some(r) => r,
        None => default_role(),
    }) + "\n\nInstructions: "@ + (match instructions_pretty {
        Some(s) => s,
        None => default_instructions(),
    })
        + "\n\nPlease strictly follow the above role and instructions to analyze the following document content."@
}

/// The role a structured prompt descriptor carries: the string under its
/// `role` key, absent when the key is missing or not a string.
pub open spec fn prompt_role_of(s: Seq<char>) -> Option<Seq<char>> {
    match json_field_of(json_value_of(s), "role"@) {
        Some(rv) => json_str_of(rv),
        None => None,
    }
}

/// The instructions a structured prompt descriptor carries, pretty-printed;
/// absent when the `instructions` key is missing.
pub open spec fn prompt_instructions_pretty_of(s: Seq<char>) -> Option<Seq<char>> {
    match json_field_of(json_value_of(s), "instructions"@) {
        Some(iv) => Some(json_pretty_of(iv)),
        None => None,
    }
}

/// Reads the role and instructions out of a structured prompt descriptor.
/// Fails exactly when the descriptor is not valid JSON, with the parse
/// error's description; a missing or non-string role and missing
/// instructions are reported as absent, not as errors.
pub fn extract_prompt_parts(system_prompt: &str) -> (r: Result<PromptParts, ChatError>)
    ensures
        r is Ok <==> json_parses(system_prompt@),
        r matches Ok(p) ==> opt_view(p.role) == prompt_role_of(system_prompt@) && opt_view(
            p.instructions_pretty,
        ) == prompt_instructions_pretty_of(system_prompt@),
        r matches Err(e) ==> (e matches ChatError::PromptParse(d) && d@ == json_error_text_of(
            json_parse_error_of(system_prompt@),
        )),
{
    let v = match parse_json(system_prompt) {
        Ok(v) => v,
        Err(e) => {
            return Err(ChatError::PromptParse(json_error_string(&e)));
        },
    };
    let role: Option<String> = match json_get(&v, "role") {
        Some(rv) => match json_as_str(rv) {
            Some(s) => Some(s.to_owned()),
            None => None,
        },
        None => None,
    };
    let instructions_pretty: Option<String> = match json_get(&v, "instructions") {
        Some(iv) => match json_pretty(iv) {
            Ok(s) => Some(s),
            Err(_) => None,
        },
        None => None,
    };
    Ok(PromptParts { role, instructions_pretty })
}

/// Composes the effective system message from the descriptor's parts,
/// filling in the defaults where a part is missing.
pub fn compose_system_prompt(parts: &PromptParts) -> (r: String)
    ensures
        r@ == composed_system_prompt(opt_view(parts.role), opt_view(parts.instructions_pretty)),
{
    let mut out = String::new();
    out.append("Role: ");
    match &parts.role {
        Some(r) => out.append(r.as_str()),
        None => out.append("AI助手"),
    }
    out.append("\n\nInstructions: ");
    match &parts.instructions_pretty {
        Some(s) => out.append(s.as_str()),
        None => out.append("{}"),
    }
    out.append(
        "\n\nPlease strictly follow the above role and instructions to analyze the following document content.",
    );
    out
}

} // verus!
