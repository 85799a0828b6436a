//! Interpretation of the raw HTTP response as the model's reply or an error.

use vstd::prelude::*;

verus! {

use vstd::string::StringExecFns;
use crate::encode::ChatMessage;
use crate::error::ChatError;
use crate::jsonval::json_as_array;
use crate::jsonval::json_as_str;
use crate::jsonval::json_error_string;
use crate::jsonval::json_field_of;
use crate::jsonval::json_get;
use crate::jsonval::json_items_of;
use crate::jsonval::json_parses;
use crate::jsonval::json_str_of;
use crate::jsonval::json_value_of;
use crate::jsonval::parse_json;

/// One returned choice: the message it carries.
pub struct ChatChoice {
    pub message: ChatMessage,
}

/// The decoded response body: the ordered choices it carries.
pub struct ChatResponse {
    pub choices: Vec<ChatChoice>,
}

/// Whether an HTTP status code counts as success.
pub open spec fn is_success_status(status: u16) -> bool {
    200 <= status < 300
}

/// The role a choice carries under `message.role`, when it is a string.
pub open spec fn choice_role_of(c: serde_json::Value) -> Option<Seq<char>> {
    match json_field_of(c, "message"@) {
        Some(m) => match json_field_of(m, "role"@) {
            Some(rv) => json_str_of(rv),
            None => None,
        },
        None => None,
    }
}

/// The content a choice carries under `message.content`, when it is a string.
pub open spec fn choice_content_of(c: serde_json::Value) -> Option<Seq<char>> {
    match json_field_of(c, "message"@) {
        Some(m) => match json_field_of(m, "content"@) {
            Some(cv) => json_str_of(cv),
            None => None,
        },
        None => None,
    }
}

/// Whether a choice has the expected shape: a `message` object with string
/// `role` and `content` fields.
pub open spec fn choice_shape_ok(c: serde_json::Value) -> bool {
    choice_role_of(c) is Some && choice_content_of(c) is Some
}

/// The elements of the `choices` array of a response body, when the body
/// parses as a JSON object with a `choices` array.
pub open spec fn response_choices_of(s: Seq<char>) -> Option<Seq<serde_json::Value>> {
    if json_parses(s) {
        match json_field_of(json_value_of(s), "choices"@) {
            Some(c) => json_items_of(c),
            None => None,
        }
    } else {
        None
    }
}

/// Whether a response body has the expected shape: a `choices` array whose
/// every element is a well-shaped choice.
pub open spec fn chat_shape_ok(s: Seq<char>) -> bool {
    &&& response_choices_of(s) is Some
    &&& forall|i: int|
        0 <= i < response_choices_of(s)->0.len() ==> choice_shape_ok(
            #[trigger] response_choices_of(s)->0[i],
        )
}

/// Whether a body has the expected shape with at least one choice.
pub open spec fn has_choices(s: Seq<char>) -> bool {
    response_choices_of(s) is Some && response_choices_of(s)->0.len() > 0
}

/// The content of the first choice of a well-shaped body; meaningful only
/// when the body is well shaped and has choices.
pub open spec fn first_reply_of(s: Seq<char>) -> Seq<char> {
    choice_content_of(response_choices_of(s)->0[0])->0
}

/// Whether decoded choices carry, in order, exactly the roles and contents of
/// the response body's choices.
pub open spec fn decoded_choices_match(
    choices: Seq<ChatChoice>,
    items: Seq<serde_json::Value>,
) -> bool {
    &&& choices.len() == items.len()
    &&& forall|i: int|
        0 <= i < items.len() ==> #[trigger] choice_role_of(items[i]) == Some(
            choices[i].message.role@,
        ) && choice_content_of(items[i]) == Some(choices[i].message.content@)
}

/// A body whose choices hold one ill-shaped element is not well shaped.
proof fn lemma_bad_choice(body: Seq<char>, items: Seq<serde_json::Value>, i: int)
    requires
        response_choices_of(body) == Some(items),
        0 <= i < items.len(),
        !choice_shape_ok(items[i]),
    ensures
        !chat_shape_ok(body),
{
    assert(!choice_shape_ok(response_choices_of(body)->0[i]));
}

/// Decodes a success response body.  The body must be a JSON object with a
/// `choices` array whose every element is an object with a `message` object
/// carrying string fields `role` and `content`; exactly the bodies of that
/// shape decode, to exactly those roles and contents, and anything else fails
/// with a response-parse error.
pub fn decode_chat_response(body: &str) -> (r: Result<ChatResponse, ChatError>)
    ensures
        r is Ok <==> chat_shape_ok(body@),
        r matches Ok(resp) ==> response_choices_of(body@) is Some && decoded_choices_match(
            resp.choices@,
            response_choices_of(body@)->0,
        ),
        r matches Err(e) ==> e is ResponseParse,
{
    let v = match parse_json(body) {
        Ok(v) => v,
        Err(e) => {
            return Err(ChatError::ResponseParse(json_error_string(&e)));
        },
    };
    let choices_value = match json_get(&v, "choices") {
        Some(c) => c,
        None => {
            return Err(ChatError::ResponseParse(String::from_str("missing field `choices`")));
        },
    };
    let arr = match json_as_array(choices_value) {
        Some(a) => a,
        None => {
            return Err(ChatError::ResponseParse(String::from_str("`choices` is not an array")));
        },
    };
    proof {
        assert(response_choices_of(body@) == Some(arr@));
    }
    let n = arr.len();
    let mut choices: Vec<ChatChoice> = Vec::new();
    let mut i: usize = 0;
    while i < n
        invariant
            i <= n,
            n == arr@.len(),
            response_choices_of(body@) == Some(arr@),
            choices@.len() == i,
            forall|j: int| 0 <= j < i ==> choice_shape_ok(#[trigger] arr@[j]),
            decoded_choices_match(choices@, arr@.subrange(0, i as int)),
        decreases n - i,
    {
        let elem = &arr[i];
        let message_value = match json_get(elem, "message") {
            Some(m) => m,
            None => {
                proof {
                    lemma_bad_choice(body@, arr@, i as int);
                }
                return Err(ChatError::ResponseParse(String::from_str("missing field `message`")));
            },
        };
        let role = match json_get(message_value, "role") {
            Some(rv) => match json_as_str(rv) {
                Some(s) => s,
                None => {
                    proof {
                        lemma_bad_choice(body@, arr@, i as int);
                    }
                    return Err(
                        ChatError::ResponseParse(String::from_str("`role` is not a string")),
                    );
                },
            },
            None => {
                proof {
                    lemma_bad_choice(body@, arr@, i as int);
                }
                return Err(ChatError::ResponseParse(String::from_str("missing field `role`")));
            },
        };
        let content = match json_get(message_value, "content") {
            Some(cv) => match json_as_str(cv) {
                Some(s) => s,
                None => {
                    proof {
                        lemma_bad_choice(body@, arr@, i as int);
                    }
                    return Err(
                        ChatError::ResponseParse(String::from_str("`content` is not a string")),
                    );
                },
            },
            None => {
                proof {
                    lemma_bad_choice(body@, arr@, i as int);
                }
                return Err(ChatError::ResponseParse(String::from_str("missing field `content`")));
            },
        };
        choices.push(
            ChatChoice {
                message: ChatMessage { role: role.to_owned(), content: content.to_owned() },
            },
        );
        proof {
            assert(arr@.subrange(0, i + 1).drop_last() =~= arr@.subrange(0, i as int));
            assert(arr@.subrange(0, i + 1).last() == arr@[i as int]);
        }
        i = i + 1;
    }
    proof {
        assert(arr@.subrange(0, n as int) =~= arr@);
    }
    Ok(ChatResponse { choices })
}

/// The reply carried by a decoded response: the content of the first choice,
/// or the empty-choices error when there is none.
pub fn extract_reply(resp: &ChatResponse) -> (r: Result<String, ChatError>)
    ensures
        resp.choices@.len() == 0 ==> r == Result::<String, ChatError>::Err(ChatError::EmptyChoices),
        resp.choices@.len() > 0 ==> r == Result::<String, ChatError>::Ok(
            resp.choices@[0].message.content,
        ),
{
    if resp.choices.len() == 0 {
        Err(ChatError::EmptyChoices)
    } else {
        let first = &resp.choices[0];
        Ok(first.message.content.clone())
    }
}

/// Interprets the raw HTTP response.  A non-success status fails with an
/// error carrying exactly that status and the body text.  On a success
/// status, the call succeeds exactly when the body is well shaped with at
/// least one choice, and then returns exactly the first choice's content; a
/// well-shaped body without choices fails with the empty-choices error, and
/// a body of the wrong shape with a response-parse error.
pub fn interpret_response(status: u16, body: &str) -> (r: Result<String, ChatError>)
    ensures
        !is_success_status(status) ==> (r matches Err(e) && e matches ChatError::HttpStatus {
            status: s,
            body: b,
        } && s == status && b@ == body@),
        is_success_status(status) ==> ((r is Ok) <==> (chat_shape_ok(body@) && has_choices(body@))),
        is_success_status(status) && chat_shape_ok(body@) && has_choices(body@) ==> (r matches Ok(
            out,
        ) && out@ == first_reply_of(body@)),
        is_success_status(status) && chat_shape_ok(body@) && !has_choices(body@) ==> r == Result::<
            String,
            ChatError,
        >::Err(ChatError::EmptyChoices),
        is_success_status(status) && !chat_shape_ok(body@) ==> (r matches Err(e)
            && e is ResponseParse),
{
    if status < 200 || status >= 300 {
        return Err(ChatError::HttpStatus { status, body: body.to_owned() });
    }
    let resp = match decode_chat_response(body) {
        Ok(resp) => resp,
        Err(e) => {
            return Err(e);
        },
    };
    extract_reply(&resp)
}

} // verus!
