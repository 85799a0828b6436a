//! Verified JSON encoding of the chat-completion request body.
//!
//! The request is serialized by this module rather than by a serialization
//! library, so that the exact bytes put on the wire are specified: string
//! escaping, message layout and the optional generation parameters are all
//! pinned down by spec functions.

use vstd::prelude::*;

verus! {

use vstd::string::StrSliceExecFns;
use vstd::string::StringExecFns;

/// Relies on `String::push`: appends the given character to the end of the
/// string.
pub assume_specification[ String::push ](s: &mut String, ch: char)
    ensures
        final(s)@ == old(s)@.push(ch),
;

/// One chat message: a role tag and its text content.
pub struct ChatMessage {
    pub role: String,
    pub content: String,
}

/// Generation parameters forwarded in the request body.  The temperature is
/// kept in tenths as an integer, since the verifier has no floating point;
/// it is rendered as a decimal fraction in the JSON text.
#[derive(Clone, Copy)]
pub struct GenerationParams {
    pub max_tokens: u32,
    pub temperature_tenths: u32,
}

/// The lower-case hexadecimal digit for a value below 16.
pub open spec fn hex_digit(n: u32) -> char {
    if n == 0 {
        '0'
    } else if n == 1 {
        '1'
    } else if n == 2 {
        '2'
    } else if n == 3 {
        '3'
    } else if n == 4 {
        '4'
    } else if n == 5 {
        '5'
    } else if n == 6 {
        '6'
    } else if n == 7 {
        '7'
    } else if n == 8 {
        '8'
    } else if n == 9 {
        '9'
    } else if n == 10 {
        'a'
    } else if n == 11 {
        'b'
    } else if n == 12 {
        'c'
    } else if n == 13 {
        'd'
    } else if n == 14 {
        'e'
    } else {
        'f'
    }
}

/// The decimal digit for a value below 10.
pub open spec fn dec_digit(n: nat) -> char {
    if n == 0 {
        '0'
    } else if n == 1 {
        '1'
    } else if n == 2 {
        '2'
    } else if n == 3 {
        '3'
    } else if n == 4 {
        '4'
    } else if n == 5 {
        '5'
    } else if n == 6 {
        '6'
    } else if n == 7 {
        '7'
    } else if n == 8 {
        '8'
    } else {
        '9'
    }
}

/// The usual decimal rendering of a natural number, without sign or padding.
pub open spec fn decimal_string(n: nat) -> Seq<char>
    decreases n,
{
    if n < 10 {
        seq![dec_digit(n)]
    } else {
        decimal_string(n / 10) + seq![dec_digit(n % 10)]
    }
}

/// How one character appears inside a JSON string literal: the two-character
/// escapes of JSON for quote, backslash and the common control characters,
/// a `\u00XX` escape for the remaining control characters, and the character
/// itself otherwise.
pub open spec fn escaped_char(c: char) -> Seq<char> {
    if c == '"' {
        "\\\""@
    } else if c == '\\' {
        "\\\\"@
    } else if c == '\u{8}' {
        "\\b"@
    } else if c == '\t' {
        "\\t"@
    } else if c == '\n' {
        "\\n"@
    } else if c == '\u{c}' {
        "\\f"@
    } else if c == '\r' {
        "\\r"@
    } else if (c as u32) < 32 {
        seq!['\\', 'u', '0', '0', hex_digit((c as u32) / 16), hex_digit((c as u32) % 16)]
    } else {
        seq![c]
    }
}

/// A whole string as it appears inside a JSON string literal.
pub open spec fn json_escaped(s: Seq<char>) -> Seq<char>
    decreases s.len(),
{
    if s.len() == 0 {
        Seq::empty()
    } else {
        json_escaped(s.drop_last()) + escaped_char(s.last())
    }
}

/// The JSON object for one chat message.
pub open spec fn message_json(role: Seq<char>, content: Seq<char>) -> Seq<char> {
    "{\"role\":\""@ + json_escaped(role) + "\",\"content\":\""@ + json_escaped(content) + "\"}"@
}

/// The JSON array elements for a sequence of chat messages, comma-separated.
pub open spec fn messages_json_inner(ms: Seq<ChatMessage>) -> Seq<char>
    decreases ms.len(),
{
    if ms.len() == 0 {
        Seq::empty()
    } else if ms.len() == 1 {
        message_json(ms[0].role@, ms[0].content@)
    } else {
        messages_json_inner(ms.drop_last()) + ","@ + message_json(
            ms.last().role@,
            ms.last().content@,
        )
    }
}

/// The JSON array for a sequence of chat messages.
pub open spec fn messages_json(ms: Seq<ChatMessage>) -> Seq<char> {
    "["@ + messages_json_inner(ms) + "]"@
}

/// The trailing body fields for the generation parameters, starting with the
/// separating comma; the temperature appears as `<whole>.<tenth>`.
pub open spec fn generation_params_json(p: GenerationParams) -> Seq<char> {
    ",\"max_tokens\":"@ + decimal_string(p.max_tokens as nat) + ",\"temperature\":"@
        + decimal_string((p.temperature_tenths / 10) as nat) + "."@ + decimal_string(
        (p.temperature_tenths % 10) as nat,
    )
}

/// The complete chat-completion request body.
pub open spec fn request_body_json(
    model: Seq<char>,
    ms: Seq<ChatMessage>,
    gen: Option<GenerationParams>,
) -> Seq<char> {
    "{\"model\":\""@ + json_escaped(model) + "\",\"messages\":"@ + messages_json(ms) + (match gen {
        Some(p) => generation_params_json(p),
        None => Seq::empty(),
    }) + "}"@
}

/// The decimal digit character for a value below 10.
fn dec_digit_char(n: u64) -> (c: char)
    requires
        n < 10,
    ensures
        c == dec_digit(n as nat),
{
    if n == 0 {
        '0'
    } else if n == 1 {
        '1'
    } else if n == 2 {
        '2'
    } else if n == 3 {
        '3'
    } else if n == 4 {
        '4'
    } else if n == 5 {
        '5'
    } else if n == 6 {
        '6'
    } else if n == 7 {
        '7'
    } else if n == 8 {
        '8'
    } else {
        '9'
    }
}

/// The lower-case hexadecimal digit character for a value below 16.
fn hex_digit_char(n: u32) -> (c: char)
    requires
        n < 16,
    ensures
        c == hex_digit(n),
{
    if n < 10 {
        dec_digit_char(n as u64)
    } else if n == 10 {
        'a'
    } else if n == 11 {
        'b'
    } else if n == 12 {
        'c'
    } else if n == 13 {
        'd'
    } else if n == 14 {
        'e'
    } else {
        'f'
    }
}

/// Appends the decimal rendering of `n`.
pub fn append_decimal(out: &mut String, n: u64)
    ensures
        final(out)@ == old(out)@ + decimal_string(n as nat),
    decreases n,
{
    if n < 10 {
        out.push(dec_digit_char(n));
        assert(final(out)@ =~= old(out)@ + decimal_string(n as nat));
    } else {
        assert(n / 10 < n && n / 10 >= 1) by (nonlinear_arith)
            requires
                n >= 10,
        ;
        append_decimal(out, n / 10);
        out.push(dec_digit_char(n % 10));
        assert(final(out)@ =~= old(out)@ + decimal_string(n as nat));
    }
}

/// Appends `s` as it appears inside a JSON string literal.
pub fn append_json_escaped(out: &mut String, s: &str)
    ensures
        final(out)@ == old(out)@ + json_escaped(s@),
{
    let n = s.unicode_len();
    let mut i: usize = 0;
    proof {
        assert(s@.subrange(0, 0) =~= Seq::<char>::empty());
    }
    while i < n
        invariant
            i <= n,
            n == s@.len(),
            out@ == old(out)@ + json_escaped(s@.subrange(0, i as int)),
        decreases n - i,
    {
        let c = s.get_char(i);
        if c == '"' {
            out.append("\\\"");
        } else if c == '\\' {
            out.append("\\\\");
        } else if c == '\u{8}' {
            out.append("\\b");
        } else if c == '\t' {
            out.append("\\t");
        } else if c == '\n' {
            out.append("\\n");
        } else if c == '\u{c}' {
            out.append("\\f");
        } else if c == '\r' {
            out.append("\\r");
        } else if (c as u32) < 32 {
            out.push('\\');
            out.push('u');
            out.push('0');
            out.push('0');
            out.push(hex_digit_char((c as u32) / 16));
            out.push(hex_digit_char((c as u32) % 16));
            assert(out@ =~= old(out)@ + json_escaped(s@.subrange(0, i as int)) + escaped_char(c));
        } else {
            out.push(c);
            assert(out@ =~= old(out)@ + json_escaped(s@.subrange(0, i as int)) + escaped_char(c));
        }
        proof {
            let pre = s@.subrange(0, i as int);
            let cur = s@.subrange(0, i + 1);
            assert(cur.drop_last() =~= pre);
            assert(cur.last() == s@[i as int]);
            assert(out@ =~= old(out)@ + json_escaped(cur));
        }
        i = i + 1;
    }
    proof {
        assert(s@.subrange(0, n as int) =~= s@);
    }
}

/// Appends the JSON object for one chat message.
pub fn append_message_json(out: &mut String, m: &ChatMessage)
    ensures
        final(out)@ == old(out)@ + message_json(m.role@, m.content@),
{
    out.append("{\"role\":\"");
    append_json_escaped(out, m.role.as_str());
    out.append("\",\"content\":\"");
    append_json_escaped(out, m.content.as_str());
    out.append("\"}");
}

/// Builds the complete chat-completion request body for the given model,
/// messages and optional generation parameters.
pub fn build_request_body(
    model: &str,
    ms: &Vec<ChatMessage>,
    gen: &Option<GenerationParams>,
) -> (r: String)
    ensures
        r@ == request_body_json(model@, ms@, *gen),
{
    let mut out = String::new();
    out.append("{\"model\":\"");
    append_json_escaped(&mut out, model);
    out.append("\",\"messages\":");
    out.append("[");
    let n = ms.len();
    let mut i: usize = 0;
    while i < n
        invariant
            i <= n,
            n == ms@.len(),
            out@ == "{\"model\":\""@ + json_escaped(model@) + "\",\"messages\":"@ + "["@
                + messages_json_inner(ms@.subrange(0, i as int)),
        decreases n - i,
    {
        if i > 0 {
            out.append(",");
        }
        append_message_json(&mut out, &ms[i]);
        proof {
            let pre = ms@.subrange(0, i as int);
            let cur = ms@.subrange(0, i + 1);
            assert(cur.drop_last() =~= pre);
            assert(cur.last() == ms@[i as int]);
            if i == 0 {
                assert(messages_json_inner(cur) == message_json(
                    ms@[0].role@,
                    ms@[0].content@,
                ));
            }
            assert(out@ =~= "{\"model\":\""@ + json_escaped(model@) + "\",\"messages\":"@ + "["@
                + messages_json_inner(cur));
        }
        i = i + 1;
    }
    proof {
        assert(ms@.subrange(0, n as int) =~= ms@);
    }
    out.append("]");
    match gen {
        Some(p) => {
            out.append(",\"max_tokens\":");
            append_decimal(&mut out, p.max_tokens as u64);
            out.append(",\"temperature\":");
            append_decimal(&mut out, (p.temperature_tenths / 10) as u64);
            out.append(".");
            append_decimal(&mut out, (p.temperature_tenths % 10) as u64);
        },
        None => {},
    }
    out.append("}");
    proof {
        assert(out@ =~= request_body_json(model@, ms@, *gen));
    }
    out
}

} // verus!
