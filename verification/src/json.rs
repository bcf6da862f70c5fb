use vstd::prelude::*;
use vstd::string::StrSliceExecFns;
use vstd::string::StringExecFns;
use crate::errors::{MyError, ResourceKind};
use crate::rpc::{MicrophoneState, RpcResult};

verus! {

/// Whether a text is one well-formed JSON document. Embedded documents are
/// checked against this before they are framed into an outgoing line, so
/// that one bad value cannot corrupt the line protocol.
pub uninterp spec fn json_wellformed(s: Seq<char>) -> bool;

/// Relies on `serde_json::from_str::<serde_json::Value>`: whether `s`
/// parses as one JSON document. The verdict is a function of the characters
/// alone.
#[verifier::external_body]
pub fn is_valid_json(s: &str) -> (r: bool)
    ensures
        r == json_wellformed(s@),
{
    serde_json::from_str::<serde_json::Value>(s).is_ok()
}

/// Relies on std's `String::push`: appends exactly one character.
pub assume_specification[ String::push ](s: &mut String, c: char)
    ensures
        final(s)@ == old(s)@.push(c),
;

/// The character for one decimal digit.
pub open spec fn spec_digit(d: int) -> char
    recommends
        0 <= d < 10,
{
    if d == 0 {
        '0'
    } else if d == 1 {
        '1'
    } else if d == 2 {
        '2'
    } else if d == 3 {
        '3'
    } else if d == 4 {
        '4'
    } else if d == 5 {
        '5'
    } else if d == 6 {
        '6'
    } else if d == 7 {
        '7'
    } else if d == 8 {
        '8'
    } else {
        '9'
    }
}

/// The character for one lower-case hexadecimal digit.
pub open spec fn spec_hex_digit(d: int) -> char
    recommends
        0 <= d < 16,
{
    if d < 10 {
        spec_digit(d)
    } else if d == 10 {
        'a'
    } else if d == 11 {
        'b'
    } else if d == 12 {
        'c'
    } else if d == 13 {
        'd'
    } else if d == 14 {
        'e'
    } else {
        'f'
    }
}

/// The decimal representation of a non-negative integer, no leading zeros.
pub open spec fn spec_dec(n: int) -> Seq<char>
    recommends
        n >= 0,
    decreases n,
{
    if n < 10 {
        seq![spec_digit(n)]
    } else {
        spec_dec(n / 10).push(spec_digit(n % 10))
    }
}

/// How one character appears inside a JSON string literal: quote and
/// backslash are escaped, control characters become `\u00xx`, everything
/// else stands as itself.
pub open spec fn spec_escape_char(c: char) -> Seq<char> {
    if c == '"' {
        seq!['\\', '"']
    } else if c == '\\' {
        seq!['\\', '\\']
    } else if (c as u32) < 32 {
        seq!['\\', 'u', '0', '0'].push(spec_hex_digit(c as u32 as int / 16)).push(
            spec_hex_digit(c as u32 as int % 16),
        )
    } else {
        seq![c]
    }
}

/// A whole text escaped character by character.
pub open spec fn spec_escape(s: Seq<char>) -> Seq<char>
    decreases s.len(),
{
    if s.len() == 0 {
        Seq::empty()
    } else {
        spec_escape_char(s[0]) + spec_escape(s.drop_first())
    }
}

/// A JSON string literal: the escaped text between double quotes.
pub open spec fn spec_quoted(s: Seq<char>) -> Seq<char> {
    seq!['"'] + spec_escape(s) + seq!['"']
}

pub proof fn lemma_escape_push(s: Seq<char>, c: char)
    ensures
        spec_escape(s.push(c)) == spec_escape(s) + spec_escape_char(c),
    decreases s.len(),
{
    if s.len() == 0 {
        assert(s.push(c).drop_first() =~= Seq::<char>::empty());
        assert(s.push(c)[0] == c);
        assert(spec_escape(s.push(c)) == spec_escape_char(c) + spec_escape(
            Seq::<char>::empty(),
        ));
        assert(spec_escape(s.push(c)) =~= spec_escape(s) + spec_escape_char(c));
    } else {
        assert(s.push(c).drop_first() =~= s.drop_first().push(c));
        lemma_escape_push(s.drop_first(), c);
        assert(spec_escape(s.push(c)) =~= spec_escape(s) + spec_escape_char(c));
    }
}

fn digit_char(d: u64) -> (c: char)
    requires
        d < 10,
    ensures
        c == spec_digit(d as int),
{
    if d == 0 {
        '0'
    } else if d == 1 {
        '1'
    } else if d == 2 {
        '2'
    } else if d == 3 {
        '3'
    } else if d == 4 {
        '4'
    } else if d == 5 {
        '5'
    } else if d == 6 {
        '6'
    } else if d == 7 {
        '7'
    } else if d == 8 {
        '8'
    } else {
        '9'
    }
}

fn hex_char(d: u32) -> (c: char)
    requires
        d < 16,
    ensures
        c == spec_hex_digit(d as int),
{
    if d < 10 {
        digit_char(d as u64)
    } else if d == 10 {
        'a'
    } else if d == 11 {
        'b'
    } else if d == 12 {
        'c'
    } else if d == 13 {
        'd'
    } else if d == 14 {
        'e'
    } else {
        'f'
    }
}

/// The decimal text of an unsigned number.
pub fn dec_u64(n: u64) -> (r: String)
    ensures
        r@ == spec_dec(n as int),
    decreases n,
{
    if n < 10 {
        let mut s = String::new();
        s.push(digit_char(n));
        proof {
            assert(s@ =~= spec_dec(n as int));
        }
        s
    } else {
        let mut s = dec_u64(n / 10);
        s.push(digit_char(n % 10));
        s
    }
}

/// Appends the escaped form of one character.
fn escape_char_into(out: &mut String, c: char)
    ensures
        final(out)@ == old(out)@ + spec_escape_char(c),
{
    if c == '"' {
        out.append("\\\"");
        proof {
            reveal_strlit("\\\"");
            assert(out@ =~= old(out)@ + spec_escape_char(c));
        }
    } else if c == '\\' {
        out.append("\\\\");
        proof {
            reveal_strlit("\\\\");
            assert(out@ =~= old(out)@ + spec_escape_char(c));
        }
    } else if (c as u32) < 32 {
        let code: u32 = c as u32;
        out.append("\\u00");
        out.push(hex_char(code / 16));
        out.push(hex_char(code % 16));
        proof {
            reveal_strlit("\\u00");
            assert(out@ =~= old(out)@ + spec_escape_char(c));
        }
    } else {
        out.push(c);
        proof {
            assert(out@ =~= old(out)@ + spec_escape_char(c));
        }
    }
}

/// Appends a quoted JSON string literal holding `s`.
pub fn quote_into(out: &mut String, s: &str)
    ensures
        final(out)@ == old(out)@ + spec_quoted(s@),
{
    out.push('"');
    let ghost base = out@;
    let len = s.unicode_len();
    let mut i: usize = 0;
    while i < len
        invariant
            len == s@.len(),
            i <= len,
            out@ == base + spec_escape(s@.take(i as int)),
        decreases len - i,
    {
        let c = s.get_char(i);
        escape_char_into(out, c);
        proof {
            assert(s@.take(i + 1 as int) =~= s@.take(i as int).push(s@[i as int]));
            lemma_escape_push(s@.take(i as int), s@[i as int]);
        }
        i = i + 1;
    }
    out.push('"');
    proof {
        assert(s@.take(len as int) =~= s@);
        assert(out@ =~= old(out)@ + spec_quoted(s@));
    }
}

/// A quoted JSON string literal holding `s`.
pub fn quoted(s: &str) -> (r: String)
    ensures
        r@ == spec_quoted(s@),
{
    let mut out = String::new();
    quote_into(&mut out, s);
    proof {
        assert(out@ =~= spec_quoted(s@));
    }
    out
}

/// How a resource kind reads inside an error message.
pub open spec fn spec_kind_text(k: ResourceKind) -> Seq<char> {
    match k {
        ResourceKind::CommandGrammar => ("command grammar")@,
        ResourceKind::SelectGrammar => ("select grammar")@,
        ResourceKind::DictationGrammar => ("dictation grammar")@,
        ResourceKind::CatchallGrammar => ("catchall grammar")@,
        ResourceKind::EngineRegistration => ("engine registration")@,
    }
}

/// The display text of an error, as it appears in the `message` member of
/// an error response. Engine failure text is surfaced unchanged; no further
/// structured detail leaks out.
pub open spec fn spec_error_message(e: MyError) -> Seq<char> {
    match e {
        MyError::UnknownEntityId(id) => ("unknown entity id ")@ + spec_dec(id as int),
        MyError::WrongGrammarType(id, k) => ("wrong grammar type for id ")@ + spec_dec(id as int)
            + (", expected ")@ + spec_kind_text(k),
        MyError::Engine(m) => m@,
        MyError::Serialization(m) => ("serialization failed: ")@ + m@,
    }
}

fn kind_text(k: ResourceKind) -> (r: &'static str)
    ensures
        r@ == spec_kind_text(k),
{
    match k {
        ResourceKind::CommandGrammar => "command grammar",
        ResourceKind::SelectGrammar => "select grammar",
        ResourceKind::DictationGrammar => "dictation grammar",
        ResourceKind::CatchallGrammar => "catchall grammar",
        ResourceKind::EngineRegistration => "engine registration",
    }
}

/// The display text of an error.
pub fn error_message(e: &MyError) -> (r: String)
    ensures
        r@ == spec_error_message(*e),
{
    match e {
        MyError::UnknownEntityId(id) => {
            let mut out = String::from_str("unknown entity id ");
            let d = dec_u64(*id);
            out.append(d.as_str());
            proof {
                assert(out@ =~= spec_error_message(*e));
            }
            out
        },
        MyError::WrongGrammarType(id, k) => {
            let mut out = String::from_str("wrong grammar type for id ");
            let d = dec_u64(*id);
            out.append(d.as_str());
            out.append(", expected ");
            out.append(kind_text(*k));
            proof {
                assert(out@ =~= spec_error_message(*e));
            }
            out
        },
        MyError::Engine(m) => m.clone(),
        MyError::Serialization(m) => {
            let mut out = String::from_str("serialization failed: ");
            out.append(m.as_str());
            proof {
                assert(out@ =~= spec_error_message(*e));
            }
            out
        },
    }
}

/// The JSON value for a microphone state, quotes included.
pub open spec fn spec_mic_json(s: MicrophoneState) -> Seq<char> {
    match s {
        MicrophoneState::On => ("\"on\"")@,
        MicrophoneState::Off => ("\"off\"")@,
        MicrophoneState::Sleeping => ("\"sleeping\"")@,
        MicrophoneState::Disabled => ("\"disabled\"")@,
    }
}

/// The JSON value for a microphone state.
pub fn mic_json(s: MicrophoneState) -> (r: &'static str)
    ensures
        r@ == spec_mic_json(s),
{
    match s {
        MicrophoneState::On => "\"on\"",
        MicrophoneState::Off => "\"off\"",
        MicrophoneState::Sleeping => "\"sleeping\"",
        MicrophoneState::Disabled => "\"disabled\"",
    }
}

/// The JSON value of a successful response's `result` member.
pub open spec fn spec_result_json(r: RpcResult) -> Seq<char> {
    match r {
        RpcResult::Id(n) => spec_dec(n as int),
        RpcResult::Null => ("null")@,
        RpcResult::Text(s) => spec_quoted(s@),
        RpcResult::Microphone(m) => spec_mic_json(m),
        RpcResult::User(name) => match name {
            Some(n) => spec_quoted(n@),
            None => ("null")@,
        },
    }
}

/// One whole response line, matched to its request by id: a `result`
/// member on success, an `error` object with the generic server code and
/// the error's display text on failure.
pub open spec fn spec_response_line(id: u64, r: Result<RpcResult, MyError>) -> Seq<char> {
    match r {
        Ok(res) => ("{\"jsonrpc\":\"2.0\",\"result\":")@ + spec_result_json(res) + (",\"id\":")@
            + spec_dec(id as int) + ("}")@,
        Err(e) => ("{\"jsonrpc\":\"2.0\",\"error\":{\"code\":-1,\"message\":")@ + spec_quoted(
            spec_error_message(e),
        ) + ("},\"id\":")@ + spec_dec(id as int) + ("}")@,
    }
}

/// Builds the response line for one request id.
pub fn response_line(id: u64, r: &Result<RpcResult, MyError>) -> (out: String)
    ensures
        out@ == spec_response_line(id, *r),
{
    match r {
        Ok(res) => {
            let mut out = String::from_str("{\"jsonrpc\":\"2.0\",\"result\":");
            match res {
                RpcResult::Id(n) => {
                    let d = dec_u64(*n);
                    out.append(d.as_str());
                },
                RpcResult::Null => out.append("null"),
                RpcResult::Text(s) => quote_into(&mut out, s.as_str()),
                RpcResult::Microphone(m) => out.append(mic_json(*m)),
                RpcResult::User(name) => match name {
                    Some(n) => quote_into(&mut out, n.as_str()),
                    None => out.append("null"),
                },
            }
            out.append(",\"id\":");
            let d = dec_u64(id);
            out.append(d.as_str());
            out.append("}");
            proof {
                assert(out@ =~= spec_response_line(id, *r));
            }
            out
        },
        Err(e) => {
            let mut out = String::from_str("{\"jsonrpc\":\"2.0\",\"error\":{\"code\":-1,\"message\":");
            let msg = error_message(e);
            quote_into(&mut out, msg.as_str());
            out.append("},\"id\":");
            let d = dec_u64(id);
            out.append(d.as_str());
            out.append("}");
            proof {
                assert(out@ =~= spec_response_line(id, *r));
            }
            out
        },
    }
}

/// One whole notification line: no id of its own, the resource id and the
/// event payload as the two `params` members.
pub open spec fn spec_notification_line(id: u64, method: Seq<char>, payload: Seq<char>) -> Seq<
    char,
> {
    ("{\"jsonrpc\":\"2.0\",\"method\":")@ + spec_quoted(method) + (",\"params\":[")@ + spec_dec(
        id as int,
    ) + (",")@ + payload + ("]}")@
}

/// One whole error envelope: how a notification-path failure reaches the
/// client. It is an error object bound to no request (`id` is null), so the
/// client learns the event stream may be incomplete while the session goes
/// on.
pub open spec fn spec_error_envelope(e: MyError) -> Seq<char> {
    ("{\"jsonrpc\":\"2.0\",\"error\":{\"code\":-1,\"message\":")@ + spec_quoted(
        spec_error_message(e),
    ) + ("},\"id\":null}")@
}

/// Builds the error envelope for a notification-path failure.
pub fn error_envelope(e: &MyError) -> (out: String)
    ensures
        out@ == spec_error_envelope(*e),
{
    let mut out = String::from_str("{\"jsonrpc\":\"2.0\",\"error\":{\"code\":-1,\"message\":");
    let msg = error_message(e);
    quote_into(&mut out, msg.as_str());
    out.append("},\"id\":null}");
    proof {
        assert(out@ =~= spec_error_envelope(*e));
    }
    out
}

} // verus!
