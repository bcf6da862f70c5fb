use vstd::prelude::*;
use vstd::string::StrSliceExecFns;
use vstd::string::StringExecFns;
use crate::errors::{MyError, ResourceKind};
use crate::json::{
    dec_u64, error_envelope, is_valid_json, json_wellformed, mic_json, quote_into,
    spec_error_envelope, spec_mic_json, spec_notification_line, spec_quoted,
};
use crate::rpc::MicrophoneState;

verus! {

/// An event the engine delivers to a session-wide registration callback,
/// on a thread the session does not control.
#[derive(Clone, Copy, PartialEq, Eq, Structural, Debug)]
pub enum EngineEvent {
    Paused(u64),
    MicrophoneState,
    UserChanged,
}

/// The engine operation the bridge must run for an event before the
/// notification is built: `Paused` carries the cookie the engine demands
/// back; the two state-change events carry no payload, so the current value
/// is re-queried.
#[derive(Clone, Copy, PartialEq, Eq, Structural, Debug)]
pub enum EngineQuery {
    Resume(u64),
    QueryMicrophone,
    QueryUser,
}

/// What the engine answered to an [`EngineQuery`].
#[derive(Clone, PartialEq, Eq, Debug)]
pub enum QueryReply {
    Resumed,
    Microphone(MicrophoneState),
    User(Option<String>),
}

/// The payload of a session-wide engine notification.
#[derive(Clone, PartialEq, Eq, Debug)]
pub enum EngineNotification {
    Paused,
    MicrophoneStateChanged { state: MicrophoneState },
    UserChanged { name: Option<String> },
}

/// The query owed for each event. A `Paused(cookie)` event owes exactly one
/// `Resume(cookie)`: the engine blocks until it is acknowledged.
pub open spec fn spec_query_for(e: EngineEvent) -> EngineQuery {
    match e {
        EngineEvent::Paused(cookie) => EngineQuery::Resume(cookie),
        EngineEvent::MicrophoneState => EngineQuery::QueryMicrophone,
        EngineEvent::UserChanged => EngineQuery::QueryUser,
    }
}

/// Whether a reply has the shape the event's query produces. A failure
/// report matches any event.
pub open spec fn reply_matches(e: EngineEvent, reply: Result<QueryReply, String>) -> bool {
    match reply {
        Err(_) => true,
        Ok(rep) => match (e, rep) {
            (EngineEvent::Paused(_), QueryReply::Resumed) => true,
            (EngineEvent::MicrophoneState, QueryReply::Microphone(_)) => true,
            (EngineEvent::UserChanged, QueryReply::User(_)) => true,
            _ => false,
        },
    }
}

/// The notification owed for a reply: a failed query (a failed resume
/// included) becomes an engine error instead of a normal notification,
/// never a silent drop.
pub open spec fn spec_from_event(reply: Result<QueryReply, String>) -> Result<
    EngineNotification,
    MyError,
> {
    match reply {
        Err(m) => Err(MyError::Engine(m)),
        Ok(QueryReply::Resumed) => Ok(EngineNotification::Paused),
        Ok(QueryReply::Microphone(s)) => Ok(EngineNotification::MicrophoneStateChanged { state: s }),
        Ok(QueryReply::User(n)) => Ok(EngineNotification::UserChanged { name: n }),
    }
}

/// The query the bridge runs for one event, before any notification for
/// that event is built or enqueued.
pub fn query_for_event(e: &EngineEvent) -> (q: EngineQuery)
    ensures
        q == spec_query_for(*e),
{
    match e {
        EngineEvent::Paused(cookie) => EngineQuery::Resume(*cookie),
        EngineEvent::MicrophoneState => EngineQuery::QueryMicrophone,
        EngineEvent::UserChanged => EngineQuery::QueryUser,
    }
}

impl EngineNotification {
    /// Turns an event and the reply of its query into the notification
    /// payload, or into the error the client must learn about. The caller
    /// has run exactly the query of [`query_for_event`] and hands its
    /// outcome in.
    pub fn from_event(e: &EngineEvent, reply: Result<QueryReply, String>) -> (r: Result<
        EngineNotification,
        MyError,
    >)
        requires
            reply_matches(*e, reply),
        ensures
            r == spec_from_event(reply),
    {
        match reply {
            Err(m) => Err(MyError::Engine(m)),
            Ok(QueryReply::Resumed) => Ok(EngineNotification::Paused),
            Ok(QueryReply::Microphone(s)) => Ok(
                EngineNotification::MicrophoneStateChanged { state: s },
            ),
            Ok(QueryReply::User(n)) => Ok(EngineNotification::UserChanged { name: n }),
        }
    }

    /// The JSON payload of the notification, tagged by a `type` member.
    pub open spec fn spec_json(self) -> Seq<char> {
        match self {
            EngineNotification::Paused => ("{\"type\":\"paused\"}")@,
            EngineNotification::MicrophoneStateChanged { state } => (
            "{\"type\":\"microphone_state_changed\",\"state\":")@ + spec_mic_json(state) + ("}")@,
            EngineNotification::UserChanged { name } => ("{\"type\":\"user_changed\",\"name\":")@
                + match name {
                Some(n) => spec_quoted(n@),
                None => ("null")@,
            } + ("}")@,
        }
    }

    /// Builds the JSON payload.
    pub fn to_json(&self) -> (r: String)
        ensures
            r@ == self.spec_json(),
    {
        match self {
            EngineNotification::Paused => String::from_str("{\"type\":\"paused\"}"),
            EngineNotification::MicrophoneStateChanged { state } => {
                let mut out = String::from_str("{\"type\":\"microphone_state_changed\",\"state\":");
                out.append(mic_json(*state));
                out.append("}");
                proof {
                    assert(out@ =~= self.spec_json());
                }
                out
            },
            EngineNotification::UserChanged { name } => {
                let mut out = String::from_str("{\"type\":\"user_changed\",\"name\":");
                match name {
                    Some(n) => quote_into(&mut out, n.as_str()),
                    None => out.append("null"),
                }
                out.append("}");
                proof {
                    assert(out@ =~= self.spec_json());
                }
                out
            },
        }
    }
}

/// Frames a payload as one notification line for a resource id.
pub fn create_notification(id: u64, method: &str, payload: &str) -> (line: String)
    ensures
        line@ == spec_notification_line(id, method@, payload@),
{
    let mut out = String::from_str("{\"jsonrpc\":\"2.0\",\"method\":");
    quote_into(&mut out, method);
    out.append(",\"params\":[");
    let d = dec_u64(id);
    out.append(d.as_str());
    out.append(",");
    out.append(payload);
    out.append("]}");
    proof {
        assert(out@ =~= spec_notification_line(id, method@, payload@));
    }
    out
}

/// The whole bridge step for a session-wide engine event: exactly what the
/// registration callback enqueues for the connection, a notification line
/// on success, the error to surface when the query (a resume included)
/// failed.
pub fn engine_event_notification(
    id: u64,
    e: &EngineEvent,
    reply: Result<QueryReply, String>,
) -> (r: Result<String, MyError>)
    requires
        reply_matches(*e, reply),
    ensures
        r is Ok <==> reply is Ok,
        r is Ok ==> r->Ok_0@ == spec_notification_line(
            id,
            ("engine_notification")@,
            spec_from_event(reply)->Ok_0.spec_json(),
        ),
        r is Err ==> r->Err_0 == spec_from_event(reply)->Err_0,
{
    match EngineNotification::from_event(e, reply) {
        Ok(n) => {
            let payload = n.to_json();
            Ok(create_notification(id, "engine_notification", payload.as_str()))
        },
        Err(err) => Err(err),
    }
}

/// What a phrase-finish event carries once the engine thread has weighed
/// it: whether a foreign grammar recognized the phrase, the recognized
/// words, and — for command grammars only — the structured parse the
/// grammar's result matcher produced, already in its JSON form, or `None`
/// when the phrase was foreign or unmatched.
#[derive(Clone, PartialEq, Eq, Debug)]
pub struct Recognition {
    pub foreign_grammar: bool,
    pub words: Vec<String>,
    pub parse: Option<String>,
}

/// An event the engine delivers to one grammar's callback.
#[derive(Clone, PartialEq, Eq, Debug)]
pub enum GrammarEvent {
    PhraseStart,
    PhraseFinish(Option<Recognition>),
}

/// The items of a JSON array of strings, comma separated.
pub open spec fn spec_words_items(ws: Seq<String>) -> Seq<char>
    decreases ws.len(),
{
    if ws.len() == 0 {
        Seq::empty()
    } else if ws.len() == 1 {
        spec_quoted(ws[0]@)
    } else {
        spec_quoted(ws[0]@) + seq![','] + spec_words_items(ws.drop_first())
    }
}

/// A JSON array of strings.
pub open spec fn spec_words_json(ws: Seq<String>) -> Seq<char> {
    seq!['['] + spec_words_items(ws) + seq![']']
}

proof fn lemma_words_items_snoc(ws: Seq<String>, w: String)
    ensures
        spec_words_items(ws.push(w)) == if ws.len() == 0 {
            spec_quoted(w@)
        } else {
            spec_words_items(ws) + seq![','] + spec_quoted(w@)
        },
    decreases ws.len(),
{
    if ws.len() == 0 {
        assert(ws.push(w)[0] == w);
        assert(spec_words_items(ws.push(w)) == spec_quoted(w@));
    } else {
        assert(ws.push(w)[0] == ws[0]);
        assert(ws.push(w).drop_first() =~= ws.drop_first().push(w));
        lemma_words_items_snoc(ws.drop_first(), w);
        if ws.len() == 1 {
            assert(spec_words_items(ws.push(w)) =~= spec_words_items(ws) + seq![','] + spec_quoted(
                w@,
            ));
        } else {
            assert(spec_words_items(ws.push(w)) =~= spec_words_items(ws) + seq![','] + spec_quoted(
                w@,
            ));
        }
    }
}

/// Builds the JSON array of recognized words.
pub fn words_json(ws: &Vec<String>) -> (r: String)
    ensures
        r@ == spec_words_json(ws@),
{
    let mut out = String::from_str("[");
    proof {
        reveal_strlit("[");
        assert(out@ =~= seq!['['] + spec_words_items(ws@.take(0int)));
    }
    let mut i: usize = 0;
    while i < ws.len()
        invariant
            i <= ws@.len(),
            out@ == seq!['['] + spec_words_items(ws@.take(i as int)),
        decreases ws@.len() - i,
    {
        if i > 0 {
            out.append(",");
        }
        quote_into(&mut out, ws[i].as_str());
        proof {
            reveal_strlit(",");
            assert(ws@.take(i + 1 as int) =~= ws@.take(i as int).push(ws@[i as int]));
            lemma_words_items_snoc(ws@.take(i as int), ws@[i as int]);
            assert(out@ =~= seq!['['] + spec_words_items(ws@.take(i + 1 as int)));
        }
        i = i + 1;
    }
    out.append("]");
    proof {
        reveal_strlit("]");
        assert(ws@.take(ws@.len() as int) =~= ws@);
        assert(out@ =~= spec_words_json(ws@));
    }
    out
}

/// A JSON boolean.
pub open spec fn spec_bool_json(b: bool) -> Seq<char> {
    if b {
        ("true")@
    } else {
        ("false")@
    }
}

/// The payload of a phrase-finish notification with a recognition: the
/// parse document is embedded verbatim.
pub open spec fn spec_recognition_json(r: Recognition) -> Seq<char> {
    ("{\"type\":\"phrase_finish\",\"foreign_grammar\":")@ + spec_bool_json(r.foreign_grammar) + (
    ",\"words\":")@ + spec_words_json(r.words@) + (",\"parse\":")@ + (match r.parse {
        Some(p) => p@,
        None => ("null")@,
    }) + ("}")@
}

/// The payload owed for a grammar event, when it can be built at all.
pub open spec fn spec_grammar_event_json(e: GrammarEvent) -> Seq<char> {
    match e {
        GrammarEvent::PhraseStart => ("{\"type\":\"phrase_start\"}")@,
        GrammarEvent::PhraseFinish(None) => ("{\"type\":\"phrase_finish\"}")@,
        GrammarEvent::PhraseFinish(Some(rec)) => spec_recognition_json(rec),
    }
}

/// Whether a grammar event can be framed: a parse document that is not
/// well-formed JSON cannot be embedded without corrupting the line.
pub open spec fn spec_grammar_event_ok(e: GrammarEvent) -> bool {
    match e {
        GrammarEvent::PhraseFinish(Some(rec)) => match rec.parse {
            Some(p) => json_wellformed(p@),
            None => true,
        },
        _ => true,
    }
}

/// Builds the payload of a grammar notification. Exactly when the attached
/// parse is not one well-formed JSON document, a serialization error comes
/// back instead, to be surfaced as a channel error: one bad event must not
/// corrupt the whole session.
pub fn grammar_event_json(e: &GrammarEvent) -> (r: Result<String, MyError>)
    ensures
        r is Ok <==> spec_grammar_event_ok(*e),
        r is Ok ==> r->Ok_0@ == spec_grammar_event_json(*e),
        r is Err ==> (r->Err_0 matches MyError::Serialization(m) && m@ == (
        "parse result is not a JSON document")@),
{
    match e {
        GrammarEvent::PhraseStart => Ok(String::from_str("{\"type\":\"phrase_start\"}")),
        GrammarEvent::PhraseFinish(None) => Ok(String::from_str("{\"type\":\"phrase_finish\"}")),
        GrammarEvent::PhraseFinish(Some(rec)) => {
            if let Some(p) = &rec.parse {
                if !is_valid_json(p.as_str()) {
                    return Err(
                        MyError::Serialization(
                            String::from_str("parse result is not a JSON document"),
                        ),
                    );
                }
            }
            let mut out = String::from_str("{\"type\":\"phrase_finish\",\"foreign_grammar\":");
            if rec.foreign_grammar {
                out.append("true");
            } else {
                out.append("false");
            }
            out.append(",\"words\":");
            let ws = words_json(&rec.words);
            out.append(ws.as_str());
            out.append(",\"parse\":");
            match &rec.parse {
                Some(p) => out.append(p.as_str()),
                None => out.append("null"),
            }
            out.append("}");
            proof {
                assert(out@ =~= spec_grammar_event_json(*e));
            }
            Ok(out)
        },
    }
}

/// The notification method name for each resource kind's events.
pub open spec fn spec_grammar_method(kind: ResourceKind) -> Seq<char> {
    match kind {
        ResourceKind::CommandGrammar => ("command_grammar_notification")@,
        ResourceKind::SelectGrammar => ("select_grammar_notification")@,
        ResourceKind::DictationGrammar => ("dictation_grammar_notification")@,
        ResourceKind::CatchallGrammar => ("catchall_grammar_notification")@,
        ResourceKind::EngineRegistration => ("engine_notification")@,
    }
}

/// The notification method name for each resource kind's events.
pub fn grammar_method(kind: ResourceKind) -> (r: &'static str)
    ensures
        r@ == spec_grammar_method(kind),
{
    match kind {
        ResourceKind::CommandGrammar => "command_grammar_notification",
        ResourceKind::SelectGrammar => "select_grammar_notification",
        ResourceKind::DictationGrammar => "dictation_grammar_notification",
        ResourceKind::CatchallGrammar => "catchall_grammar_notification",
        ResourceKind::EngineRegistration => "engine_notification",
    }
}

/// The whole bridge step for one grammar event: exactly what the grammar's
/// callback enqueues for the connection.
pub fn grammar_notification(id: u64, kind: ResourceKind, e: &GrammarEvent) -> (r: Result<
    String,
    MyError,
>)
    ensures
        r is Ok <==> spec_grammar_event_ok(*e),
        r is Ok ==> r->Ok_0@ == spec_notification_line(
            id,
            spec_grammar_method(kind),
            spec_grammar_event_json(*e),
        ),
        r is Err ==> (r->Err_0 matches MyError::Serialization(m) && m@ == (
        "parse result is not a JSON document")@),
{
    match grammar_event_json(e) {
        Ok(payload) => Ok(create_notification(id, grammar_method(kind), payload.as_str())),
        Err(err) => Err(err),
    }
}

/// What the connection's output path forwards for one queued channel item:
/// the notification line itself, or — for a propagated bridge error — the
/// error envelope that tells the client the event stream may be incomplete.
pub fn channel_item_line(item: &Result<String, MyError>) -> (r: String)
    ensures
        match item {
            Ok(line) => r@ == line@,
            Err(e) => r@ == spec_error_envelope(*e),
        },
{
    match item {
        Ok(line) => line.clone(),
        Err(e) => error_envelope(e),
    }
}

/// Law: the pause/resume handshake. A `Paused(cookie)` event owes exactly
/// the one query `Resume(cookie)`, run before its notification exists; a
/// successful resume yields exactly the `Paused` notification; a failed
/// resume yields an engine error in place of the notification, never a
/// silent drop.
pub proof fn lemma_pause_resume(cookie: u64, reply: Result<QueryReply, String>)
    ensures
        spec_query_for(EngineEvent::Paused(cookie)) == EngineQuery::Resume(cookie),
        reply == Ok::<QueryReply, String>(QueryReply::Resumed) ==> spec_from_event(reply) == Ok::<
            EngineNotification,
            MyError,
        >(EngineNotification::Paused),
        reply is Err ==> spec_from_event(reply) == Err::<EngineNotification, MyError>(
            MyError::Engine(reply->Err_0),
        ),
{
}

} // verus!
