//! The wire envelope and the nested chat-message payload, to and from JSON text.
use vstd::prelude::*;
use crate::json::{
    JsonView, json_parse, json_view, nested_within, object_of, views_of, keys_distinct,
    parse_json, to_json_text, json_null, json_string, json_array, json_object, json_member,
    json_as_str, json_as_array, json_is_null,
};

verus! {

/// The kind of an envelope, written on the wire as its lower-case name.
#[derive(Clone, Copy, Debug, PartialEq, Eq, Structural)]
pub enum MsgTypes {
    Users,
    Register,
    Message,
}

/// Why a text could not be read as an envelope or a chat message.
#[derive(Clone, Copy, Debug, PartialEq, Eq, Structural)]
pub enum DecodeError {
    /// The text is not a JSON document.
    Syntax,
    /// The document is JSON but lacks a field, or a field has the wrong kind.
    Shape,
    /// `messageType` names none of the known kinds.
    UnknownType,
}

/// The unit on the wire: a kind, and a text or a list of texts as payload.
#[derive(Clone, Debug, PartialEq, Eq)]
pub struct Envelope {
    pub message_type: MsgTypes,
    pub data_array: Option<Vec<String>>,
    pub data: Option<String>,
}

pub struct EnvelopeView {
    pub message_type: MsgTypes,
    pub data_array: Option<Seq<Seq<char>>>,
    pub data: Option<Seq<char>>,
}

pub open spec fn strings_view(v: Seq<String>) -> Seq<Seq<char>> {
    v.map_values(|s: String| s@)
}

impl View for Envelope {
    type V = EnvelopeView;

    open spec fn view(&self) -> EnvelopeView {
        EnvelopeView {
            message_type: self.message_type,
            data_array: match self.data_array {
                Some(a) => Some(strings_view(a@)),
                None => None,
            },
            data: match self.data {
                Some(d) => Some(d@),
                None => None,
            },
        }
    }
}

/// A chat line: who sent it and what it says.
#[derive(Clone, Debug, PartialEq, Eq)]
pub struct MessageData {
    pub from: String,
    pub message: String,
}

pub struct MessageView {
    pub from: Seq<char>,
    pub message: Seq<char>,
}

impl View for MessageData {
    type V = MessageView;

    open spec fn view(&self) -> MessageView {
        MessageView { from: self.from@, message: self.message@ }
    }
}

pub open spec fn tag_text(t: MsgTypes) -> Seq<char> {
    match t {
        MsgTypes::Users => "users"@,
        MsgTypes::Register => "register"@,
        MsgTypes::Message => "message"@,
    }
}

pub open spec fn type_of_tag(s: Seq<char>) -> Option<MsgTypes> {
    if s == "users"@ {
        Some(MsgTypes::Users)
    } else if s == "register"@ {
        Some(MsgTypes::Register)
    } else if s == "message"@ {
        Some(MsgTypes::Message)
    } else {
        None
    }
}

/// The JSON form of an envelope: all three members, an absent payload as null.
pub open spec fn envelope_json(e: EnvelopeView) -> JsonView {
    JsonView::Object(
        Map::empty().insert("messageType"@, JsonView::Str(tag_text(e.message_type))).insert(
            "dataArray"@,
            match e.data_array {
                Some(a) => JsonView::Array(a.map_values(|s: Seq<char>| JsonView::Str(s))),
                None => JsonView::Null,
            },
        ).insert(
            "data"@,
            match e.data {
                Some(d) => JsonView::Str(d),
                None => JsonView::Null,
            },
        ),
    )
}

/// A member that must be a string.
pub open spec fn required_str(m: Map<Seq<char>, JsonView>, key: Seq<char>) -> Result<Seq<char>, DecodeError> {
    if m.contains_key(key) && m[key] is Str {
        Ok(m[key]->Str_0)
    } else {
        Err(DecodeError::Shape)
    }
}

/// A member that may be missing or null, and is otherwise a string.
pub open spec fn optional_str(m: Map<Seq<char>, JsonView>, key: Seq<char>) -> Result<Option<Seq<char>>, DecodeError> {
    if !m.contains_key(key) || m[key] is Null {
        Ok(None)
    } else if m[key] is Str {
        Ok(Some(m[key]->Str_0))
    } else {
        Err(DecodeError::Shape)
    }
}

pub open spec fn all_str(items: Seq<JsonView>) -> bool {
    forall|i: int| 0 <= i < items.len() ==> #[trigger] items[i] is Str
}

/// A member that may be missing or null, and is otherwise an array of strings.
pub open spec fn optional_str_list(m: Map<Seq<char>, JsonView>, key: Seq<char>) -> Result<Option<Seq<Seq<char>>>, DecodeError> {
    if !m.contains_key(key) || m[key] is Null {
        Ok(None)
    } else if m[key] is Array && all_str(m[key]->Array_0) {
        Ok(Some(m[key]->Array_0.map_values(|j: JsonView| j->Str_0)))
    } else {
        Err(DecodeError::Shape)
    }
}

pub open spec fn message_type_of(m: Map<Seq<char>, JsonView>) -> Result<MsgTypes, DecodeError> {
    match required_str(m, "messageType"@) {
        Err(e) => Err(e),
        Ok(s) => match type_of_tag(s) {
            Some(t) => Ok(t),
            None => Err(DecodeError::UnknownType),
        },
    }
}

/// The envelope that a JSON document holds. Members other than the three are ignored.
pub open spec fn envelope_from_json(j: JsonView) -> Result<EnvelopeView, DecodeError> {
    match j {
        JsonView::Object(m) => match message_type_of(m) {
            Err(e) => Err(e),
            Ok(t) => match optional_str_list(m, "dataArray"@) {
                Err(e) => Err(e),
                Ok(a) => match optional_str(m, "data"@) {
                    Err(e) => Err(e),
                    Ok(d) => Ok(EnvelopeView { message_type: t, data_array: a, data: d }),
                },
            },
        },
        _ => Err(DecodeError::Shape),
    }
}

pub open spec fn decode_spec(text: Seq<char>) -> Result<EnvelopeView, DecodeError> {
    match json_parse(text) {
        Some(j) => envelope_from_json(j),
        None => Err(DecodeError::Syntax),
    }
}

/// The chat message that a JSON document holds: an object with string
/// members `from` and `message`.
pub open spec fn message_from_json(j: JsonView) -> Result<MessageView, DecodeError> {
    match j {
        JsonView::Object(m) => match required_str(m, "from"@) {
            Err(e) => Err(e),
            Ok(f) => match required_str(m, "message"@) {
                Err(e) => Err(e),
                Ok(t) => Ok(MessageView { from: f, message: t }),
            },
        },
        _ => Err(DecodeError::Shape),
    }
}

pub open spec fn decode_message_spec(text: Seq<char>) -> Result<MessageView, DecodeError> {
    match json_parse(text) {
        Some(j) => message_from_json(j),
        None => Err(DecodeError::Syntax),
    }
}

/// The chat message carried by a `Message` envelope's `data`; an absent
/// `data` carries none.
pub open spec fn payload_spec(data: Option<Seq<char>>) -> Result<MessageView, DecodeError> {
    match data {
        Some(d) => decode_message_spec(d),
        None => Err(DecodeError::Shape),
    }
}

proof fn envelope_keys_distinct()
    ensures
        "messageType"@ != "dataArray"@,
        "messageType"@ != "data"@,
        "dataArray"@ != "data"@,
{
    reveal_strlit("messageType");
    reveal_strlit("dataArray");
    reveal_strlit("data");
    assert("messageType"@[0] != "dataArray"@[0]);
    assert("messageType"@[0] != "data"@[0]);
    assert("dataArray"@.len() != "data"@.len());
}

/// The JSON form of an envelope reads back as the same envelope.
pub proof fn envelope_json_round_trip(e: EnvelopeView)
    ensures
        envelope_from_json(envelope_json(e)) == Ok::<EnvelopeView, DecodeError>(e),
{
    reveal_strlit("users");
    reveal_strlit("register");
    reveal_strlit("message");
    envelope_keys_distinct();
    let j = envelope_json(e);
    let m = j->Object_0;
    assert(m.contains_key("messageType"@));
    assert(m["messageType"@] == JsonView::Str(tag_text(e.message_type)));
    assert("users"@ != "register"@) by { assert("users"@[0] != "register"@[0]); }
    assert("users"@ != "message"@) by { assert("users"@[0] != "message"@[0]); }
    assert("register"@ != "message"@) by { assert("register"@[0] != "message"@[0]); }
    assert(type_of_tag(tag_text(e.message_type)) == Some(e.message_type));
    match e.data_array {
        Some(a) => {
            let items = a.map_values(|s: Seq<char>| JsonView::Str(s));
            assert(m["dataArray"@] == JsonView::Array(items));
            assert(all_str(items));
            assert(items.map_values(|x: JsonView| x->Str_0) =~= a);
        },
        None => {},
    }
}

/// Any text that holds an envelope's JSON form, such as the text `encode`
/// gives, decodes to that same envelope.
pub proof fn decode_reads_encoded(e: EnvelopeView, text: Seq<char>)
    requires
        json_parse(text) == Some(envelope_json(e)),
    ensures
        decode_spec(text) == Ok::<EnvelopeView, DecodeError>(e),
{
    envelope_json_round_trip(e);
}

/// The JSON text of an envelope.
pub fn encode(e: &Envelope) -> (r: String)
    ensures
        json_parse(r@) == Some(envelope_json(e@)),
        decode_spec(r@) == Ok::<EnvelopeView, DecodeError>(e@),
{
    let tag = match e.message_type {
        MsgTypes::Users => String::from_str("users"),
        MsgTypes::Register => String::from_str("register"),
        MsgTypes::Message => String::from_str("message"),
    };
    let data_array = match &e.data_array {
        Some(a) => {
            let mut items: Vec<serde_json::Value> = Vec::new();
            let mut i: usize = 0;
            while i < a.len()
                invariant
                    i <= a.len(),
                    items@.len() == i,
                    forall|k: int| 0 <= k < i ==> json_view(#[trigger] items@[k]) == JsonView::Str(a@[k]@),
                decreases a.len() - i,
            {
                items.push(json_string(a[i].clone()));
                i += 1;
            }
            proof {
                assert(views_of(items@) =~= strings_view(a@).map_values(|s: Seq<char>| JsonView::Str(s)));
            }
            json_array(items)
        },
        None => json_null(),
    };
    let data = match &e.data {
        Some(d) => json_string(d.clone()),
        None => json_null(),
    };
    let mut entries: Vec<(String, serde_json::Value)> = Vec::new();
    entries.push((String::from_str("messageType"), json_string(tag)));
    entries.push((String::from_str("dataArray"), data_array));
    entries.push((String::from_str("data"), data));
    proof {
        envelope_keys_distinct();
        assert(keys_distinct(entries@));
        let es = entries@;
        assert(es.drop_last().drop_last().drop_last() =~= Seq::<(String, serde_json::Value)>::empty());
        assert(object_of(es.drop_last().drop_last().drop_last()) == Map::<Seq<char>, JsonView>::empty());
        assert(object_of(es.drop_last().drop_last()) == Map::<Seq<char>, JsonView>::empty().insert(es[0].0@, json_view(es[0].1)));
        assert(object_of(es.drop_last()) == object_of(es.drop_last().drop_last()).insert(es[1].0@, json_view(es[1].1)));
        assert(object_of(es) == object_of(es.drop_last()).insert(es[2].0@, json_view(es[2].1)));
        assert(object_of(es) =~= envelope_json(e@)->Object_0);
    }
    let v = json_object(entries);
    proof {
        envelope_json_round_trip(e@);
        let m = json_view(v)->Object_0;
        if let Some(a) = e@.data_array {
            let items = a.map_values(|s: Seq<char>| JsonView::Str(s));
            assert forall|i: int| 0 <= i < items.len() implies nested_within(#[trigger] items[i], 98nat) by {
                assert(items[i] is Str);
            }
        }
        assert(nested_within(m["dataArray"@], 99nat));
        assert(forall|k: Seq<char>| m.contains_key(k) ==> nested_within(#[trigger] m[k], 99nat));
    }
    to_json_text(&v)
}

fn read_required_str(v: &serde_json::Value, key: &str) -> (r: Result<String, DecodeError>)
    requires
        json_view(*v) is Object,
    ensures
        match required_str(json_view(*v)->Object_0, key@) {
            Ok(s) => r matches Ok(t) && t@ == s,
            Err(e) => r == Err::<String, DecodeError>(e),
        },
{
    match json_member(v, key) {
        Some(m) => match json_as_str(m) {
            Some(s) => Ok(s),
            None => Err(DecodeError::Shape),
        },
        None => Err(DecodeError::Shape),
    }
}

fn read_optional_str(v: &serde_json::Value, key: &str) -> (r: Result<Option<String>, DecodeError>)
    requires
        json_view(*v) is Object,
    ensures
        match optional_str(json_view(*v)->Object_0, key@) {
            Ok(Some(s)) => r matches Ok(Some(t)) && t@ == s,
            Ok(None) => r matches Ok(None),
            Err(e) => r == Err::<Option<String>, DecodeError>(e),
        },
{
    match json_member(v, key) {
        Some(m) => {
            if json_is_null(m) {
                Ok(None)
            } else {
                match json_as_str(m) {
                    Some(s) => Ok(Some(s)),
                    None => Err(DecodeError::Shape),
                }
            }
        },
        None => Ok(None),
    }
}

fn read_optional_str_list(v: &serde_json::Value, key: &str) -> (r: Result<Option<Vec<String>>, DecodeError>)
    requires
        json_view(*v) is Object,
    ensures
        match optional_str_list(json_view(*v)->Object_0, key@) {
            Ok(Some(s)) => r matches Ok(Some(t)) && strings_view(t@) == s,
            Ok(None) => r matches Ok(None),
            Err(e) => r == Err::<Option<Vec<String>>, DecodeError>(e),
        },
{
    let ghost obj = json_view(*v)->Object_0;
    let m = match json_member(v, key) {
        Some(m) => m,
        None => return Ok(None),
    };
    if json_is_null(m) {
        return Ok(None);
    }
    let items = match json_as_array(m) {
        Some(items) => items,
        None => return Err(DecodeError::Shape),
    };
    let ghost js = json_view(*m)->Array_0;
    assert(obj[key@] == JsonView::Array(js));
    let mut out: Vec<String> = Vec::new();
    let mut i: usize = 0;
    while i < items.len()
        invariant
            i <= items@.len(),
            js == views_of(items@),
            obj == json_view(*v)->Object_0,
            obj.contains_key(key@),
            obj[key@] == JsonView::Array(js),
            out@.len() == i,
            forall|k: int| 0 <= k < i ==> (#[trigger] js[k] is Str),
            forall|k: int| 0 <= k < i ==> (#[trigger] out@[k])@ == js[k]->Str_0,
        decreases items.len() - i,
    {
        assert(js[i as int] == json_view(items@[i as int]));
        match json_as_str(&items[i]) {
            Some(s) => out.push(s),
            None => {
                proof {
                    assert(!(js[i as int] is Str));
                    assert(!all_str(js));
                    assert(optional_str_list(obj, key@) == Err::<Option<Seq<Seq<char>>>, DecodeError>(DecodeError::Shape));
                }
                return Err(DecodeError::Shape);
            },
        }
        i += 1;
    }
    proof {
        assert(js.len() == items@.len());
        assert(all_str(js));
        assert(strings_view(out@) =~= js.map_values(|j: JsonView| j->Str_0));
    }
    Ok(Some(out))
}

fn read_message_type(v: &serde_json::Value) -> (r: Result<MsgTypes, DecodeError>)
    requires
        json_view(*v) is Object,
    ensures
        r == message_type_of(json_view(*v)->Object_0),
{
    let s = match read_required_str(v, "messageType") {
        Ok(s) => s,
        Err(e) => return Err(e),
    };
    let users = String::from_str("users");
    let register = String::from_str("register");
    let message = String::from_str("message");
    if s == users {
        Ok(MsgTypes::Users)
    } else if s == register {
        Ok(MsgTypes::Register)
    } else if s == message {
        Ok(MsgTypes::Message)
    } else {
        Err(DecodeError::UnknownType)
    }
}

/// Reads an envelope from its JSON text.
pub fn decode(text: &str) -> (r: Result<Envelope, DecodeError>)
    ensures
        match decode_spec(text@) {
            Ok(e) => r matches Ok(d) && d@ == e,
            Err(e) => r == Err::<Envelope, DecodeError>(e),
        },
{
    let v = match parse_json(text) {
        Ok(v) => v,
        Err(_) => return Err(DecodeError::Syntax),
    };
    let t = match json_member(&v, "messageType") {
        Some(_) => read_message_type(&v),
        None => Err(DecodeError::Shape),
    };
    let message_type = match t {
        Ok(t) => t,
        Err(e) => return Err(e),
    };
    let data_array = match read_optional_str_list(&v, "dataArray") {
        Ok(a) => a,
        Err(e) => return Err(e),
    };
    let data = match read_optional_str(&v, "data") {
        Ok(d) => d,
        Err(e) => return Err(e),
    };
    Ok(Envelope { message_type, data_array, data })
}

/// Reads a chat message from its JSON text.
pub fn decode_message(text: &str) -> (r: Result<MessageData, DecodeError>)
    ensures
        match decode_message_spec(text@) {
            Ok(m) => r matches Ok(d) && d@ == m,
            Err(e) => r == Err::<MessageData, DecodeError>(e),
        },
{
    let v = match parse_json(text) {
        Ok(v) => v,
        Err(_) => return Err(DecodeError::Syntax),
    };
    let from = match json_member(&v, "from") {
        Some(_) => read_required_str(&v, "from"),
        None => Err(DecodeError::Shape),
    };
    let from = match from {
        Ok(f) => f,
        Err(e) => return Err(e),
    };
    let message = match read_required_str(&v, "message") {
        Ok(m) => m,
        Err(e) => return Err(e),
    };
    Ok(MessageData { from, message })
}

} // verus!
