//! The tagged envelope exchanged with the chat server, and its JSON form:
//! `{"messageType": "users" | "register" | "message", "dataArray": [..], "data": ".."}`.
use crate::json::{field, get_field, json_of, json_quoted, member, members, parse_json, quote, Json};
use vstd::prelude::*;

verus! {

/// The closed set of envelope kinds.
#[derive(Clone, Copy, Debug, PartialEq, Eq, Structural)]
pub enum MsgTypes {
    Users,
    Register,
    Message,
}

/// An envelope: its kind together with the one payload that the kind carries.
/// `Message` carries the JSON text of a chat message inbound, and the bare
/// message text outbound.
#[derive(Debug, PartialEq, Eq)]
pub enum Envelope {
    Users(Vec<String>),
    Register(String),
    Message(String),
}

/// The mathematical value of an envelope.
pub enum EnvelopeModel {
    Users(Seq<Seq<char>>),
    Register(Seq<char>),
    Message(Seq<char>),
}

impl View for Envelope {
    type V = EnvelopeModel;

    open spec fn view(&self) -> EnvelopeModel {
        match self {
            Envelope::Users(l) => EnvelopeModel::Users(strs_view(l@)),
            Envelope::Register(s) => EnvelopeModel::Register(s@),
            Envelope::Message(s) => EnvelopeModel::Message(s@),
        }
    }
}

/// Why a frame could not be read.
#[derive(Clone, Copy, Debug, PartialEq, Eq, Structural)]
pub enum DecodeError {
    /// The text is not JSON.
    Malformed,
    /// There is no `messageType` string.
    MissingType,
    /// `messageType` is not one of the three kinds.
    UnknownType,
    /// The payload fields do not match the kind.
    PayloadMismatch,
    /// The `data` of a `message` envelope is not a chat message.
    BadChatMessage,
}

pub open spec fn users_tag() -> Seq<char> {
    "users"@
}

pub open spec fn register_tag() -> Seq<char> {
    "register"@
}

pub open spec fn message_tag() -> Seq<char> {
    "message"@
}

pub open spec fn kind_of_tag(t: Seq<char>) -> Option<MsgTypes> {
    if t == users_tag() {
        Some(MsgTypes::Users)
    } else if t == register_tag() {
        Some(MsgTypes::Register)
    } else if t == message_tag() {
        Some(MsgTypes::Message)
    } else {
        None
    }
}

pub open spec fn tag_of_kind(k: MsgTypes) -> Seq<char> {
    match k {
        MsgTypes::Users => users_tag(),
        MsgTypes::Register => register_tag(),
        MsgTypes::Message => message_tag(),
    }
}

pub open spec fn kind_of(e: EnvelopeModel) -> MsgTypes {
    match e {
        EnvelopeModel::Users(_) => MsgTypes::Users,
        EnvelopeModel::Register(_) => MsgTypes::Register,
        EnvelopeModel::Message(_) => MsgTypes::Message,
    }
}

pub open spec fn strs_view(v: Seq<String>) -> Seq<Seq<char>> {
    v.map_values(|s: String| s@)
}

/// The text of a JSON string, empty for any other value.
pub open spec fn str_view(j: Json) -> Seq<char> {
    match j {
        Json::Str(s) => s@,
        _ => Seq::empty(),
    }
}

/// The texts of an array of JSON strings; `None` for any other value.
pub open spec fn str_list(j: Json) -> Option<Seq<Seq<char>>> {
    match j {
        Json::Array(a) => if forall|i: int| 0 <= i < a@.len() ==> #[trigger] a@[i] is Str {
            Some(a@.map_values(|x: Json| str_view(x)))
        } else {
            None
        },
        _ => None,
    }
}

/// The envelope that a JSON value stands for: a `messageType` string naming
/// one of the kinds, and exactly the payload member that the kind requires,
/// of the right JSON type. A member set to null counts as absent.
pub open spec fn decode_json_spec(j: Json) -> Result<EnvelopeModel, DecodeError> {
    match field(j, "messageType"@) {
        None => Err(DecodeError::MissingType),
        Some(Json::Str(t)) => match kind_of_tag(t@) {
            None => Err(DecodeError::UnknownType),
            Some(MsgTypes::Users) => match (field(j, "dataArray"@), field(j, "data"@)) {
                (Some(a), None) => match str_list(a) {
                    Some(l) => Ok(EnvelopeModel::Users(l)),
                    None => Err(DecodeError::PayloadMismatch),
                },
                _ => Err(DecodeError::PayloadMismatch),
            },
            Some(MsgTypes::Register) => match (field(j, "dataArray"@), field(j, "data"@)) {
                (None, Some(Json::Str(s))) => Ok(EnvelopeModel::Register(s@)),
                _ => Err(DecodeError::PayloadMismatch),
            },
            Some(MsgTypes::Message) => match (field(j, "dataArray"@), field(j, "data"@)) {
                (None, Some(Json::Str(s))) => Ok(EnvelopeModel::Message(s@)),
                _ => Err(DecodeError::PayloadMismatch),
            },
        },
        Some(_) => Err(DecodeError::UnknownType),
    }
}

/// What a text frame stands for.
pub open spec fn decode_spec(text: Seq<char>) -> Result<EnvelopeModel, DecodeError> {
    match json_of(text) {
        None => Err(DecodeError::Malformed),
        Some(j) => decode_json_spec(j),
    }
}


/// The string literals of a list, separated by commas.
pub open spec fn join_quoted(l: Seq<Seq<char>>) -> Seq<char>
    decreases l.len(),
{
    if l.len() == 0 {
        Seq::empty()
    } else if l.len() == 1 {
        json_quoted(l[0])
    } else {
        join_quoted(l.drop_last()) + ","@ + json_quoted(l.last())
    }
}

/// The text frame of an envelope: the kind's tag and only the payload field
/// that the kind uses.
pub open spec fn encode_spec(e: EnvelopeModel) -> Seq<char> {
    match e {
        EnvelopeModel::Users(l) => "{\"messageType\":\"users\",\"dataArray\":["@ + join_quoted(l)
            + "]}"@,
        EnvelopeModel::Register(s) => "{\"messageType\":\"register\",\"data\":"@ + json_quoted(s)
            + "}"@,
        EnvelopeModel::Message(s) => "{\"messageType\":\"message\",\"data\":"@ + json_quoted(s)
            + "}"@,
    }
}

fn eq_str(a: &String, b: &str) -> (r: bool)
    ensures
        r == (a@ == b@),
{
    let owned = String::from_str(b);
    *a == owned
}

impl MsgTypes {
    /// The wire tag of the kind.
    pub fn tag(&self) -> (r: String)
        ensures
            r@ == tag_of_kind(*self),
    {
        match self {
            MsgTypes::Users => String::from_str("users"),
            MsgTypes::Register => String::from_str("register"),
            MsgTypes::Message => String::from_str("message"),
        }
    }

    /// The kind that a wire tag names, if any.
    pub fn from_tag(t: &String) -> (r: Option<MsgTypes>)
        ensures
            r == kind_of_tag(t@),
    {
        if eq_str(t, "users") {
            Some(MsgTypes::Users)
        } else if eq_str(t, "register") {
            Some(MsgTypes::Register)
        } else if eq_str(t, "message") {
            Some(MsgTypes::Message)
        } else {
            None
        }
    }
}

impl Envelope {
    /// The kind of the envelope.
    pub fn kind(&self) -> (r: MsgTypes)
        ensures
            r == kind_of(self@),
    {
        match self {
            Envelope::Users(_) => MsgTypes::Users,
            Envelope::Register(_) => MsgTypes::Register,
            Envelope::Message(_) => MsgTypes::Message,
        }
    }
}

/// The texts of an array of JSON strings, or `None` where an item is not a
/// string.
pub fn read_str_list(a: &Vec<Json>) -> (r: Option<Vec<String>>)
    ensures
        match r {
            Some(v) => str_list(Json::Array(*a)) == Some(strs_view(v@)),
            None => str_list(Json::Array(*a)) is None,
        },
{
    let mut out: Vec<String> = Vec::new();
    let mut i: usize = 0;
    while i < a.len()
        invariant
            0 <= i <= a.len(),
            forall|k: int| 0 <= k < i ==> #[trigger] a@[k] is Str,
            strs_view(out@) =~= a@.take(i as int).map_values(|x: Json| str_view(x)),
        decreases a.len() - i,
    {
        match &a[i] {
            Json::Str(s) => {
                let ghost before = out@;
                out.push(s.clone());
                assert(strs_view(out@) =~= strs_view(before).push(str_view(a@[i as int])));
            },
            _ => {
                return None;
            },
        }
        assert(a@.take(i + 1) =~= a@.take(i as int).push(a@[i as int]));
        i = i + 1;
    }
    assert(a@.take(a.len() as int) =~= a@);
    Some(out)
}

/// The string text of a member, where it is a JSON string.
fn read_str(j: &Json, key: &str) -> (r: Option<String>)
    ensures
        match r {
            Some(s) => field(*j, key@) matches Some(Json::Str(t)) && t@ == s@,
            None => !(field(*j, key@) matches Some(Json::Str(_))),
        },
{
    match get_field(j, key) {
        Some(Json::Str(s)) => Some(s.clone()),
        _ => None,
    }
}

/// Reads an envelope from a JSON value.
pub fn decode_json(j: &Json) -> (r: Result<Envelope, DecodeError>)
    ensures
        match r {
            Ok(e) => decode_json_spec(*j) == Ok::<EnvelopeModel, DecodeError>(e@),
            Err(x) => decode_json_spec(*j) == Err::<EnvelopeModel, DecodeError>(x),
        },
{
    let kind = match get_field(j, "messageType") {
        None => return Err(DecodeError::MissingType),
        Some(Json::Str(t)) => match MsgTypes::from_tag(t) {
            None => return Err(DecodeError::UnknownType),
            Some(k) => k,
        },
        Some(_) => return Err(DecodeError::UnknownType),
    };
    let list = get_field(j, "dataArray");
    let data = get_field(j, "data");
    match kind {
        MsgTypes::Users => match (list, data) {
            (Some(Json::Array(a)), None) => match read_str_list(a) {
                Some(l) => Ok(Envelope::Users(l)),
                None => Err(DecodeError::PayloadMismatch),
            },
            _ => Err(DecodeError::PayloadMismatch),
        },
        MsgTypes::Register => match (list, data) {
            (None, Some(Json::Str(s))) => Ok(Envelope::Register(s.clone())),
            _ => Err(DecodeError::PayloadMismatch),
        },
        MsgTypes::Message => match (list, data) {
            (None, Some(Json::Str(s))) => Ok(Envelope::Message(s.clone())),
            _ => Err(DecodeError::PayloadMismatch),
        },
    }
}

/// Reads an envelope from a text frame.
pub fn decode(text: &str) -> (r: Result<Envelope, DecodeError>)
    ensures
        match r {
            Ok(e) => decode_spec(text@) == Ok::<EnvelopeModel, DecodeError>(e@),
            Err(x) => decode_spec(text@) == Err::<EnvelopeModel, DecodeError>(x),
        },
{
    match parse_json(text) {
        None => Err(DecodeError::Malformed),
        Some(j) => decode_json(&j),
    }
}


/// Writes an envelope as a text frame.
pub fn encode(e: &Envelope) -> (r: String)
    ensures
        r@ == encode_spec(e@),
{
    match e {
        Envelope::Users(l) => {
            let mut out = String::from_str("{\"messageType\":\"users\",\"dataArray\":[");
            let mut i: usize = 0;
            while i < l.len()
                invariant
                    0 <= i <= l.len(),
                    out@ == "{\"messageType\":\"users\",\"dataArray\":["@ + join_quoted(
                        strs_view(l@).take(i as int),
                    ),
                decreases l.len() - i,
            {
                if i > 0 {
                    out.append(",");
                }
                let q = quote(l[i].as_str());
                out.append(q.as_str());
                proof {
                    let s = strs_view(l@);
                    let t = s.take(i + 1);
                    assert(t.drop_last() =~= s.take(i as int));
                    assert(t.last() == l@[i as int]@);
                    if i == 0 {
                        assert(s.take(0) =~= Seq::<Seq<char>>::empty());
                    }
                }
                i = i + 1;
            }
            assert(strs_view(l@).take(l.len() as int) =~= strs_view(l@));
            out.append("]}");
            out
        },
        Envelope::Register(s) => {
            let mut out = String::from_str("{\"messageType\":\"register\",\"data\":");
            let q = quote(s.as_str());
            out.append(q.as_str());
            out.append("}");
            out
        },
        Envelope::Message(s) => {
            let mut out = String::from_str("{\"messageType\":\"message\",\"data\":");
            let q = quote(s.as_str());
            out.append(q.as_str());
            out.append("}");
            out
        },
    }
}

/// A JSON value holds exactly the members that `encode_spec` writes for an
/// envelope, in serde_json's order of keys: the payload member, then
/// `messageType` with the kind's tag.
pub open spec fn written_as(j: Json, e: EnvelopeModel) -> bool {
    match j {
        Json::Object(o) => o@.len() == 2 && o@[1].0@ == "messageType"@ && o@[1].1 is Str
            && str_view(o@[1].1) == tag_of_kind(kind_of(e)) && match e {
            EnvelopeModel::Users(l) => o@[0].0@ == "dataArray"@ && str_list(o@[0].1) == Some(l),
            EnvelopeModel::Register(d) => o@[0].0@ == "data"@ && o@[0].1 is Str && str_view(
                o@[0].1,
            ) == d,
            EnvelopeModel::Message(d) => o@[0].0@ == "data"@ && o@[0].1 is Str && str_view(
                o@[0].1,
            ) == d,
        },
        _ => false,
    }
}

/// Reading back a JSON value that holds the members written for an envelope
/// gives the envelope.
pub proof fn lemma_round_trip(j: Json, e: EnvelopeModel)
    requires
        written_as(j, e),
    ensures
        decode_json_spec(j) == Ok::<EnvelopeModel, DecodeError>(e),
{
    reveal_strlit("users");
    reveal_strlit("register");
    reveal_strlit("message");
    reveal_strlit("messageType");
    reveal_strlit("dataArray");
    reveal_strlit("data");
    assert(users_tag()[0] != register_tag()[0]);
    assert(users_tag()[0] != message_tag()[0]);
    assert(register_tag()[0] != message_tag()[0]);
    let o = members(j);
    let rest = o.drop_first();
    assert(rest.drop_first() =~= Seq::<(String, Json)>::empty());
    assert(o[0].0@ != "messageType"@) by {
        assert(o[0].0@[0] != "messageType"@[0]);
    }
    assert("messageType"@.len() == 11);
    assert("dataArray"@.len() == 9);
    assert("data"@.len() == 4);
    assert(o[1].0@ != "data"@);
    assert(o[1].0@ != "dataArray"@);
    assert(rest[0] == o[1]);
    assert(member(rest.drop_first(), "data"@) is None);
    assert(member(rest.drop_first(), "dataArray"@) is None);
    assert(member(rest, "data"@) is None);
    assert(member(rest, "dataArray"@) is None);
    assert(o.len() == 2);
    assert(rest[0].0@ == "messageType"@);
    assert(member(rest, "messageType"@) == Some(rest[0].1));
    assert(member(o, "messageType"@) == Some(o[1].1));
    if e is Users {
        assert(o[0].0@ != "data"@);
        assert(member(o, "data"@) is None);
    } else {
        assert(o[0].0@ != "dataArray"@);
        assert(member(o, "dataArray"@) is None);
    }
}

/// A value without a `messageType` string, with a tag outside the three
/// kinds, or whose payload members do not match the kind, is rejected with
/// the matching error; a text that is not JSON is rejected as malformed.
pub proof fn lemma_rejection(j: Json, text: Seq<char>)
    ensures
        field(j, "messageType"@) is None ==> decode_json_spec(j) == Err::<EnvelopeModel, DecodeError>(
            DecodeError::MissingType,
        ),
        field(j, "messageType"@) is Some && !(field(j, "messageType"@) matches Some(
            Json::Str(t),
        ) && kind_of_tag(t@) is Some) ==> decode_json_spec(j) == Err::<
            EnvelopeModel,
            DecodeError,
        >(DecodeError::UnknownType),
        decode_json_spec(j) is Ok ==> field(j, "dataArray"@) is None || field(j, "data"@) is None,
        decode_json_spec(j) matches Ok(EnvelopeModel::Users(l)) ==> field(j, "dataArray"@)
            matches Some(a) && str_list(a) == Some(l),
        json_of(text) is None ==> decode_spec(text) == Err::<EnvelopeModel, DecodeError>(
            DecodeError::Malformed,
        ),
{
}

} // verus!
