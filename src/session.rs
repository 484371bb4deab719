//! One chat session: the roster and message log, the registration handshake,
//! and the step from an event to the new state and the frame to send.
use crate::json::{field, get_field, json_of, parse_json, Json};
use crate::wire::{decode, decode_spec, encode, encode_spec, strs_view, DecodeError, Envelope, EnvelopeModel};
use vstd::prelude::*;

verus! {

#[derive(Clone, Copy, Debug, PartialEq, Eq, Structural)]
pub enum Theme {
    Light,
    Dark,
}

/// Where the session stands with its connection. Registration is sent on
/// connect without waiting for an answer, so a connected session is active.
#[derive(Clone, Copy, Debug, PartialEq, Eq, Structural)]
pub enum SessionState {
    Active,
    Closed,
}

/// A member of the roster.
#[derive(Debug, PartialEq, Eq)]
pub struct UserProfile {
    pub name: String,
    pub avatar: String,
}

impl View for UserProfile {
    type V = (Seq<char>, Seq<char>);

    open spec fn view(&self) -> (Seq<char>, Seq<char>) {
        (self.name@, self.avatar@)
    }
}

/// A message of the log: who sent it and its text.
#[derive(Debug, PartialEq, Eq)]
pub struct ChatMessage {
    pub from: String,
    pub message: String,
}

impl View for ChatMessage {
    type V = (Seq<char>, Seq<char>);

    open spec fn view(&self) -> (Seq<char>, Seq<char>) {
        (self.from@, self.message@)
    }
}

/// The events a session reacts to.
#[derive(Debug)]
pub enum Msg {
    /// The connection was opened.
    Connected,
    /// The connection was closed.
    Disconnected,
    /// A text frame arrived.
    HandleMsg(String),
    /// The user submitted the text of a message.
    SubmitMessage(String),
    ToggleTheme,
}

pub enum MsgModel {
    Connected,
    Disconnected,
    HandleMsg(Seq<char>),
    SubmitMessage(Seq<char>),
    ToggleTheme,
}

impl View for Msg {
    type V = MsgModel;

    open spec fn view(&self) -> MsgModel {
        match self {
            Msg::Connected => MsgModel::Connected,
            Msg::Disconnected => MsgModel::Disconnected,
            Msg::HandleMsg(s) => MsgModel::HandleMsg(s@),
            Msg::SubmitMessage(s) => MsgModel::SubmitMessage(s@),
            Msg::ToggleTheme => MsgModel::ToggleTheme,
        }
    }
}

/// The mathematical value of a session.
pub struct ChatModel {
    pub username: Seq<char>,
    pub roster: Seq<(Seq<char>, Seq<char>)>,
    pub log: Seq<(Seq<char>, Seq<char>)>,
    pub state: SessionState,
    pub theme: Theme,
}

/// A chat session. The roster is replaced wholesale from the server, and the
/// log only grows.
pub struct Chat {
    username: String,
    users: Vec<UserProfile>,
    messages: Vec<ChatMessage>,
    state: SessionState,
    theme: Theme,
}

impl View for Chat {
    type V = ChatModel;

    closed spec fn view(&self) -> ChatModel {
        ChatModel {
            username: self.username@,
            roster: self.users@.map_values(|u: UserProfile| u@),
            log: self.messages@.map_values(|m: ChatMessage| m@),
            state: self.state,
            theme: self.theme,
        }
    }
}

/// The avatar picture of a user, from a template on the name.
pub open spec fn avatar_of(name: Seq<char>) -> Seq<char> {
    "https://avatars.dicebear.com/api/adventurer-neutral/"@ + name + ".svg"@
}

/// The roster for a list of names, in the list's order.
pub open spec fn roster_of(names: Seq<Seq<char>>) -> Seq<(Seq<char>, Seq<char>)> {
    names.map_values(|n: Seq<char>| (n, avatar_of(n)))
}

/// The chat message a JSON value stands for: its `from` and `message`
/// members, both strings.
pub open spec fn chat_fields_spec(j: Json) -> Result<(Seq<char>, Seq<char>), DecodeError> {
    match (field(j, "from"@), field(j, "message"@)) {
        (Some(Json::Str(f)), Some(Json::Str(m))) => Ok((f@, m@)),
        _ => Err(DecodeError::BadChatMessage),
    }
}

/// The chat message that the data of a `message` envelope stands for.
pub open spec fn chat_message_spec(data: Seq<char>) -> Result<(Seq<char>, Seq<char>), DecodeError> {
    match json_of(data) {
        None => Err(DecodeError::BadChatMessage),
        Some(j) => chat_fields_spec(j),
    }
}

/// The chat message that a frame carries, where it is a `message` envelope
/// whose data reads as one.
pub open spec fn chat_message_of(text: Seq<char>) -> Option<(Seq<char>, Seq<char>)> {
    match decode_spec(text) {
        Ok(EnvelopeModel::Message(d)) => match chat_message_spec(d) {
            Ok(p) => Some(p),
            Err(_) => None,
        },
        _ => None,
    }
}

/// Why an inbound frame was dropped, if it was: it does not decode, or it is
/// a `message` envelope whose data is not a chat message.
pub open spec fn frame_error(text: Seq<char>) -> Option<DecodeError> {
    match decode_spec(text) {
        Err(e) => Some(e),
        Ok(EnvelopeModel::Message(d)) => match chat_message_spec(d) {
            Err(e) => Some(e),
            Ok(_) => None,
        },
        _ => None,
    }
}

pub open spec fn flip(t: Theme) -> Theme {
    match t {
        Theme::Light => Theme::Dark,
        Theme::Dark => Theme::Light,
    }
}

/// The effect of one inbound frame on an active session: the new state and
/// whether it changed.
pub open spec fn receive(c: ChatModel, text: Seq<char>) -> (ChatModel, bool) {
    match decode_spec(text) {
        Ok(EnvelopeModel::Users(l)) => (ChatModel { roster: roster_of(l), ..c }, true),
        Ok(EnvelopeModel::Message(d)) => match chat_message_spec(d) {
            Ok(p) => (ChatModel { log: c.log.push(p), ..c }, true),
            Err(_) => (c, false),
        },
        _ => (c, false),
    }
}

/// One step of a session: the new state, whether the view must be redrawn,
/// and the envelope to send, if any.
pub open spec fn step(c: ChatModel, m: MsgModel) -> (ChatModel, bool, Option<EnvelopeModel>) {
    match m {
        MsgModel::Connected => if c.state == SessionState::Active {
            (c, false, None)
        } else {
            (
                ChatModel { state: SessionState::Active, ..c },
                false,
                Some(EnvelopeModel::Register(c.username)),
            )
        },
        MsgModel::Disconnected => (ChatModel { state: SessionState::Closed, ..c }, false, None),
        MsgModel::HandleMsg(t) => if c.state == SessionState::Active {
            let (n, changed) = receive(c, t);
            (n, changed, None)
        } else {
            (c, false, None)
        },
        MsgModel::SubmitMessage(t) => if c.state == SessionState::Active && t.len() > 0 {
            (c, false, Some(EnvelopeModel::Message(t)))
        } else {
            (c, false, None)
        },
        MsgModel::ToggleTheme => (ChatModel { theme: flip(c.theme), ..c }, true, None),
    }
}

/// The state after a sequence of events, taken in order.
pub open spec fn run(c: ChatModel, ms: Seq<MsgModel>) -> ChatModel
    decreases ms.len(),
{
    if ms.len() == 0 {
        c
    } else {
        step(run(c, ms.drop_last()), ms.last()).0
    }
}

/// The envelopes sent over a sequence of events, in order.
pub open spec fn sent(c: ChatModel, ms: Seq<MsgModel>) -> Seq<EnvelopeModel>
    decreases ms.len(),
{
    if ms.len() == 0 {
        Seq::empty()
    } else {
        match step(run(c, ms.drop_last()), ms.last()).2 {
            Some(e) => sent(c, ms.drop_last()).push(e),
            None => sent(c, ms.drop_last()),
        }
    }
}

/// A `users` frame replaces the roster of an active session with the list it
/// carries, in its order and whatever the roster held before, and asks for a
/// redraw.
pub proof fn lemma_roster_replaced(c: ChatModel, text: Seq<char>, names: Seq<Seq<char>>)
    requires
        c.state == SessionState::Active,
        decode_spec(text) == Ok::<EnvelopeModel, DecodeError>(EnvelopeModel::Users(names)),
    ensures
        step(c, MsgModel::HandleMsg(text)).0.roster == roster_of(names),
        step(c, MsgModel::HandleMsg(text)).0.log == c.log,
        step(c, MsgModel::HandleMsg(text)).1,
{
}

/// Frames that each carry a chat message, received in order by an active
/// session, append exactly those messages to the log in that order and leave
/// the roster as it was.
pub proof fn lemma_log_in_order(
    c: ChatModel,
    texts: Seq<Seq<char>>,
    msgs: Seq<(Seq<char>, Seq<char>)>,
)
    requires
        c.state == SessionState::Active,
        texts.len() == msgs.len(),
        forall|i: int| 0 <= i < texts.len() ==> chat_message_of(#[trigger] texts[i]) == Some(msgs[i]),
    ensures
        run(c, texts.map_values(|t: Seq<char>| MsgModel::HandleMsg(t))).log == c.log + msgs,
        run(c, texts.map_values(|t: Seq<char>| MsgModel::HandleMsg(t))).roster == c.roster,
        run(c, texts.map_values(|t: Seq<char>| MsgModel::HandleMsg(t))).state == c.state,
    decreases texts.len(),
{
    let ms = texts.map_values(|t: Seq<char>| MsgModel::HandleMsg(t));
    if texts.len() == 0 {
        assert(c.log + msgs =~= c.log);
    } else {
        let k = texts.len() - 1;
        assert(chat_message_of(texts[k]) == Some(msgs[k]));
        lemma_log_in_order(c, texts.drop_last(), msgs.drop_last());
        assert(ms.drop_last() =~= texts.drop_last().map_values(|t: Seq<char>| MsgModel::HandleMsg(t)));
        assert(c.log + msgs =~= (c.log + msgs.drop_last()).push(msgs[k]));
    }
}

/// A `message` frame whose data is not a chat message changes nothing.
pub proof fn lemma_bad_chat_message_ignored(c: ChatModel, text: Seq<char>, data: Seq<char>)
    requires
        decode_spec(text) == Ok::<EnvelopeModel, DecodeError>(EnvelopeModel::Message(data)),
        chat_message_spec(data) is Err,
    ensures
        step(c, MsgModel::HandleMsg(text)).0 == c,
        step(c, MsgModel::HandleMsg(text)).2 is None,
{
}

/// On connect a session that is not yet active sends one registration
/// carrying its user's name; while the connection lasts, no event sends
/// another.
pub proof fn lemma_one_registration(c: ChatModel, ms: Seq<MsgModel>)
    requires
        c.state != SessionState::Active,
        forall|i: int| 0 <= i < ms.len() ==> !(#[trigger] ms[i] is Disconnected),
    ensures
        sent(c, seq![MsgModel::Connected] + ms).len() >= 1,
        sent(c, seq![MsgModel::Connected] + ms)[0] == EnvelopeModel::Register(c.username),
        forall|i: int|
            1 <= i < sent(c, seq![MsgModel::Connected] + ms).len() ==> !(#[trigger] sent(
                c,
                seq![MsgModel::Connected] + ms,
            )[i] is Register),
    decreases ms.len(),
{
    let all = seq![MsgModel::Connected] + ms;
    if ms.len() == 0 {
        assert(all.drop_last() =~= Seq::<MsgModel>::empty());
        assert(all.last() == MsgModel::Connected);
        assert(run(c, all.drop_last()) == c);
        assert(sent(c, all.drop_last()) =~= Seq::<EnvelopeModel>::empty());
        assert(sent(c, all) =~= seq![EnvelopeModel::Register(c.username)]);
    } else {
        lemma_one_registration(c, ms.drop_last());
        assert(all.drop_last() =~= seq![MsgModel::Connected] + ms.drop_last());
        lemma_stays_active(c, ms.drop_last());
        assert(all.last() == ms[ms.len() - 1]);
        let prev = sent(c, all.drop_last());
        let now = sent(c, all);
        let before = run(c, all.drop_last());
        assert(before.state == SessionState::Active);
        let out = step(before, all.last()).2;
        assert(out is None || out->Some_0 is Message);
        assert(now.len() == prev.len() || now =~= prev.push(now.last()));
        assert(now[0] == prev[0]);
        assert forall|i: int| 1 <= i < now.len() implies !(#[trigger] now[i] is Register) by {
            if i < prev.len() {
                assert(now[i] == prev[i]);
            }
        }
    }
}

/// After connecting, a session stays active and keeps its user's name until
/// it is disconnected.
pub proof fn lemma_stays_active(c: ChatModel, ms: Seq<MsgModel>)
    requires
        c.state != SessionState::Active,
        forall|i: int| 0 <= i < ms.len() ==> !(#[trigger] ms[i] is Disconnected),
    ensures
        run(c, seq![MsgModel::Connected] + ms).state == SessionState::Active,
        run(c, seq![MsgModel::Connected] + ms).username == c.username,
    decreases ms.len(),
{
    let all = seq![MsgModel::Connected] + ms;
    if ms.len() == 0 {
        assert(all.drop_last() =~= Seq::<MsgModel>::empty());
        assert(all.last() == MsgModel::Connected);
    } else {
        lemma_stays_active(c, ms.drop_last());
        assert(all.drop_last() =~= seq![MsgModel::Connected] + ms.drop_last());
        assert(all.last() == ms[ms.len() - 1]);
        let before = run(c, all.drop_last());
        assert(before.username == c.username);
        match all.last() {
            MsgModel::HandleMsg(t) => {
                assert(receive(before, t).0.username == before.username);
            },
            _ => {},
        }
    }
}

/// The avatar address of a user.
pub fn avatar_url(name: &str) -> (r: String)
    ensures
        r@ == avatar_of(name@),
{
    let mut out = String::from_str("https://avatars.dicebear.com/api/adventurer-neutral/");
    out.append(name);
    out.append(".svg");
    out
}

/// Reads a chat message from a JSON value.
pub fn read_chat_message(j: &Json) -> (r: Result<ChatMessage, DecodeError>)
    ensures
        match r {
            Ok(m) => chat_fields_spec(*j) == Ok::<(Seq<char>, Seq<char>), DecodeError>(m@),
            Err(x) => chat_fields_spec(*j) == Err::<(Seq<char>, Seq<char>), DecodeError>(x),
        },
{
    match (get_field(j, "from"), get_field(j, "message")) {
        (Some(Json::Str(f)), Some(Json::Str(m))) => Ok(ChatMessage { from: f.clone(), message: m.clone() }),
        _ => Err(DecodeError::BadChatMessage),
    }
}

/// Reads the chat message carried as the data of a `message` envelope.
pub fn decode_chat_message(data: &str) -> (r: Result<ChatMessage, DecodeError>)
    ensures
        match r {
            Ok(m) => chat_message_spec(data@) == Ok::<(Seq<char>, Seq<char>), DecodeError>(m@),
            Err(x) => chat_message_spec(data@) == Err::<(Seq<char>, Seq<char>), DecodeError>(x),
        },
{
    match parse_json(data) {
        None => Err(DecodeError::BadChatMessage),
        Some(j) => read_chat_message(&j),
    }
}

/// The roster for a list of names.
pub fn roster_from(names: &Vec<String>) -> (r: Vec<UserProfile>)
    ensures
        r@.map_values(|u: UserProfile| u@) == roster_of(strs_view(names@)),
{
    let mut out: Vec<UserProfile> = Vec::new();
    let mut i: usize = 0;
    while i < names.len()
        invariant
            0 <= i <= names.len(),
            out@.map_values(|u: UserProfile| u@) =~= roster_of(strs_view(names@).take(i as int)),
        decreases names.len() - i,
    {
        let name = names[i].clone();
        let avatar = avatar_url(names[i].as_str());
        let ghost before = out@;
        out.push(UserProfile { name, avatar });
        proof {
            let s = strs_view(names@);
            assert(s.take(i + 1) =~= s.take(i as int).push(names@[i as int]@));
            let n = names@[i as int]@;
            assert(out@.last()@ == (n, avatar_of(n)));
            assert(out@.map_values(|u: UserProfile| u@) =~= before.map_values(
                |u: UserProfile| u@,
            ).push((n, avatar_of(n))));
            assert(roster_of(s.take(i + 1)) =~= roster_of(s.take(i as int)).push((n, avatar_of(n))));
        }
        i = i + 1;
    }
    assert(strs_view(names@).take(names.len() as int) =~= strs_view(names@));
    out
}

impl Chat {
    /// Opens a session for a user: the roster and log start empty, and the
    /// registration frame carrying the name is the first frame to send.
    pub fn create(username: String) -> (r: (Chat, String))
        ensures
            r.0@ == (ChatModel {
                username: username@,
                roster: Seq::empty(),
                log: Seq::empty(),
                state: SessionState::Active,
                theme: Theme::Light,
            }),
            r.1@ == encode_spec(EnvelopeModel::Register(username@)),
    {
        let frame = encode(&Envelope::Register(username.clone()));
        let chat = Chat {
            username,
            users: Vec::new(),
            messages: Vec::new(),
            state: SessionState::Active,
            theme: Theme::Light,
        };
        assert(chat@.roster =~= Seq::empty());
        assert(chat@.log =~= Seq::empty());
        (chat, frame)
    }

    /// The user's name the session registers with.
    pub fn username(&self) -> (r: &String)
        ensures
            r@ == self@.username,
    {
        &self.username
    }

    /// The roster, in the server's order.
    pub fn users(&self) -> (r: &Vec<UserProfile>)
        ensures
            r@.map_values(|u: UserProfile| u@) == self@.roster,
    {
        &self.users
    }

    /// The log, oldest message first.
    pub fn messages(&self) -> (r: &Vec<ChatMessage>)
        ensures
            r@.map_values(|m: ChatMessage| m@) == self@.log,
    {
        &self.messages
    }

    pub fn state(&self) -> (r: SessionState)
        ensures
            r == self@.state,
    {
        self.state
    }

    pub fn theme(&self) -> (r: Theme)
        ensures
            r == self@.theme,
    {
        self.theme
    }

    /// Applies an inbound frame to an active session, and says why it was
    /// dropped, if it was.
    fn receive(&mut self, text: &str) -> (r: (bool, Option<DecodeError>))
        ensures
            (final(self)@, r.0) == receive(old(self)@, text@),
            r.1 == frame_error(text@),
    {
        match decode(text) {
            Ok(Envelope::Users(l)) => {
                self.users = roster_from(&l);
                (true, None)
            },
            Ok(Envelope::Message(d)) => match decode_chat_message(d.as_str()) {
                Ok(m) => {
                    let ghost before = self@;
                    let ghost p = m@;
                    self.messages.push(m);
                    assert(self@.log =~= before.log.push(p));
                    (true, None)
                },
                Err(e) => (false, Some(e)),
            },
            Ok(Envelope::Register(_)) => (false, None),
            Err(e) => (false, Some(e)),
        }
    }

    /// Reacts to an event: updates the session, and returns whether the view
    /// must be redrawn, the text frame to send, if any, and why an inbound
    /// frame was dropped, if it was.
    pub fn update(&mut self, msg: Msg) -> (r: (bool, Option<String>, Option<DecodeError>))
        ensures
            final(self)@ == step(old(self)@, msg@).0,
            r.0 == step(old(self)@, msg@).1,
            r.1 is Some <==> step(old(self)@, msg@).2 is Some,
            r.1 is Some ==> r.1->Some_0@ == encode_spec(step(old(self)@, msg@).2->Some_0),
            r.2 == (match msg@ {
                MsgModel::HandleMsg(t) => if old(self)@.state == SessionState::Active {
                    frame_error(t)
                } else {
                    None
                },
                _ => None,
            }),
    {
        match msg {
            Msg::Connected => {
                if self.state == SessionState::Active {
                    (false, None, None)
                } else {
                    self.state = SessionState::Active;
                    (false, Some(encode(&Envelope::Register(self.username.clone()))), None)
                }
            },
            Msg::Disconnected => {
                self.state = SessionState::Closed;
                (false, None, None)
            },
            Msg::HandleMsg(t) => {
                if self.state == SessionState::Active {
                    let (changed, error) = self.receive(t.as_str());
                    (changed, None, error)
                } else {
                    (false, None, None)
                }
            },
            Msg::SubmitMessage(t) => {
                if self.state == SessionState::Active && !t.as_str().is_empty() {
                    (false, Some(encode(&Envelope::Message(t))), None)
                } else {
                    (false, None, None)
                }
            },
            Msg::ToggleTheme => {
                self.theme = match self.theme {
                    Theme::Light => Theme::Dark,
                    Theme::Dark => Theme::Light,
                };
                (true, None, None)
            },
        }
    }
}

} // verus!
