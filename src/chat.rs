//! The chat state machine and the two projections that a view renders.
use vstd::prelude::*;
use crate::json::json_parse;
use crate::codec::{
    MsgTypes, DecodeError, Envelope, EnvelopeView, MessageData, MessageView, decode_spec,
    payload_spec, envelope_json, encode, decode, decode_message,
};
use crate::text::{is_blank_spec, ends_with, is_blank, is_gif};

verus! {

/// A user on the roster, with the address of the picture that stands for them.
#[derive(Clone, Debug, PartialEq, Eq)]
pub struct UserProfile {
    pub name: String,
    pub avatar: String,
}

pub struct ProfileView {
    pub name: Seq<char>,
    pub avatar: Seq<char>,
}

impl View for UserProfile {
    type V = ProfileView;

    open spec fn view(&self) -> ProfileView {
        ProfileView { name: self.name@, avatar: self.avatar@ }
    }
}

pub open spec fn roster_avatar_spec(name: Seq<char>) -> Seq<char> {
    "https://avatars.dicebear.com/api/adventurer-neutral/"@ + name + ".svg"@
}

pub open spec fn initials_avatar_spec(name: Seq<char>) -> Seq<char> {
    "https://avatars.dicebear.com/api/initials/"@ + name + ".svg"@
}

/// The picture of a user on the roster, drawn from their name.
pub fn roster_avatar(name: &str) -> (r: String)
    ensures
        r@ == roster_avatar_spec(name@),
{
    let mut r = String::from_str("https://avatars.dicebear.com/api/adventurer-neutral/");
    r.append(name);
    r.append(".svg");
    r
}

/// The picture of a sender who is not on the roster: their initials.
pub fn initials_avatar(name: &str) -> (r: String)
    ensures
        r@ == initials_avatar_spec(name@),
{
    let mut r = String::from_str("https://avatars.dicebear.com/api/initials/");
    r.append(name);
    r.append(".svg");
    r
}

/// An event handed to the state machine.
#[derive(Clone, Debug, PartialEq, Eq)]
pub enum Msg {
    /// A text frame that came in from the connection.
    HandleMsg(String),
    /// The user confirmed the text now in the input field.
    SubmitMessage(String),
}

/// What the caller does after a transition.
#[derive(Clone, Debug, PartialEq, Eq)]
pub struct Update {
    /// The state changed and the view is to be drawn again.
    pub rerender: bool,
    /// A frame to hand to the connection.
    pub send: Option<String>,
    /// The input field is to be emptied.
    pub clear_input: bool,
}

/// The state of one chat view: the roster, the thread, and who is using it.
pub struct Chat {
    users: Vec<UserProfile>,
    messages: Vec<MessageData>,
    username: String,
}

pub struct ChatView {
    pub users: Seq<ProfileView>,
    pub messages: Seq<MessageView>,
    pub username: Seq<char>,
}

pub open spec fn profiles_view(v: Seq<UserProfile>) -> Seq<ProfileView> {
    v.map_values(|u: UserProfile| u@)
}

pub open spec fn messages_view(v: Seq<MessageData>) -> Seq<MessageView> {
    v.map_values(|m: MessageData| m@)
}

impl View for Chat {
    type V = ChatView;

    closed spec fn view(&self) -> ChatView {
        ChatView {
            users: profiles_view(self.users@),
            messages: messages_view(self.messages@),
            username: self.username@,
        }
    }
}

/// The roster that a list of names makes, in the same order.
pub open spec fn roster_of(names: Seq<Seq<char>>) -> Seq<ProfileView> {
    names.map_values(|n: Seq<char>| ProfileView { name: n, avatar: roster_avatar_spec(n) })
}

pub open spec fn names_of(users: Seq<ProfileView>) -> Seq<Seq<char>> {
    users.map_values(|u: ProfileView| u.name)
}

/// The state after an envelope is applied: a `Users` envelope replaces the
/// roster, a `Message` envelope with a readable payload appends to the
/// thread, anything else leaves the state as it was.
pub open spec fn apply_envelope(s: ChatView, e: EnvelopeView) -> ChatView {
    match e.message_type {
        MsgTypes::Users => ChatView {
            users: roster_of(
                match e.data_array {
                    Some(a) => a,
                    None => Seq::empty(),
                },
            ),
            messages: s.messages,
            username: s.username,
        },
        MsgTypes::Message => match payload_spec(e.data) {
            Ok(m) => ChatView { users: s.users, messages: s.messages.push(m), username: s.username },
            Err(_) => s,
        },
        MsgTypes::Register => s,
    }
}

/// Whether applying the envelope changes what is shown.
pub open spec fn envelope_changes(e: EnvelopeView) -> bool {
    e.message_type == MsgTypes::Users || (e.message_type == MsgTypes::Message
        && payload_spec(e.data) is Ok)
}

/// The state after a frame comes in; a frame that cannot be read is dropped.
pub open spec fn receive(s: ChatView, text: Seq<char>) -> ChatView {
    match decode_spec(text) {
        Ok(e) => apply_envelope(s, e),
        Err(_) => s,
    }
}

pub open spec fn receive_changes(text: Seq<char>) -> bool {
    match decode_spec(text) {
        Ok(e) => envelope_changes(e),
        Err(_) => false,
    }
}

/// The state after a run of envelopes, applied in order.
pub open spec fn apply_all(s: ChatView, es: Seq<EnvelopeView>) -> ChatView
    decreases es.len(),
{
    if es.len() == 0 {
        s
    } else {
        apply_envelope(apply_all(s, es.drop_last()), es.last())
    }
}

/// After a run of `Users` envelopes the roster is exactly the names of the
/// last one, in its order, whatever the roster was before.
pub proof fn users_envelopes_replace_roster(s: ChatView, t: ChatView, es: Seq<EnvelopeView>)
    requires
        es.len() > 0,
        forall|i: int| 0 <= i < es.len() ==> (#[trigger] es[i]).message_type == MsgTypes::Users,
    ensures
        names_of(apply_all(s, es).users) == match es.last().data_array {
            Some(a) => a,
            None => Seq::<Seq<char>>::empty(),
        },
        apply_all(s, es).users == apply_all(t, es).users,
{
    assert(es.last() == es[es.len() - 1]);
    let names = match es.last().data_array {
        Some(a) => a,
        None => Seq::<Seq<char>>::empty(),
    };
    assert(names_of(roster_of(names)) =~= names);
}

/// A `Message` envelope whose payload reads appends exactly that message to
/// the thread; earlier messages stay as and where they were, and the roster
/// is untouched.
pub proof fn message_envelope_appends(s: ChatView, e: EnvelopeView)
    requires
        e.message_type == MsgTypes::Message,
        payload_spec(e.data) is Ok,
    ensures
        apply_envelope(s, e).messages.len() == s.messages.len() + 1,
        apply_envelope(s, e).messages.last() == payload_spec(e.data)->Ok_0,
        forall|i: int| 0 <= i < s.messages.len() ==> #[trigger] apply_envelope(s, e).messages[i] == s.messages[i],
        apply_envelope(s, e).users == s.users,
{
}

pub open spec fn register_envelope(name: Seq<char>) -> EnvelopeView {
    EnvelopeView { message_type: MsgTypes::Register, data_array: None, data: Some(name) }
}

pub open spec fn outgoing_envelope(text: Seq<char>) -> EnvelopeView {
    EnvelopeView { message_type: MsgTypes::Message, data_array: None, data: Some(text) }
}

/// The frame reads as the given envelope.
pub open spec fn frame_of(frame: Seq<char>, e: EnvelopeView) -> bool {
    json_parse(frame) == Some(envelope_json(e)) && decode_spec(frame) == Ok::<EnvelopeView, DecodeError>(e)
}

/// The first avatar on the roster under that exact name, looking from `i` on.
pub open spec fn lookup_from(users: Seq<ProfileView>, name: Seq<char>, i: int) -> Option<Seq<char>>
    decreases users.len() - i,
{
    if i < 0 || i >= users.len() {
        None
    } else if users[i].name == name {
        Some(users[i].avatar)
    } else {
        lookup_from(users, name, i + 1)
    }
}

/// The avatar shown beside a sender: theirs from the roster, else their initials.
pub open spec fn avatar_for(users: Seq<ProfileView>, name: Seq<char>) -> Seq<char> {
    match lookup_from(users, name, 0) {
        Some(a) => a,
        None => initials_avatar_spec(name),
    }
}

/// A line of the thread as the view shows it.
#[derive(Clone, Debug, PartialEq, Eq)]
pub struct ThreadEntry {
    pub from: String,
    pub message: String,
    pub avatar: String,
    /// The line is drawn as an image rather than as text.
    pub is_image: bool,
}

pub struct EntryView {
    pub from: Seq<char>,
    pub message: Seq<char>,
    pub avatar: Seq<char>,
    pub is_image: bool,
}

impl View for ThreadEntry {
    type V = EntryView;

    open spec fn view(&self) -> EntryView {
        EntryView {
            from: self.from@,
            message: self.message@,
            avatar: self.avatar@,
            is_image: self.is_image,
        }
    }
}

pub open spec fn entry_of(users: Seq<ProfileView>, m: MessageView) -> EntryView {
    EntryView {
        from: m.from,
        message: m.message,
        avatar: avatar_for(users, m.from),
        is_image: ends_with(m.message, ".gif"@),
    }
}

pub open spec fn thread_of(users: Seq<ProfileView>, messages: Seq<MessageView>) -> Seq<EntryView> {
    messages.map_values(|m: MessageView| entry_of(users, m))
}

/// The avatar for a sender, looked up on the roster by exact name.
pub fn find_avatar(users: &Vec<UserProfile>, name: &String) -> (r: String)
    ensures
        r@ == avatar_for(profiles_view(users@), name@),
{
    let ghost us = profiles_view(users@);
    let mut i: usize = 0;
    while i < users.len()
        invariant
            i <= users@.len(),
            us == profiles_view(users@),
            lookup_from(us, name@, 0) == lookup_from(us, name@, i as int),
        decreases users.len() - i,
    {
        assert(us[i as int] == users@[i as int]@);
        if users[i].name == *name {
            return users[i].avatar.clone();
        }
        i += 1;
    }
    initials_avatar(name.as_str())
}

/// The thread as shown: each line in arrival order, with its sender's avatar
/// and whether it is drawn as an image.
pub fn project_thread(users: &Vec<UserProfile>, messages: &Vec<MessageData>) -> (r: Vec<ThreadEntry>)
    ensures
        r@.map_values(|e: ThreadEntry| e@) == thread_of(profiles_view(users@), messages_view(messages@)),
{
    let ghost us = profiles_view(users@);
    let mut out: Vec<ThreadEntry> = Vec::new();
    let mut i: usize = 0;
    while i < messages.len()
        invariant
            i <= messages@.len(),
            us == profiles_view(users@),
            out@.len() == i,
            forall|k: int| 0 <= k < i ==> (#[trigger] out@[k])@ == entry_of(us, messages@[k]@),
        decreases messages.len() - i,
    {
        let m = &messages[i];
        let entry = ThreadEntry {
            from: m.from.clone(),
            message: m.message.clone(),
            avatar: find_avatar(users, &m.from),
            is_image: is_gif(m.message.as_str()),
        };
        out.push(entry);
        i += 1;
    }
    proof {
        assert(out@.map_values(|e: ThreadEntry| e@) =~= thread_of(us, messages_view(messages@)));
    }
    out
}

impl Chat {
    /// Starts a chat for a user, with an empty roster and thread, and gives
    /// the frame that announces the user to the server.
    pub fn create(username: String) -> (r: (Chat, String))
        ensures
            r.0@.users == Seq::<ProfileView>::empty(),
            r.0@.messages == Seq::<MessageView>::empty(),
            r.0@.username == username@,
            frame_of(r.1@, register_envelope(username@)),
    {
        let announce = Envelope {
            message_type: MsgTypes::Register,
            data_array: None,
            data: Some(username.clone()),
        };
        let frame = encode(&announce);
        let chat = Chat { users: Vec::new(), messages: Vec::new(), username };
        proof {
            assert(chat@.users =~= Seq::<ProfileView>::empty());
            assert(chat@.messages =~= Seq::<MessageView>::empty());
        }
        (chat, frame)
    }

    pub fn username(&self) -> (r: &String)
        ensures
            r@ == self@.username,
    {
        &self.username
    }

    /// The roster projection: the users in the order the server gave them.
    pub fn users(&self) -> (r: &Vec<UserProfile>)
        ensures
            profiles_view(r@) == self@.users,
    {
        &self.users
    }

    pub fn messages(&self) -> (r: &Vec<MessageData>)
        ensures
            messages_view(r@) == self@.messages,
    {
        &self.messages
    }

    /// The thread projection of the current state.
    pub fn thread(&self) -> (r: Vec<ThreadEntry>)
        ensures
            r@.map_values(|e: ThreadEntry| e@) == thread_of(self@.users, self@.messages),
    {
        project_thread(&self.users, &self.messages)
    }

    fn set_roster(&mut self, names: &Vec<String>)
        ensures
            final(self)@ == (ChatView {
                users: roster_of(names@.map_values(|s: String| s@)),
                messages: old(self)@.messages,
                username: old(self)@.username,
            }),
    {
        let mut users: Vec<UserProfile> = Vec::new();
        let mut i: usize = 0;
        while i < names.len()
            invariant
                i <= names@.len(),
                users@.len() == i,
                forall|k: int| 0 <= k < i ==> (#[trigger] users@[k])@ == (ProfileView {
                    name: names@[k]@,
                    avatar: roster_avatar_spec(names@[k]@),
                }),
            decreases names.len() - i,
        {
            let name = &names[i];
            let profile = UserProfile { name: name.clone(), avatar: roster_avatar(name.as_str()) };
            users.push(profile);
            i += 1;
        }
        self.users = users;
        proof {
            assert(profiles_view(self.users@) =~= roster_of(names@.map_values(|s: String| s@)));
        }
    }

    /// Applies an envelope that came in, and says whether the state changed.
    pub fn apply(&mut self, e: Envelope) -> (changed: bool)
        ensures
            final(self)@ == apply_envelope(old(self)@, e@),
            changed == envelope_changes(e@),
    {
        match e.message_type {
            MsgTypes::Users => {
                let names = match e.data_array {
                    Some(a) => a,
                    None => Vec::new(),
                };
                proof {
                    if e@.data_array is None {
                        assert(names@.map_values(|s: String| s@) =~= Seq::<Seq<char>>::empty());
                    }
                }
                self.set_roster(&names);
                true
            },
            MsgTypes::Message => {
                let payload = match &e.data {
                    Some(d) => decode_message(d.as_str()),
                    None => Err(DecodeError::Shape),
                };
                match payload {
                    Ok(m) => {
                        self.messages.push(m);
                        proof {
                            assert(messages_view(self.messages@) =~= messages_view(
                                old(self).messages@,
                            ).push(m@));
                        }
                        true
                    },
                    Err(_) => false,
                }
            },
            MsgTypes::Register => false,
        }
    }

    /// Handles one event and says what the caller is to do next.
    pub fn update(&mut self, msg: Msg) -> (r: Update)
        ensures
            match msg {
                Msg::HandleMsg(text) => {
                    &&& final(self)@ == receive(old(self)@, text@)
                    &&& r.rerender == receive_changes(text@)
                    &&& r.send is None
                    &&& !r.clear_input
                },
                Msg::SubmitMessage(input) => {
                    &&& final(self)@ == old(self)@
                    &&& !r.rerender
                    &&& if is_blank_spec(input@) {
                        r.send is None && !r.clear_input
                    } else {
                        &&& r.clear_input
                        &&& r.send matches Some(f) && frame_of(f@, outgoing_envelope(input@))
                    }
                },
            },
    {
        match msg {
            Msg::HandleMsg(text) => {
                let rerender = match decode(text.as_str()) {
                    Ok(e) => self.apply(e),
                    Err(_) => false,
                };
                Update { rerender, send: None, clear_input: false }
            },
            Msg::SubmitMessage(input) => {
                if is_blank(input.as_str()) {
                    return Update { rerender: false, send: None, clear_input: false };
                }
                let outgoing = Envelope {
                    message_type: MsgTypes::Message,
                    data_array: None,
                    data: Some(input),
                };
                let frame = encode(&outgoing);
                Update { rerender: false, send: Some(frame), clear_input: true }
            },
        }
    }
}

} // verus!
