//! The session reducer: turns the envelopes delivered by the bus into the
//! roster and the message history, and builds the frames the user sends.
use vstd::prelude::*;
use vstd::string::*;
use crate::protocol::{
    encode, envelope_text, payload_text, encode_payload, ChatPayload, Envelope, EnvelopeModel,
    PayloadModel, ProtocolError, decoded_view,
};

verus! {

/// A roster entry; the avatar is derived from the name, never sent.
#[derive(Clone, Debug)]
pub struct UserProfile {
    pub name: String,
    pub avatar: String,
}

pub struct ProfileModel {
    pub name: Seq<char>,
    pub avatar: Seq<char>,
}

impl View for UserProfile {
    type V = ProfileModel;

    open spec fn view(&self) -> ProfileModel {
        ProfileModel { name: self.name@, avatar: self.avatar@ }
    }
}

#[derive(Clone, Copy, Debug, PartialEq, Eq, Structural)]
pub enum LookupError {
    /// A message names a sender that is not in the current roster.
    UnknownSender,
}

/// The avatar service's image for a username.
pub open spec fn avatar_url(name: Seq<char>) -> Seq<char> {
    "https://api.dicebear.com/9.x/lorelei/svg?seed="@ + name
}

/// The image shown for a message whose sender is not in the roster.
pub open spec fn placeholder_avatar() -> Seq<char> {
    "https://api.dicebear.com/9.x/lorelei/svg"@
}

pub open spec fn profile_of(name: Seq<char>) -> ProfileModel {
    ProfileModel { name, avatar: avatar_url(name) }
}

/// The roster that a list of names stands for, in the same order.
pub open spec fn profiles_of(names: Seq<Seq<char>>) -> Seq<ProfileModel> {
    names.map_values(|n: Seq<char>| profile_of(n))
}

/// The avatar of the first roster entry with this name.
pub open spec fn find_avatar(users: Seq<ProfileModel>, name: Seq<char>) -> Option<Seq<char>>
    decreases users.len(),
{
    if users.len() == 0 {
        None
    } else if users[0].name == name {
        Some(users[0].avatar)
    } else {
        find_avatar(users.drop_first(), name)
    }
}

pub struct ChatModel {
    pub username: Seq<char>,
    pub users: Seq<ProfileModel>,
    pub messages: Seq<PayloadModel>,
}

/// What one delivered frame does to the session. A frame that did not
/// decode, or a `Message` whose payload did not, changes nothing; `Users`
/// replaces the roster; `Message` appends its payload; `Register` is ignored.
pub open spec fn step(
    m: ChatModel,
    frame: Result<EnvelopeModel, ProtocolError>,
    payload: Option<PayloadModel>,
) -> ChatModel {
    match frame {
        Ok(EnvelopeModel::Users(names)) => ChatModel { users: profiles_of(names), ..m },
        Ok(EnvelopeModel::Message(_)) => match payload {
            Some(p) => ChatModel { messages: m.messages.push(p), ..m },
            None => m,
        },
        _ => m,
    }
}

/// What `update` reports for a frame: whether the state changed, or the
/// error that kept it from changing.
pub open spec fn step_result(
    frame: Result<EnvelopeModel, ProtocolError>,
    payload: Option<PayloadModel>,
) -> Result<bool, ProtocolError> {
    match frame {
        Err(x) => Err(x),
        Ok(EnvelopeModel::Users(_)) => Ok(true),
        Ok(EnvelopeModel::Message(_)) => match payload {
            Some(_) => Ok(true),
            None => Err(ProtocolError::Malformed),
        },
        Ok(EnvelopeModel::Register(_)) => Ok(false),
    }
}

/// The frames delivered one after another, first to last.
pub open spec fn steps(
    m: ChatModel,
    frames: Seq<(Result<EnvelopeModel, ProtocolError>, Option<PayloadModel>)>,
) -> ChatModel
    decreases frames.len(),
{
    if frames.len() == 0 {
        m
    } else {
        let last = frames.last();
        step(steps(m, frames.drop_last()), last.0, last.1)
    }
}

/// The frame that submitting `text` as `username` sends, if any.
pub open spec fn submit_spec(username: Seq<char>, text: Seq<char>) -> Option<Seq<char>> {
    if text.len() == 0 {
        None
    } else {
        Some(envelope_text(EnvelopeModel::Message(payload_text(username, text))))
    }
}

/// The session state of one chat client.
pub struct Chat {
    username: String,
    users: Vec<UserProfile>,
    messages: Vec<ChatPayload>,
}

impl View for Chat {
    type V = ChatModel;

    closed spec fn view(&self) -> ChatModel {
        ChatModel {
            username: self.username@,
            users: self.users@.map_values(|u: UserProfile| u@),
            messages: self.messages@.map_values(|p: ChatPayload| p@),
        }
    }
}

fn avatar_for(name: &str) -> (r: String)
    ensures
        r@ == avatar_url(name@),
{
    let mut r = String::from_str("https://api.dicebear.com/9.x/lorelei/svg?seed=");
    r.append(name);
    r
}

fn profiles(names: &Vec<String>) -> (r: Vec<UserProfile>)
    ensures
        r@.map_values(|u: UserProfile| u@) == profiles_of(names.deep_view()),
{
    let mut r: Vec<UserProfile> = Vec::new();
    let mut i: usize = 0;
    while i < names.len()
        invariant
            i <= names.len(),
            r@.len() == i,
            forall|j: int| 0 <= j < i ==> #[trigger] r@[j]@ == profile_of(names@[j]@),
        decreases names.len() - i,
    {
        let name = names[i].as_str();
        r.push(UserProfile { name: String::from_str(name), avatar: avatar_for(name) });
        i = i + 1;
    }
    assert(r@.map_values(|u: UserProfile| u@) =~= profiles_of(names.deep_view()));
    r
}

impl Chat {
    /// A session for `username`, with no roster and no messages yet.
    pub fn new(username: &str) -> (r: Chat)
        ensures
            r@.username == username@,
            r@.users == Seq::<ProfileModel>::empty(),
            r@.messages == Seq::<PayloadModel>::empty(),
    {
        let r = Chat { username: String::from_str(username), users: Vec::new(), messages: Vec::new() };
        assert(r@.users =~= Seq::<ProfileModel>::empty());
        assert(r@.messages =~= Seq::<PayloadModel>::empty());
        r
    }

    pub fn username(&self) -> (r: &str)
        ensures
            r@ == self@.username,
    {
        self.username.as_str()
    }

    /// The roster, in the order of the latest `Users` envelope.
    pub fn users(&self) -> (r: &Vec<UserProfile>)
        ensures
            r@.map_values(|u: UserProfile| u@) == self@.users,
    {
        &self.users
    }

    /// The messages received, oldest first.
    pub fn messages(&self) -> (r: &Vec<ChatPayload>)
        ensures
            r@.map_values(|p: ChatPayload| p@) == self@.messages,
    {
        &self.messages
    }

    /// Applies one delivered frame: `frame` is what decoding it gave, and
    /// `payload` what decoding the `data` of a `Message` gave. Returns
    /// whether the state changed, or the error, which leaves it as it was.
    pub fn update(&mut self, frame: Result<Envelope, ProtocolError>, payload: Option<ChatPayload>) -> (r: Result<bool, ProtocolError>)
        ensures
            final(self)@ == step(old(self)@, decoded_view(frame), match payload {
                Some(p) => Some(p@),
                None => None,
            }),
            r == step_result(decoded_view(frame), match payload {
                Some(p) => Some(p@),
                None => None,
            }),
    {
        match frame {
            Err(x) => Err(x),
            Ok(Envelope::Users(names)) => {
                self.users = profiles(&names);
                Ok(true)
            },
            Ok(Envelope::Message(_)) => match payload {
                Some(p) => {
                    self.messages.push(p);
                    assert(self@.messages =~= old(self)@.messages.push(p@));
                    Ok(true)
                },
                None => Err(ProtocolError::Malformed),
            },
            Ok(Envelope::Register(_)) => Ok(false),
        }
    }

    /// The avatar of a roster member.
    pub fn lookup_avatar(&self, name: &str) -> (r: Result<String, LookupError>)
        ensures
            match find_avatar(self@.users, name@) {
                Some(a) => r is Ok && r.unwrap()@ == a,
                None => r == Err::<String, LookupError>(LookupError::UnknownSender),
            },
    {
        let mut i: usize = 0;
        assert(self@.users.subrange(0, self@.users.len() as int) =~= self@.users);
        while i < self.users.len()
            invariant
                i <= self.users@.len(),
                find_avatar(self@.users, name@) == find_avatar(self@.users.subrange(i as int, self@.users.len() as int), name@),
            decreases self.users.len() - i,
        {
            let ghost rest = self@.users.subrange(i as int, self@.users.len() as int);
            assert(rest.drop_first() =~= self@.users.subrange(i + 1, self@.users.len() as int));
            assert(rest[0] == self.users@[i as int]@);
            if String::from_str(name) == self.users[i].name {
                return Ok(self.users[i].avatar.clone());
            }
            i = i + 1;
        }
        Err(LookupError::UnknownSender)
    }

    /// The avatar to show beside message `i`: its sender's, or the
    /// placeholder when the sender is not in the roster.
    pub fn message_avatar(&self, i: usize) -> (r: String)
        requires
            i < self@.messages.len(),
        ensures
            r@ == match find_avatar(self@.users, self@.messages[i as int].from) {
                Some(a) => a,
                None => placeholder_avatar(),
            },
    {
        match self.lookup_avatar(self.messages[i].from.as_str()) {
            Ok(a) => a,
            Err(_) => String::from_str("https://api.dicebear.com/9.x/lorelei/svg"),
        }
    }

    /// The frame to send for the text the user submitted: a `Message`
    /// envelope whose payload names this session's user; nothing for empty
    /// text. The history is left alone until the server echoes it.
    pub fn submit(&self, text: &str) -> (r: Option<String>)
        ensures
            match r {
                Some(f) => submit_spec(self@.username, text@) == Some(f@),
                None => submit_spec(self@.username, text@) is None,
            },
    {
        if text.unicode_len() == 0 {
            return None;
        }
        let data = encode_payload(self.username.as_str(), text);
        Some(encode(&Envelope::Message(data)))
    }
}

/// A `Users` frame replaces the roster with exactly the names it carries,
/// whatever the roster was; the history is untouched.
pub proof fn lemma_roster_replaced(m: ChatModel, names: Seq<Seq<char>>, payload: Option<PayloadModel>)
    ensures
        step(m, Ok(EnvelopeModel::Users(names)), payload).users == profiles_of(names),
        step(m, Ok(EnvelopeModel::Users(names)), payload).users.len() == names.len(),
        forall|i: int| 0 <= i < names.len()
            ==> #[trigger] step(m, Ok(EnvelopeModel::Users(names)), payload).users[i].name == names[i],
        step(m, Ok(EnvelopeModel::Users(names)), payload).messages == m.messages,
{
}

/// Whether every frame is a decoded `Message` with a decoded payload.
pub open spec fn all_chat(frames: Seq<(Result<EnvelopeModel, ProtocolError>, Option<PayloadModel>)>) -> bool {
    forall|i: int| 0 <= i < frames.len() ==> (#[trigger] frames[i]).0 is Ok
        && frames[i].0.unwrap() is Message && frames[i].1 is Some
}

/// Chat messages delivered one after another are appended in exactly the
/// order they were delivered, and leave the roster as it was.
pub proof fn lemma_applied_in_order(
    m: ChatModel,
    frames: Seq<(Result<EnvelopeModel, ProtocolError>, Option<PayloadModel>)>,
)
    requires
        all_chat(frames),
    ensures
        steps(m, frames).messages == m.messages + frames.map_values(
            |f: (Result<EnvelopeModel, ProtocolError>, Option<PayloadModel>)| f.1.unwrap(),
        ),
        steps(m, frames).users == m.users,
    decreases frames.len(),
{
    if frames.len() > 0 {
        let init = frames.drop_last();
        assert(all_chat(init)) by {
            assert forall|i: int| 0 <= i < init.len() implies (#[trigger] init[i]).0 is Ok
                && init[i].0.unwrap() is Message && init[i].1 is Some by {
                assert(init[i] == frames[i]);
            }
        }
        lemma_applied_in_order(m, init);
        let last = frames.last();
        assert(frames[frames.len() - 1] == last);
        let f = |f: (Result<EnvelopeModel, ProtocolError>, Option<PayloadModel>)| f.1.unwrap();
        assert(frames.map_values(f) =~= init.map_values(f).push(last.1.unwrap()));
        assert(m.messages + frames.map_values(f) =~= (m.messages + init.map_values(f)).push(last.1.unwrap()));
    } else {
        let f = |f: (Result<EnvelopeModel, ProtocolError>, Option<PayloadModel>)| f.1.unwrap();
        assert(m.messages + frames.map_values(f) =~= m.messages);
    }
}

/// A message from a sender missing from the roster is still appended, and
/// its sender still has no roster avatar, so it shows the placeholder.
pub proof fn lemma_unknown_sender(m: ChatModel, data: Seq<char>, p: PayloadModel)
    requires
        find_avatar(m.users, p.from) is None,
    ensures
        step(m, Ok(EnvelopeModel::Message(data)), Some(p)).messages == m.messages.push(p),
        step(m, Ok(EnvelopeModel::Message(data)), Some(p)).messages.len() == m.messages.len() + 1,
        find_avatar(step(m, Ok(EnvelopeModel::Message(data)), Some(p)).users, p.from) is None,
        step_result(Ok(EnvelopeModel::Message(data)), Some(p)) == Ok::<bool, ProtocolError>(true),
{
}

} // verus!
