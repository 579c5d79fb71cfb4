//! The wire protocol: the envelope exchanged with the server, its fields as
//! they stand in the JSON object, and the JSON text of outgoing frames.
use vstd::prelude::*;
use vstd::string::*;

verus! {

/// The closed set of envelope kinds, written on the wire as a lowercase tag.
#[derive(Clone, Copy, Debug, PartialEq, Eq, Structural)]
pub enum MsgTypes {
    Users,
    Register,
    Message,
}

/// Why a frame could not be read as an envelope.
#[derive(Clone, Copy, Debug, PartialEq, Eq, Structural)]
pub enum ProtocolError {
    /// The text is not a JSON object of the envelope's shape.
    Malformed,
    /// The `messageType` tag is outside the closed set.
    UnknownVariant,
    /// The tag is known but `data` / `dataArray` are not the ones it carries.
    SchemaViolation,
}

pub open spec fn tag_spec(t: MsgTypes) -> Seq<char> {
    match t {
        MsgTypes::Users => "users"@,
        MsgTypes::Register => "register"@,
        MsgTypes::Message => "message"@,
    }
}

/// The kind that a wire tag names, if any.
pub open spec fn kind_of_tag(s: Seq<char>) -> Option<MsgTypes> {
    if s == "users"@ {
        Some(MsgTypes::Users)
    } else if s == "register"@ {
        Some(MsgTypes::Register)
    } else if s == "message"@ {
        Some(MsgTypes::Message)
    } else {
        None
    }
}

fn str_eq(a: &str, b: &str) -> (r: bool)
    ensures
        r == (a@ == b@),
{
    String::from_str(a) == String::from_str(b)
}

impl MsgTypes {
    /// The lowercase wire tag of this kind.
    pub fn tag(&self) -> (r: &'static str)
        ensures
            r@ == tag_spec(*self),
    {
        match self {
            MsgTypes::Users => "users",
            MsgTypes::Register => "register",
            MsgTypes::Message => "message",
        }
    }

    /// Reads a wire tag; `None` for a tag outside the closed set.
    pub fn from_tag(s: &str) -> (r: Option<MsgTypes>)
        ensures
            r == kind_of_tag(s@),
    {
        if str_eq(s, "users") {
            Some(MsgTypes::Users)
        } else if str_eq(s, "register") {
            Some(MsgTypes::Register)
        } else if str_eq(s, "message") {
            Some(MsgTypes::Message)
        } else {
            None
        }
    }
}

/// Every tag reads back as the kind it was written from.
pub proof fn lemma_tag_round_trip(t: MsgTypes)
    ensures
        kind_of_tag(tag_spec(t)) == Some(t),
{
    reveal_strlit("users");
    reveal_strlit("register");
    reveal_strlit("message");
    assert("users"@.len() == 5);
    assert("register"@.len() == 8);
    assert("message"@.len() == 7);
    assert("register"@ != "message"@) by {
        assert("register"@[0] != "message"@[0]);
    }
}

/// An envelope in its valid shape: the roster for `Users`, one string for
/// `Register` (the username) and `Message` (the JSON chat payload).
#[derive(Clone, Debug)]
pub enum Envelope {
    Users(Vec<String>),
    Register(String),
    Message(String),
}

pub enum EnvelopeModel {
    Users(Seq<Seq<char>>),
    Register(Seq<char>),
    Message(Seq<char>),
}

impl View for Envelope {
    type V = EnvelopeModel;

    open spec fn view(&self) -> EnvelopeModel {
        match self {
            Envelope::Users(names) => EnvelopeModel::Users(names.deep_view()),
            Envelope::Register(d) => EnvelopeModel::Register(d@),
            Envelope::Message(d) => EnvelopeModel::Message(d@),
        }
    }
}

pub open spec fn kind_spec(e: EnvelopeModel) -> MsgTypes {
    match e {
        EnvelopeModel::Users(_) => MsgTypes::Users,
        EnvelopeModel::Register(_) => MsgTypes::Register,
        EnvelopeModel::Message(_) => MsgTypes::Message,
    }
}

impl Envelope {
    pub fn kind(&self) -> (r: MsgTypes)
        ensures
            r == kind_spec(self@),
    {
        match self {
            Envelope::Users(_) => MsgTypes::Users,
            Envelope::Register(_) => MsgTypes::Register,
            Envelope::Message(_) => MsgTypes::Message,
        }
    }
}

/// The three fields of the wire object as read from JSON, before the
/// presence rules are applied (`None` stands for null or absent).
#[derive(Clone, Debug)]
pub struct WireFields {
    pub message_type: String,
    pub data_array: Option<Vec<String>>,
    pub data: Option<String>,
}

pub struct WireModel {
    pub message_type: Seq<char>,
    pub data_array: Option<Seq<Seq<char>>>,
    pub data: Option<Seq<char>>,
}

impl View for WireFields {
    type V = WireModel;

    open spec fn view(&self) -> WireModel {
        WireModel {
            message_type: self.message_type@,
            data_array: match self.data_array {
                Some(v) => Some(v.deep_view()),
                None => None,
            },
            data: match self.data {
                Some(d) => Some(d@),
                None => None,
            },
        }
    }
}

/// The wire fields that an envelope is written as.
pub open spec fn fields_of(e: EnvelopeModel) -> WireModel {
    match e {
        EnvelopeModel::Users(names) => WireModel {
            message_type: tag_spec(MsgTypes::Users),
            data_array: Some(names),
            data: None,
        },
        EnvelopeModel::Register(d) => WireModel {
            message_type: tag_spec(MsgTypes::Register),
            data_array: None,
            data: Some(d),
        },
        EnvelopeModel::Message(d) => WireModel {
            message_type: tag_spec(MsgTypes::Message),
            data_array: None,
            data: Some(d),
        },
    }
}

/// What reading wire fields gives: an unknown tag is `UnknownVariant`; a
/// `Users` object must carry `dataArray` and no `data`, the others `data`
/// and no `dataArray`, else `SchemaViolation`.
pub open spec fn decode_spec(w: WireModel) -> Result<EnvelopeModel, ProtocolError> {
    match kind_of_tag(w.message_type) {
        None => Err(ProtocolError::UnknownVariant),
        Some(MsgTypes::Users) => {
            if w.data.is_none() && w.data_array.is_some() {
                Ok(EnvelopeModel::Users(w.data_array.unwrap()))
            } else {
                Err(ProtocolError::SchemaViolation)
            }
        },
        Some(MsgTypes::Register) => {
            if w.data.is_some() && w.data_array.is_none() {
                Ok(EnvelopeModel::Register(w.data.unwrap()))
            } else {
                Err(ProtocolError::SchemaViolation)
            }
        },
        Some(MsgTypes::Message) => {
            if w.data.is_some() && w.data_array.is_none() {
                Ok(EnvelopeModel::Message(w.data.unwrap()))
            } else {
                Err(ProtocolError::SchemaViolation)
            }
        },
    }
}

pub open spec fn decoded_view(r: Result<Envelope, ProtocolError>) -> Result<EnvelopeModel, ProtocolError> {
    match r {
        Ok(e) => Ok(e@),
        Err(x) => Err(x),
    }
}

/// A copy of a list of strings.
pub fn copy_strings(v: &Vec<String>) -> (r: Vec<String>)
    ensures
        r.deep_view() == v.deep_view(),
{
    let mut r: Vec<String> = Vec::new();
    let mut i: usize = 0;
    while i < v.len()
        invariant
            i <= v.len(),
            r@.len() == i,
            forall|j: int| 0 <= j < i ==> #[trigger] r@[j]@ == v@[j]@,
        decreases v.len() - i,
    {
        let s = v[i].clone();
        r.push(s);
        i = i + 1;
    }
    assert(r.deep_view() =~= v.deep_view());
    r
}

/// Writes an envelope as its wire fields.
pub fn encode_fields(e: &Envelope) -> (r: WireFields)
    ensures
        r@ == fields_of(e@),
{
    match e {
        Envelope::Users(names) => WireFields {
            message_type: String::from_str(MsgTypes::Users.tag()),
            data_array: Some(copy_strings(names)),
            data: None,
        },
        Envelope::Register(d) => WireFields {
            message_type: String::from_str(MsgTypes::Register.tag()),
            data_array: None,
            data: Some(d.clone()),
        },
        Envelope::Message(d) => WireFields {
            message_type: String::from_str(MsgTypes::Message.tag()),
            data_array: None,
            data: Some(d.clone()),
        },
    }
}

/// Reads wire fields as an envelope, applying the presence rules.
pub fn decode_fields(w: WireFields) -> (r: Result<Envelope, ProtocolError>)
    ensures
        decoded_view(r) == decode_spec(w@),
{
    let WireFields { message_type, data_array, data } = w;
    match MsgTypes::from_tag(message_type.as_str()) {
        None => Err(ProtocolError::UnknownVariant),
        Some(MsgTypes::Users) => match (data_array, data) {
            (Some(names), None) => Ok(Envelope::Users(names)),
            _ => Err(ProtocolError::SchemaViolation),
        },
        Some(MsgTypes::Register) => match (data_array, data) {
            (None, Some(d)) => Ok(Envelope::Register(d)),
            _ => Err(ProtocolError::SchemaViolation),
        },
        Some(MsgTypes::Message) => match (data_array, data) {
            (None, Some(d)) => Ok(Envelope::Message(d)),
            _ => Err(ProtocolError::SchemaViolation),
        },
    }
}

/// Reading back the fields that an envelope was written as gives that
/// envelope.
pub proof fn lemma_fields_round_trip(e: EnvelopeModel)
    ensures
        decode_spec(fields_of(e)) == Ok::<EnvelopeModel, ProtocolError>(e),
{
    lemma_tag_round_trip(kind_spec(e));
}

/// An object whose tag asks for one of `data` / `dataArray` and that carries
/// the other one is refused.
pub proof fn lemma_presence(w: WireModel)
    ensures
        kind_of_tag(w.message_type) == Some(MsgTypes::Users) && w.data.is_some()
            ==> decode_spec(w) == Err::<EnvelopeModel, ProtocolError>(ProtocolError::SchemaViolation),
        (kind_of_tag(w.message_type) == Some(MsgTypes::Register)
            || kind_of_tag(w.message_type) == Some(MsgTypes::Message)) && w.data_array.is_some()
            ==> decode_spec(w) == Err::<EnvelopeModel, ProtocolError>(ProtocolError::SchemaViolation),
{
}

/// The JSON string literal that serde_json writes for a string.
pub uninterp spec fn json_quoted(s: Seq<char>) -> Seq<char>;

/// Relies on serde_json::to_string on a `str`: it writes the string as one
/// JSON string literal, quotes and escapes included.
#[verifier::external_body]
fn quote(s: &str) -> (r: String)
    ensures
        r@ == json_quoted(s@),
{
    match serde_json::to_string(s) {
        Ok(t) => t,
        Err(_) => String::new(),
    }
}

/// The roster names as the items of a JSON array: quoted, comma separated.
pub open spec fn items_text(names: Seq<Seq<char>>) -> Seq<char>
    decreases names.len(),
{
    if names.len() == 0 {
        Seq::empty()
    } else if names.len() == 1 {
        json_quoted(names[0])
    } else {
        items_text(names.drop_last()) + ","@ + json_quoted(names.last())
    }
}

/// The JSON text of an envelope: camelCase field names in a fixed order,
/// the lowercase tag, and null for the field the kind does not carry.
pub open spec fn envelope_text(e: EnvelopeModel) -> Seq<char> {
    match e {
        EnvelopeModel::Users(names) => "{\"messageType\":"@ + json_quoted(tag_spec(MsgTypes::Users))
            + ",\"dataArray\":["@ + items_text(names) + "],\"data\":null}"@,
        EnvelopeModel::Register(d) => "{\"messageType\":"@ + json_quoted(tag_spec(MsgTypes::Register))
            + ",\"dataArray\":null,\"data\":"@ + json_quoted(d) + "}"@,
        EnvelopeModel::Message(d) => "{\"messageType\":"@ + json_quoted(tag_spec(MsgTypes::Message))
            + ",\"dataArray\":null,\"data\":"@ + json_quoted(d) + "}"@,
    }
}

fn items_json(names: &Vec<String>) -> (r: String)
    ensures
        r@ == items_text(names.deep_view()),
{
    let mut r = String::new();
    let mut i: usize = 0;
    while i < names.len()
        invariant
            i <= names.len(),
            r@ == items_text(names.deep_view().subrange(0, i as int)),
        decreases names.len() - i,
    {
        let q = quote(names[i].as_str());
        let ghost prefix = names.deep_view().subrange(0, i as int);
        let ghost next = names.deep_view().subrange(0, i + 1);
        assert(next.drop_last() =~= prefix);
        assert(next.last() == names[i as int]@);
        if i > 0 {
            r.append(",");
        }
        r.append(q.as_str());
        i = i + 1;
        assert(r@ =~= items_text(next));
    }
    assert(names.deep_view().subrange(0, names.len() as int) =~= names.deep_view());
    r
}

/// Writes an envelope as JSON text.
pub fn encode(e: &Envelope) -> (r: String)
    ensures
        r@ == envelope_text(e@),
{
    let mut r = String::from_str("{\"messageType\":");
    let tag = quote(e.kind().tag());
    r.append(tag.as_str());
    match e {
        Envelope::Users(names) => {
            r.append(",\"dataArray\":[");
            let items = items_json(names);
            r.append(items.as_str());
            r.append("],\"data\":null}");
        },
        Envelope::Register(d) | Envelope::Message(d) => {
            r.append(",\"dataArray\":null,\"data\":");
            let q = quote(d.as_str());
            r.append(q.as_str());
            r.append("}");
        },
    }
    r
}

/// The chat payload carried, as JSON text, in the `data` of a `Message`.
#[derive(Clone, Debug)]
pub struct ChatPayload {
    pub from: String,
    pub message: String,
}

pub struct PayloadModel {
    pub from: Seq<char>,
    pub message: Seq<char>,
}

impl View for ChatPayload {
    type V = PayloadModel;

    open spec fn view(&self) -> PayloadModel {
        PayloadModel { from: self.from@, message: self.message@ }
    }
}

/// The JSON text of a chat payload.
pub open spec fn payload_text(from: Seq<char>, message: Seq<char>) -> Seq<char> {
    "{\"from\":"@ + json_quoted(from) + ",\"message\":"@ + json_quoted(message) + "}"@
}

/// Writes a chat payload as JSON text.
pub fn encode_payload(from: &str, message: &str) -> (r: String)
    ensures
        r@ == payload_text(from@, message@),
{
    let mut r = String::from_str("{\"from\":");
    let f = quote(from);
    r.append(f.as_str());
    r.append(",\"message\":");
    let m = quote(message);
    r.append(m.as_str());
    r.append("}");
    r
}

pub open spec fn ends_with_gif(s: Seq<char>) -> bool {
    s.len() >= 4 && s.subrange(s.len() - 4, s.len() as int) == ".gif"@
}

impl ChatPayload {
    /// Whether the text ends in `.gif`, the hint to show it as an image.
    pub fn is_image(&self) -> (r: bool)
        ensures
            r == ends_with_gif(self.message@),
    {
        let s = self.message.as_str();
        let n = s.unicode_len();
        if n < 4 {
            return false;
        }
        let tail = s.substring_char(n - 4, n);
        str_eq(tail, ".gif")
    }
}

} // verus!
