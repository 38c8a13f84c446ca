use crate::error::MalformedFrame;
use crate::json::{
    items_view, json_parse, json_string_text, lemma_list_view, member, parse, quote_text, Json,
    JsonDoc, MemberDoc,
};
use crate::text::same_text;
use vstd::prelude::*;
use vstd::string::*;

verus! {

/// The kinds of message that travel over the chat connection.
#[derive(Clone, Copy, Debug, PartialEq, Eq, Structural)]
pub enum MsgTypes {
    Users,
    Register,
    Message,
}

impl MsgTypes {
    /// The tag under which this kind is written on the wire.
    pub open spec fn wire_name(self) -> Seq<char> {
        match self {
            MsgTypes::Users => "users"@,
            MsgTypes::Register => "register"@,
            MsgTypes::Message => "message"@,
        }
    }

    /// The kind that a wire tag names, if it names one. Tags are compared
    /// exactly: a tag in another case names nothing.
    pub open spec fn of_wire_name(tag: Seq<char>) -> Option<MsgTypes> {
        if tag == "users"@ {
            Some(MsgTypes::Users)
        } else if tag == "register"@ {
            Some(MsgTypes::Register)
        } else if tag == "message"@ {
            Some(MsgTypes::Message)
        } else {
            None
        }
    }

    /// Returns the wire tag of this kind.
    pub fn name(self) -> (tag: &'static str)
        ensures
            tag@ == self.wire_name(),
    {
        match self {
            MsgTypes::Users => "users",
            MsgTypes::Register => "register",
            MsgTypes::Message => "message",
        }
    }

    /// Recognises a wire tag.
    pub fn from_name(tag: &str) -> (kind: Option<MsgTypes>)
        ensures
            kind == Self::of_wire_name(tag@),
    {
        if same_text(tag, "users") {
            Some(MsgTypes::Users)
        } else if same_text(tag, "register") {
            Some(MsgTypes::Register)
        } else if same_text(tag, "message") {
            Some(MsgTypes::Message)
        } else {
            None
        }
    }

    /// Every kind is recognised from its own tag.
    pub proof fn lemma_name_round_trip(self)
        ensures
            Self::of_wire_name(self.wire_name()) == Some(self),
    {
        reveal_strlit("users");
        reveal_strlit("register");
        reveal_strlit("message");
        assert("users"@.len() == 5);
        assert("register"@.len() == 8);
        assert("message"@.len() == 7);
    }
}

/// The outer wrapper of every frame: a tag and two payload slots.
///
/// The tag is kept as written, so that a frame of a kind that this client
/// does not know still reads as an envelope.
#[derive(Clone, Debug, PartialEq, Eq)]
pub struct Envelope {
    pub message_type: String,
    pub data_array: Option<Vec<String>>,
    pub data: Option<String>,
}

/// The mathematical value of an [`Envelope`].
pub struct EnvelopeView {
    pub message_type: Seq<char>,
    pub data_array: Option<Seq<Seq<char>>>,
    pub data: Option<Seq<char>>,
}

impl View for Envelope {
    type V = EnvelopeView;

    open spec fn view(&self) -> EnvelopeView {
        EnvelopeView {
            message_type: self.message_type@,
            data_array: self.data_array.deep_view(),
            data: self.data.deep_view(),
        }
    }
}

/// The view of a document that may be missing.
pub open spec fn optional_doc(value: Option<&Json>) -> Option<JsonDoc> {
    match value {
        Some(doc) => Some(doc@),
        None => None,
    }
}

/// What a scalar payload slot holds: nothing where the member is missing or
/// null, the text where it is a string. Any other value is malformed.
pub open spec fn text_slot(value: Option<JsonDoc>) -> Result<Option<Seq<char>>, MalformedFrame> {
    match value {
        None => Ok(None),
        Some(JsonDoc::Null) => Ok(None),
        Some(JsonDoc::Text(text)) => Ok(Some(text)),
        Some(_) => Err(MalformedFrame),
    }
}

/// Whether every item of a list is a string.
pub open spec fn all_text(items: Seq<JsonDoc>) -> bool {
    forall|i: int| 0 <= i < items.len() ==> items[i] is Text
}

/// The texts of a list of strings, in order.
pub open spec fn texts(items: Seq<JsonDoc>) -> Seq<Seq<char>> {
    Seq::new(items.len(), |i: int| items[i]->Text_0)
}

/// What an array payload slot holds: nothing where the member is missing or
/// null, the texts where it is a list of strings. Any other value is
/// malformed.
pub open spec fn list_slot(value: Option<JsonDoc>) -> Result<
    Option<Seq<Seq<char>>>,
    MalformedFrame,
> {
    match value {
        None => Ok(None),
        Some(JsonDoc::Null) => Ok(None),
        Some(JsonDoc::List(items)) => if all_text(items) {
            Ok(Some(texts(items)))
        } else {
            Err(MalformedFrame)
        },
        Some(_) => Err(MalformedFrame),
    }
}

/// The envelope that a document denotes: a record whose member
/// `messageType` is a string, and whose members `dataArray` and `data` are
/// well-formed slots. Other members are ignored.
pub open spec fn read_envelope(doc: JsonDoc) -> Result<EnvelopeView, MalformedFrame> {
    match (
        doc.get("messageType"@),
        list_slot(doc.get("dataArray"@)),
        text_slot(doc.get("data"@)),
    ) {
        (Some(JsonDoc::Text(tag)), Ok(data_array), Ok(data)) => Ok(
            EnvelopeView { message_type: tag, data_array, data },
        ),
        _ => Err(MalformedFrame),
    }
}

/// Reads a scalar payload slot.
pub fn read_text_slot(value: Option<&Json>) -> (slot: Result<Option<String>, MalformedFrame>)
    ensures
        slot is Ok <==> text_slot(optional_doc(value)) is Ok,
        slot matches Ok(text) ==> text_slot(optional_doc(value)) == Ok::<
            Option<Seq<char>>,
            MalformedFrame,
        >(text.deep_view()),
{
    match value {
        None => Ok(None),
        Some(Json::Null) => Ok(None),
        Some(Json::Text(text)) => Ok(Some(text.clone())),
        Some(_) => Err(MalformedFrame),
    }
}

/// Reads an array payload slot.
pub fn read_list_slot(value: Option<&Json>) -> (slot: Result<Option<Vec<String>>, MalformedFrame>)
    ensures
        slot is Ok <==> list_slot(optional_doc(value)) is Ok,
        slot matches Ok(list) ==> list_slot(optional_doc(value)) == Ok::<
            Option<Seq<Seq<char>>>,
            MalformedFrame,
        >(list.deep_view()),
{
    match value {
        None => Ok(None),
        Some(Json::Null) => Ok(None),
        Some(Json::List(items)) => {
            proof {
                lemma_list_view(*items);
            }
            let ghost docs = items_view(items@);
            let mut names: Vec<String> = Vec::new();
            let mut i: usize = 0;
            while i < items.len()
                invariant
                    i <= items.len(),
                    names.len() == i,
                    docs == items_view(items@),
                    optional_doc(value) == Some(JsonDoc::List(docs)),
                    forall|j: int| 0 <= j < i ==> docs[j] is Text,
                    forall|j: int| 0 <= j < i ==> names@[j]@ == docs[j]->Text_0,
                decreases items.len() - i,
            {
                match &items[i] {
                    Json::Text(text) => {
                        names.push(text.clone());
                    },
                    _ => {
                        assert(!(docs[i as int] is Text));
                        return Err(MalformedFrame);
                    },
                }
                i += 1;
            }
            assert(names.deep_view() =~= texts(docs));
            Ok(Some(names))
        },
        Some(_) => Err(MalformedFrame),
    }
}

/// Reads the envelope out of a parsed frame.
pub fn envelope_from_document(doc: &Json) -> (envelope: Result<Envelope, MalformedFrame>)
    ensures
        envelope is Ok <==> read_envelope(doc@) is Ok,
        envelope matches Ok(e) ==> read_envelope(doc@) == Ok::<EnvelopeView, MalformedFrame>(e@),
{
    let message_type = match doc.get("messageType") {
        Some(Json::Text(tag)) => tag.clone(),
        _ => {
            return Err(MalformedFrame);
        },
    };
    let data_array = match read_list_slot(doc.get("dataArray")) {
        Ok(list) => list,
        Err(error) => {
            return Err(error);
        },
    };
    let data = match read_text_slot(doc.get("data")) {
        Ok(text) => text,
        Err(error) => {
            return Err(error);
        },
    };
    Ok(Envelope { message_type, data_array, data })
}

/// The string literals of `names`, separated by commas.
pub open spec fn joined(names: Seq<Seq<char>>) -> Seq<char>
    decreases names.len(),
{
    if names.len() == 0 {
        Seq::empty()
    } else if names.len() == 1 {
        json_string_text(names[0])
    } else {
        joined(names.drop_last()) + ","@ + json_string_text(names.last())
    }
}

/// The JSON text of a list of strings, written without spaces.
pub open spec fn list_text(names: Seq<Seq<char>>) -> Seq<char> {
    "["@ + joined(names) + "]"@
}

/// The JSON text of an array payload slot: `null` where it holds nothing.
pub open spec fn list_slot_text(slot: Option<Seq<Seq<char>>>) -> Seq<char> {
    match slot {
        Some(names) => list_text(names),
        None => "null"@,
    }
}

/// The JSON text of a scalar payload slot: `null` where it holds nothing.
pub open spec fn text_slot_text(slot: Option<Seq<char>>) -> Seq<char> {
    match slot {
        Some(text) => json_string_text(text),
        None => "null"@,
    }
}

/// The frame that carries an envelope: one JSON object, written without
/// spaces, with the members `messageType`, `dataArray` and `data` in this
/// order.
pub open spec fn envelope_text(envelope: EnvelopeView) -> Seq<char> {
    "{\"messageType\":"@ + json_string_text(envelope.message_type) + ",\"dataArray\":"@
        + list_slot_text(envelope.data_array) + ",\"data\":"@ + text_slot_text(envelope.data)
        + "}"@
}

/// Appends the JSON text of a list of strings to `out`.
fn write_list(out: &mut String, names: &Vec<String>)
    ensures
        final(out)@ == old(out)@ + list_text(names.deep_view()),
{
    let ghost base = out@;
    let ghost all = names.deep_view();
    out.append("[");
    let mut i: usize = 0;
    while i < names.len()
        invariant
            i <= names.len(),
            all == names.deep_view(),
            out@ == base + "["@ + joined(all.take(i as int)),
        decreases names.len() - i,
    {
        let ghost before = joined(all.take(i as int));
        let ghost next = all.take(i + 1);
        assert(next.drop_last() =~= all.take(i as int));
        assert(next.last() == names@[i as int]@);
        if i > 0 {
            out.append(",");
        }
        let quoted = quote_text(names[i].as_str());
        out.append(quoted.as_str());
        assert(out@ =~= base + "["@ + joined(next)) by {
            if i > 0 {
                assert(joined(next) == before + ","@ + quoted@);
            } else {
                assert(before =~= Seq::<char>::empty());
                assert(joined(next) == quoted@);
            }
        }
        i += 1;
    }
    assert(all.take(names.len() as int) =~= all);
    out.append("]");
    assert(out@ =~= base + list_text(all));
}

/// Writes the frame that carries `envelope`.
pub fn encode_envelope(envelope: &Envelope) -> (frame: String)
    ensures
        frame@ == envelope_text(envelope@),
{
    let mut frame = String::from_str("{\"messageType\":");
    let tag = quote_text(envelope.message_type.as_str());
    frame.append(tag.as_str());
    frame.append(",\"dataArray\":");
    match &envelope.data_array {
        Some(names) => {
            write_list(&mut frame, names);
        },
        None => {
            frame.append("null");
        },
    }
    frame.append(",\"data\":");
    match &envelope.data {
        Some(text) => {
            let quoted = quote_text(text.as_str());
            frame.append(quoted.as_str());
        },
        None => {
            frame.append("null");
        },
    }
    frame.append("}");
    frame
}

/// The envelope that a frame carries: the frame is read as JSON, and the
/// document as an envelope.
pub open spec fn envelope_of_frame(frame: Seq<char>) -> Result<EnvelopeView, MalformedFrame> {
    match json_parse(frame) {
        Some(doc) => read_envelope(doc),
        None => Err(MalformedFrame),
    }
}

/// Reads a frame as an envelope. A tag that names no known kind is no
/// error here.
pub fn decode_envelope(frame: &str) -> (envelope: Result<Envelope, MalformedFrame>)
    ensures
        envelope is Ok <==> envelope_of_frame(frame@) is Ok,
        envelope matches Ok(e) ==> envelope_of_frame(frame@) == Ok::<EnvelopeView, MalformedFrame>(
            e@,
        ),
{
    match parse(frame) {
        Ok(doc) => envelope_from_document(&doc),
        Err(error) => Err(error),
    }
}

/// One chat message: who sent it, and what it says.
#[derive(Clone, Debug, PartialEq, Eq)]
pub struct ChatMessage {
    pub from: String,
    pub body: String,
}

/// The mathematical value of a [`ChatMessage`].
pub struct ChatMessageView {
    pub from: Seq<char>,
    pub body: Seq<char>,
}

impl View for ChatMessage {
    type V = ChatMessageView;

    open spec fn view(&self) -> ChatMessageView {
        ChatMessageView { from: self.from@, body: self.body@ }
    }
}

/// The text under which a chat message travels in the scalar slot of its
/// envelope: one JSON object with the members `from` and `message`.
pub open spec fn payload_text(message: ChatMessageView) -> Seq<char> {
    "{\"from\":"@ + json_string_text(message.from) + ",\"message\":"@ + json_string_text(
        message.body,
    ) + "}"@
}

/// The chat message that a document denotes: a record whose members `from`
/// and `message` are both strings. Other members are ignored.
pub open spec fn read_payload(doc: JsonDoc) -> Result<ChatMessageView, MalformedFrame> {
    match (doc.get("from"@), doc.get("message"@)) {
        (Some(JsonDoc::Text(from)), Some(JsonDoc::Text(body))) => Ok(
            ChatMessageView { from, body },
        ),
        _ => Err(MalformedFrame),
    }
}

/// The chat message that the scalar slot of a `message` envelope carries.
pub open spec fn payload_of_text(text: Seq<char>) -> Result<ChatMessageView, MalformedFrame> {
    match json_parse(text) {
        Some(doc) => read_payload(doc),
        None => Err(MalformedFrame),
    }
}

/// Reads the chat message out of a parsed payload.
pub fn payload_from_document(doc: &Json) -> (message: Result<ChatMessage, MalformedFrame>)
    ensures
        message is Ok <==> read_payload(doc@) is Ok,
        message matches Ok(m) ==> read_payload(doc@) == Ok::<ChatMessageView, MalformedFrame>(m@),
{
    let from = match doc.get("from") {
        Some(Json::Text(text)) => text.clone(),
        _ => {
            return Err(MalformedFrame);
        },
    };
    let body = match doc.get("message") {
        Some(Json::Text(text)) => text.clone(),
        _ => {
            return Err(MalformedFrame);
        },
    };
    Ok(ChatMessage { from, body })
}

/// Reads the payload of a `message` envelope.
pub fn decode_payload(text: &str) -> (message: Result<ChatMessage, MalformedFrame>)
    ensures
        message is Ok <==> payload_of_text(text@) is Ok,
        message matches Ok(m) ==> payload_of_text(text@) == Ok::<ChatMessageView, MalformedFrame>(
            m@,
        ),
{
    match parse(text) {
        Ok(doc) => payload_from_document(&doc),
        Err(error) => Err(error),
    }
}

/// Writes the payload of a `message` envelope.
pub fn encode_payload(from: &str, body: &str) -> (text: String)
    ensures
        text@ == payload_text(ChatMessageView { from: from@, body: body@ }),
{
    let mut text = String::from_str("{\"from\":");
    let sender = quote_text(from);
    text.append(sender.as_str());
    text.append(",\"message\":");
    let said = quote_text(body);
    text.append(said.as_str());
    text.append("}");
    text
}

/// A message of the chat protocol.
#[derive(Clone, Debug, PartialEq, Eq)]
pub enum ProtocolMessage {
    /// The full list of the users that are online, replacing any earlier one.
    Users { names: Vec<String> },
    /// The announcement of this client's user.
    Register { name: String },
    /// One chat message.
    Message { from: String, body: String },
}

/// The mathematical value of a [`ProtocolMessage`].
pub enum ProtocolMessageView {
    Users { names: Seq<Seq<char>> },
    Register { name: Seq<char> },
    Message { from: Seq<char>, body: Seq<char> },
}

impl View for ProtocolMessage {
    type V = ProtocolMessageView;

    open spec fn view(&self) -> ProtocolMessageView {
        match self {
            ProtocolMessage::Users { names } => ProtocolMessageView::Users {
                names: names.deep_view(),
            },
            ProtocolMessage::Register { name } => ProtocolMessageView::Register { name: name@ },
            ProtocolMessage::Message { from, body } => ProtocolMessageView::Message {
                from: from@,
                body: body@,
            },
        }
    }
}

/// The envelope of a message: a list of users fills the array slot alone,
/// the other two kinds fill the scalar slot alone.
pub open spec fn message_envelope(message: ProtocolMessageView) -> EnvelopeView {
    match message {
        ProtocolMessageView::Users { names } => EnvelopeView {
            message_type: MsgTypes::Users.wire_name(),
            data_array: Some(names),
            data: None,
        },
        ProtocolMessageView::Register { name } => EnvelopeView {
            message_type: MsgTypes::Register.wire_name(),
            data_array: None,
            data: Some(name),
        },
        ProtocolMessageView::Message { from, body } => EnvelopeView {
            message_type: MsgTypes::Message.wire_name(),
            data_array: None,
            data: Some(payload_text(ChatMessageView { from, body })),
        },
    }
}

/// The message that an envelope carries.
///
/// A list of users is read from the array slot, and is empty where that slot
/// holds nothing. An announcement needs its scalar slot. A chat message
/// needs a scalar slot that reads as a payload. An envelope whose tag names
/// no kind carries no message.
pub open spec fn envelope_message(envelope: EnvelopeView) -> Result<
    ProtocolMessageView,
    MalformedFrame,
> {
    match MsgTypes::of_wire_name(envelope.message_type) {
        Some(MsgTypes::Users) => Ok(
            ProtocolMessageView::Users {
                names: match envelope.data_array {
                    Some(names) => names,
                    None => Seq::empty(),
                },
            },
        ),
        Some(MsgTypes::Register) => match envelope.data {
            Some(name) => Ok(ProtocolMessageView::Register { name }),
            None => Err(MalformedFrame),
        },
        Some(MsgTypes::Message) => match envelope.data {
            Some(text) => match payload_of_text(text) {
                Ok(message) => Ok(
                    ProtocolMessageView::Message { from: message.from, body: message.body },
                ),
                Err(error) => Err(error),
            },
            None => Err(MalformedFrame),
        },
        None => Err(MalformedFrame),
    }
}

/// The envelope of a message fills exactly one of its two slots: the array
/// slot for a list of users, the scalar slot for the other two kinds.
pub proof fn lemma_one_slot_is_filled(message: ProtocolMessageView)
    ensures
        message_envelope(message).data_array is Some <==> message is Users,
        message_envelope(message).data is Some <==> !(message is Users),
{
}

/// The frame that carries a message.
pub open spec fn encode_spec(message: ProtocolMessageView) -> Seq<char> {
    envelope_text(message_envelope(message))
}

/// The message that a frame carries.
pub open spec fn decode_spec(frame: Seq<char>) -> Result<ProtocolMessageView, MalformedFrame> {
    match envelope_of_frame(frame) {
        Ok(envelope) => envelope_message(envelope),
        Err(error) => Err(error),
    }
}

impl ProtocolMessage {
    /// Wraps this message in its envelope.
    pub fn to_envelope(&self) -> (envelope: Envelope)
        ensures
            envelope@ == message_envelope(self@),
    {
        match self {
            ProtocolMessage::Users { names } => {
                let list = copy_texts(names);
                Envelope {
                    message_type: String::from_str(MsgTypes::Users.name()),
                    data_array: Some(list),
                    data: None,
                }
            },
            ProtocolMessage::Register { name } => Envelope {
                message_type: String::from_str(MsgTypes::Register.name()),
                data_array: None,
                data: Some(name.clone()),
            },
            ProtocolMessage::Message { from, body } => Envelope {
                message_type: String::from_str(MsgTypes::Message.name()),
                data_array: None,
                data: Some(encode_payload(from.as_str(), body.as_str())),
            },
        }
    }

    /// Unwraps the message that `envelope` carries.
    pub fn from_envelope(envelope: Envelope) -> (message: Result<ProtocolMessage, MalformedFrame>)
        ensures
            message is Ok <==> envelope_message(envelope@) is Ok,
            message matches Ok(m) ==> envelope_message(envelope@) == Ok::<
                ProtocolMessageView,
                MalformedFrame,
            >(m@),
    {
        match MsgTypes::from_name(envelope.message_type.as_str()) {
            Some(MsgTypes::Users) => match envelope.data_array {
                Some(names) => Ok(ProtocolMessage::Users { names }),
                None => {
                    let names: Vec<String> = Vec::new();
                    assert(names.deep_view() =~= Seq::<Seq<char>>::empty());
                    Ok(ProtocolMessage::Users { names })
                },
            },
            Some(MsgTypes::Register) => match envelope.data {
                Some(name) => Ok(ProtocolMessage::Register { name }),
                None => Err(MalformedFrame),
            },
            Some(MsgTypes::Message) => match envelope.data {
                Some(text) => match decode_payload(text.as_str()) {
                    Ok(message) => Ok(
                        ProtocolMessage::Message { from: message.from, body: message.body },
                    ),
                    Err(error) => Err(error),
                },
                None => Err(MalformedFrame),
            },
            None => Err(MalformedFrame),
        }
    }
}

/// Copies a list of texts.
pub fn copy_texts(texts: &Vec<String>) -> (copy: Vec<String>)
    ensures
        copy.deep_view() == texts.deep_view(),
{
    let mut copy: Vec<String> = Vec::new();
    let mut i: usize = 0;
    while i < texts.len()
        invariant
            i <= texts.len(),
            copy.len() == i,
            forall|j: int| 0 <= j < i ==> copy@[j]@ == texts@[j]@,
        decreases texts.len() - i,
    {
        copy.push(texts[i].clone());
        i += 1;
    }
    assert(copy.deep_view() =~= texts.deep_view());
    copy
}

/// Writes the frame that carries `message`.
pub fn encode(message: &ProtocolMessage) -> (frame: String)
    ensures
        frame@ == encode_spec(message@),
{
    let envelope = message.to_envelope();
    encode_envelope(&envelope)
}

/// Reads the message that `frame` carries.
///
/// Fails where the frame is not JSON, where it is no envelope, where its tag
/// names no kind of message, and where the slot that its kind needs is empty
/// or does not read.
pub fn decode(frame: &str) -> (message: Result<ProtocolMessage, MalformedFrame>)
    ensures
        message is Ok <==> decode_spec(frame@) is Ok,
        message matches Ok(m) ==> decode_spec(frame@) == Ok::<ProtocolMessageView, MalformedFrame>(
            m@,
        ),
{
    match decode_envelope(frame) {
        Ok(envelope) => ProtocolMessage::from_envelope(envelope),
        Err(error) => Err(error),
    }
}

/// The envelope in which the text that the user typed is sent: the `message`
/// tag, with the text as it is in the scalar slot. The server adds the
/// sender's name on its way to the other clients.
pub open spec fn outbound_envelope(text: Seq<char>) -> EnvelopeView {
    EnvelopeView {
        message_type: MsgTypes::Message.wire_name(),
        data_array: None,
        data: Some(text),
    }
}

/// Writes the frame in which the text that the user typed is sent.
pub fn message_frame(text: &str) -> (frame: String)
    ensures
        frame@ == envelope_text(outbound_envelope(text@)),
{
    let envelope = Envelope {
        message_type: String::from_str(MsgTypes::Message.name()),
        data_array: None,
        data: Some(String::from_str(text)),
    };
    encode_envelope(&envelope)
}

/// Writes the frame that announces the user called `name`.
pub fn register_frame(name: &str) -> (frame: String)
    ensures
        frame@ == encode_spec(ProtocolMessageView::Register { name: name@ }),
{
    let envelope = Envelope {
        message_type: String::from_str(MsgTypes::Register.name()),
        data_array: None,
        data: Some(String::from_str(name)),
    };
    encode_envelope(&envelope)
}

/// The document of a scalar payload slot.
pub open spec fn text_slot_doc(slot: Option<Seq<char>>) -> JsonDoc {
    match slot {
        Some(text) => JsonDoc::Text(text),
        None => JsonDoc::Null,
    }
}

/// The document of an array payload slot.
pub open spec fn list_slot_doc(slot: Option<Seq<Seq<char>>>) -> JsonDoc {
    match slot {
        Some(names) => JsonDoc::List(Seq::new(names.len(), |i: int| JsonDoc::Text(names[i]))),
        None => JsonDoc::Null,
    }
}

/// The document that an envelope denotes, with its members in the order of
/// their keys.
pub open spec fn envelope_doc(envelope: EnvelopeView) -> JsonDoc {
    JsonDoc::Record(
        seq![
            MemberDoc { key: "data"@, value: text_slot_doc(envelope.data) },
            MemberDoc { key: "dataArray"@, value: list_slot_doc(envelope.data_array) },
            MemberDoc { key: "messageType"@, value: JsonDoc::Text(envelope.message_type) },
        ],
    )
}

/// The document that the payload of a chat message denotes, with its
/// members in the order of their keys.
pub open spec fn payload_doc(message: ChatMessageView) -> JsonDoc {
    JsonDoc::Record(
        seq![
            MemberDoc { key: "from"@, value: JsonDoc::Text(message.from) },
            MemberDoc { key: "message"@, value: JsonDoc::Text(message.body) },
        ],
    )
}

/// Reading the document of an envelope gives the envelope back, whatever its
/// tag and its slots hold.
pub proof fn lemma_envelope_reads_back(envelope: EnvelopeView)
    ensures
        read_envelope(envelope_doc(envelope)) == Ok::<EnvelopeView, MalformedFrame>(envelope),
{
    reveal_strlit("data");
    reveal_strlit("dataArray");
    reveal_strlit("messageType");
    assert("data"@.len() == 4);
    assert("dataArray"@.len() == 9);
    assert("messageType"@.len() == 11);
    reveal_with_fuel(member, 3);
    let members = envelope_doc(envelope)->Record_0;
    let rest = members.drop_first();
    assert(rest[0] == members[1]);
    assert(rest.drop_first()[0] == members[2]);
    match envelope.data_array {
        Some(names) => {
            let items = list_slot_doc(envelope.data_array)->List_0;
            assert(all_text(items));
            assert(texts(items) =~= names);
        },
        None => {},
    }
}

/// Reading the document of a payload gives the chat message back.
pub proof fn lemma_payload_reads_back(message: ChatMessageView)
    ensures
        read_payload(payload_doc(message)) == Ok::<ChatMessageView, MalformedFrame>(message),
{
    reveal_strlit("from");
    reveal_strlit("message");
    assert("from"@.len() == 4);
    assert("message"@.len() == 7);
    reveal_with_fuel(member, 2);
    let members = payload_doc(message)->Record_0;
    assert(members.drop_first()[0] == members[1]);
}

/// Whether the JSON parser reads the frame of `message`, and the payload
/// inside it where it is a chat message, as the documents that they denote.
pub open spec fn parser_reads_back(message: ProtocolMessageView) -> bool {
    &&& json_parse(encode_spec(message)) == Some(envelope_doc(message_envelope(message)))
    &&& message matches ProtocolMessageView::Message { from, body } ==> json_parse(
        payload_text(ChatMessageView { from, body }),
    ) == Some(payload_doc(ChatMessageView { from, body }))
}

/// Decoding the frame of a message gives the message back, provided that the
/// JSON parser reads what was written as the documents that it denotes.
pub proof fn lemma_decode_inverts_encode(message: ProtocolMessageView)
    requires
        parser_reads_back(message),
    ensures
        decode_spec(encode_spec(message)) == Ok::<ProtocolMessageView, MalformedFrame>(message),
{
    let envelope = message_envelope(message);
    lemma_envelope_reads_back(envelope);
    MsgTypes::Users.lemma_name_round_trip();
    MsgTypes::Register.lemma_name_round_trip();
    MsgTypes::Message.lemma_name_round_trip();
    match message {
        ProtocolMessageView::Message { from, body } => {
            lemma_payload_reads_back(ChatMessageView { from, body });
        },
        _ => {},
    }
}

} // verus!
