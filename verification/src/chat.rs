use crate::error::{MalformedFrame, MissingIdentityContext};
use crate::profile::{
    fallback_avatar_url, profiles, roster_avatar_url, roster_of, roster_view, UserProfile,
    UserProfileView,
};
use crate::protocol::{
    decode_envelope, decode_payload, encode_spec, envelope_of_frame, envelope_text, message_frame,
    outbound_envelope, payload_of_text, register_frame, ChatMessage, ChatMessageView, Envelope,
    EnvelopeView, MsgTypes, ProtocolMessageView,
};
use crate::render::{
    avatars_follow_names, is_absent, lemma_avatar_goes_by_name, render_entry, render_message,
    resolve_avatar, RenderedMessage, RenderedMessageView,
};
use vstd::prelude::*;

verus! {

/// What a chat view is told.
#[derive(Clone, Debug, PartialEq, Eq)]
pub enum Msg {
    /// A frame came in over the connection.
    HandleMsg(String),
    /// The user asked to send what is in the input control.
    SubmitMessage,
}

/// The mathematical value of a [`Msg`].
pub enum MsgView {
    HandleMsg(Seq<char>),
    SubmitMessage,
}

impl View for Msg {
    type V = MsgView;

    open spec fn view(&self) -> MsgView {
        match self {
            Msg::HandleMsg(frame) => MsgView::HandleMsg(frame@),
            Msg::SubmitMessage => MsgView::SubmitMessage,
        }
    }
}

/// What a frame that came in asks of the view.
#[derive(Clone, Debug, PartialEq, Eq)]
pub enum Inbound {
    /// Replace the roster by these names.
    Users(Vec<String>),
    /// Add this message to the transcript.
    Message(ChatMessage),
    /// Nothing: the frame is of a kind that the view does not act on.
    Other,
}

/// The mathematical value of an [`Inbound`].
pub enum InboundView {
    Users(Seq<Seq<char>>),
    Message(ChatMessageView),
    Other,
}

impl View for Inbound {
    type V = InboundView;

    open spec fn view(&self) -> InboundView {
        match self {
            Inbound::Users(names) => InboundView::Users(names.deep_view()),
            Inbound::Message(message) => InboundView::Message(message@),
            Inbound::Other => InboundView::Other,
        }
    }
}

/// What an envelope asks of the view.
///
/// A list of users is read from the array slot, and is empty where that slot
/// holds nothing. A chat message needs a scalar slot that reads as a payload:
/// without one the envelope is malformed. An envelope of any other kind,
/// known or not, asks nothing.
pub open spec fn inbound_of_envelope(envelope: EnvelopeView) -> Result<InboundView, MalformedFrame> {
    match MsgTypes::of_wire_name(envelope.message_type) {
        Some(MsgTypes::Users) => Ok(
            InboundView::Users(
                match envelope.data_array {
                    Some(names) => names,
                    None => Seq::empty(),
                },
            ),
        ),
        Some(MsgTypes::Message) => match envelope.data {
            Some(text) => match payload_of_text(text) {
                Ok(message) => Ok(InboundView::Message(message)),
                Err(error) => Err(error),
            },
            None => Err(MalformedFrame),
        },
        _ => Ok(InboundView::Other),
    }
}

/// What a frame asks of the view.
pub open spec fn inbound_of_frame(frame: Seq<char>) -> Result<InboundView, MalformedFrame> {
    match envelope_of_frame(frame) {
        Ok(envelope) => inbound_of_envelope(envelope),
        Err(error) => Err(error),
    }
}

impl Inbound {
    /// Reads what `envelope` asks of the view.
    pub fn from_envelope(envelope: Envelope) -> (event: Result<Inbound, MalformedFrame>)
        ensures
            event is Ok <==> inbound_of_envelope(envelope@) is Ok,
            event matches Ok(e) ==> inbound_of_envelope(envelope@) == Ok::<
                InboundView,
                MalformedFrame,
            >(e@),
    {
        match MsgTypes::from_name(envelope.message_type.as_str()) {
            Some(MsgTypes::Users) => match envelope.data_array {
                Some(names) => Ok(Inbound::Users(names)),
                None => {
                    let names: Vec<String> = Vec::new();
                    assert(names.deep_view() =~= Seq::<Seq<char>>::empty());
                    Ok(Inbound::Users(names))
                },
            },
            Some(MsgTypes::Message) => match envelope.data {
                Some(text) => match decode_payload(text.as_str()) {
                    Ok(message) => Ok(Inbound::Message(message)),
                    Err(error) => Err(error),
                },
                None => Err(MalformedFrame),
            },
            _ => Ok(Inbound::Other),
        }
    }

    /// Reads what `frame` asks of the view.
    pub fn from_frame(frame: &str) -> (event: Result<Inbound, MalformedFrame>)
        ensures
            event is Ok <==> inbound_of_frame(frame@) is Ok,
            event matches Ok(e) ==> inbound_of_frame(frame@) == Ok::<InboundView, MalformedFrame>(
                e@,
            ),
    {
        match decode_envelope(frame) {
            Ok(envelope) => Inbound::from_envelope(envelope),
            Err(error) => Err(error),
        }
    }
}

/// What the surrounding program is to do after a step of the view.
#[derive(Clone, Debug, PartialEq, Eq)]
pub enum Action {
    /// Nothing.
    Idle,
    /// Send this frame over the connection. Nothing is sent again, and
    /// nothing waits for an answer.
    Send(String),
    /// Report that a frame was thrown away for this reason.
    Discard(MalformedFrame),
}

/// The mathematical value of an [`Action`].
pub enum ActionView {
    Idle,
    Send(Seq<char>),
    Discard(MalformedFrame),
}

impl View for Action {
    type V = ActionView;

    open spec fn view(&self) -> ActionView {
        match self {
            Action::Idle => ActionView::Idle,
            Action::Send(frame) => ActionView::Send(frame@),
            Action::Discard(reason) => ActionView::Discard(*reason),
        }
    }
}

/// The outcome of one step of the view.
#[derive(Clone, Debug, PartialEq, Eq)]
pub struct Step {
    /// Whether the page is to be drawn again.
    pub render: bool,
    /// Whether the input control is to be emptied, once the action has been
    /// carried out and whatever came of it.
    pub clear_input: bool,
    pub action: Action,
}

/// The mathematical value of a [`Step`].
pub struct StepView {
    pub render: bool,
    pub clear_input: bool,
    pub action: ActionView,
}

impl View for Step {
    type V = StepView;

    open spec fn view(&self) -> StepView {
        StepView { render: self.render, clear_input: self.clear_input, action: self.action@ }
    }
}

/// The roster and the transcript of a chat view.
pub struct ChatView {
    pub roster: Seq<UserProfileView>,
    pub transcript: Seq<ChatMessageView>,
}

/// The views of the messages of a transcript, in order.
pub open spec fn transcript_view(messages: Seq<ChatMessage>) -> Seq<ChatMessageView> {
    Seq::new(messages.len(), |i: int| messages[i]@)
}

/// The state of a view that has been told nothing yet.
pub open spec fn initial() -> ChatView {
    ChatView { roster: Seq::empty(), transcript: Seq::empty() }
}

/// The state after an event: a list of users replaces the roster, a chat
/// message is added at the end of the transcript, and nothing else changes.
pub open spec fn after(state: ChatView, event: InboundView) -> ChatView {
    match event {
        InboundView::Users(names) => ChatView {
            roster: profiles(names),
            transcript: state.transcript,
        },
        InboundView::Message(message) => ChatView {
            roster: state.roster,
            transcript: state.transcript.push(message),
        },
        InboundView::Other => state,
    }
}

/// Whether the page is drawn again after an event.
pub open spec fn redraws(event: InboundView) -> bool {
    !(event is Other)
}

/// The state after a frame came in. A malformed frame changes nothing.
pub open spec fn after_frame(state: ChatView, frame: Seq<char>) -> ChatView {
    match inbound_of_frame(frame) {
        Ok(event) => after(state, event),
        Err(_) => state,
    }
}

/// The state after the view was told `msg`.
pub open spec fn update_state(state: ChatView, msg: MsgView) -> ChatView {
    match msg {
        MsgView::HandleMsg(frame) => after_frame(state, frame),
        MsgView::SubmitMessage => state,
    }
}

/// The outcome of telling the view `msg`, where `input` is the text in the
/// input control, if the control is there.
pub open spec fn update_step(msg: MsgView, input: Option<Seq<char>>) -> StepView {
    match msg {
        MsgView::HandleMsg(frame) => match inbound_of_frame(frame) {
            Ok(event) => StepView {
                render: redraws(event),
                clear_input: false,
                action: ActionView::Idle,
            },
            Err(reason) => StepView {
                render: false,
                clear_input: false,
                action: ActionView::Discard(reason),
            },
        },
        MsgView::SubmitMessage => match input {
            Some(text) => StepView {
                render: false,
                clear_input: true,
                action: ActionView::Send(envelope_text(outbound_envelope(text))),
            },
            None => StepView { render: false, clear_input: false, action: ActionView::Idle },
        },
    }
}

/// What the page shows.
#[derive(Clone, Debug, PartialEq, Eq)]
pub struct Rendered {
    pub users: Vec<UserProfile>,
    pub messages: Vec<RenderedMessage>,
}

/// The mathematical value of a [`Rendered`].
pub struct RenderedView {
    pub users: Seq<UserProfileView>,
    pub messages: Seq<RenderedMessageView>,
}

impl View for Rendered {
    type V = RenderedView;

    open spec fn view(&self) -> RenderedView {
        RenderedView {
            users: roster_view(self.users@),
            messages: Seq::new(self.messages@.len(), |i: int| self.messages@[i]@),
        }
    }
}

/// What the page shows in a state: the roster as it is, and each message of
/// the transcript, in order, as it is shown against that roster.
pub open spec fn page_of(state: ChatView) -> RenderedView {
    RenderedView {
        users: state.roster,
        messages: Seq::new(
            state.transcript.len(),
            |i: int| render_message(state.roster, state.transcript[i]),
        ),
    }
}

/// A chat view: the users that are online and the messages received so far.
pub struct Chat {
    users: Vec<UserProfile>,
    messages: Vec<ChatMessage>,
}

impl View for Chat {
    type V = ChatView;

    closed spec fn view(&self) -> ChatView {
        ChatView { roster: roster_view(self.users@), transcript: transcript_view(self.messages@) }
    }
}

impl Chat {
    #[verifier::type_invariant]
    spec fn roster_is_derived(&self) -> bool {
        avatars_follow_names(roster_view(self.users@))
    }

    /// Makes the view of the user `identity`, together with the frame that
    /// announces this user and is to be sent at once.
    pub fn create(identity: Option<&str>) -> (made: Result<(Chat, String), MissingIdentityContext>)
        ensures
            made is Err <==> identity is None,
            made matches Ok(pair) ==> {
                &&& pair.0@ == initial()
                &&& identity matches Some(name) && pair.1@ == encode_spec(
                    ProtocolMessageView::Register { name: name@ },
                )
            },
    {
        match identity {
            Some(name) => {
                let chat = Chat { users: Vec::new(), messages: Vec::new() };
                assert(chat@.roster =~= Seq::<UserProfileView>::empty());
                assert(chat@.transcript =~= Seq::<ChatMessageView>::empty());
                Ok((chat, register_frame(name)))
            },
            None => Err(MissingIdentityContext),
        }
    }

    /// The roster.
    pub fn users(&self) -> (users: &Vec<UserProfile>)
        ensures
            roster_view(users@) == self@.roster,
            avatars_follow_names(self@.roster),
    {
        proof {
            use_type_invariant(self);
        }
        &self.users
    }

    /// The transcript.
    pub fn messages(&self) -> (messages: &Vec<ChatMessage>)
        ensures
            transcript_view(messages@) == self@.transcript,
    {
        &self.messages
    }

    /// Applies an event to the roster and the transcript, and tells whether
    /// the page is to be drawn again.
    pub fn handle(&mut self, event: Inbound) -> (redraw: bool)
        ensures
            final(self)@ == after(old(self)@, event@),
            redraw == redraws(event@),
    {
        match event {
            Inbound::Users(names) => {
                self.users = roster_of(&names);
                true
            },
            Inbound::Message(message) => {
                proof {
                    use_type_invariant(&*self);
                }
                let mut messages: Vec<ChatMessage> = Vec::new();
                std::mem::swap(&mut self.messages, &mut messages);
                messages.push(message);
                std::mem::swap(&mut self.messages, &mut messages);
                assert(transcript_view(self.messages@) =~= transcript_view(old(self).messages@).push(
                    message@,
                ));
                true
            },
            Inbound::Other => false,
        }
    }

    /// Tells the view `msg`. `input` is the text in the input control, or
    /// `None` while the control is not there; it is read only when the user
    /// asks to send.
    ///
    /// A frame that came in is read and applied; a malformed one is thrown
    /// away and leaves the roster and the transcript as they were. A request
    /// to send changes nothing in the view: the text goes out as it is, the
    /// input control is emptied whether or not the connection takes the
    /// frame, and the text shows up in the transcript only if the server
    /// sends it back.
    pub fn update(&mut self, msg: Msg, input: Option<String>) -> (step: Step)
        ensures
            final(self)@ == update_state(old(self)@, msg@),
            step@ == update_step(msg@, input.deep_view()),
            msg matches Msg::HandleMsg(frame) && inbound_of_frame(frame@) is Err ==> final(self)@
                == old(self)@ && !step.render,
    {
        match msg {
            Msg::HandleMsg(frame) => match Inbound::from_frame(frame.as_str()) {
                Ok(event) => {
                    let redraw = self.handle(event);
                    Step { render: redraw, clear_input: false, action: Action::Idle }
                },
                Err(reason) => Step {
                    render: false,
                    clear_input: false,
                    action: Action::Discard(reason),
                },
            },
            Msg::SubmitMessage => match input {
                Some(text) => Step {
                    render: false,
                    clear_input: true,
                    action: Action::Send(message_frame(text.as_str())),
                },
                None => Step { render: false, clear_input: false, action: Action::Idle },
            },
        }
    }

    /// Decides what the page shows.
    pub fn render(&self) -> (page: Rendered)
        ensures
            page@ == page_of(self@),
            forall|i: int|
                0 <= i < self@.transcript.len() ==> (#[trigger] page@.messages[i]).avatar == if is_absent(
                    self@.roster,
                    self@.transcript[i].from,
                ) {
                    fallback_avatar_url(self@.transcript[i].from)
                } else {
                    roster_avatar_url(self@.transcript[i].from)
                },
    {
        proof {
            use_type_invariant(self);
            assert forall|i: int| 0 <= i < self@.transcript.len() implies resolve_avatar(
                self@.roster,
                #[trigger] self@.transcript[i].from,
            ) == if is_absent(self@.roster, self@.transcript[i].from) {
                fallback_avatar_url(self@.transcript[i].from)
            } else {
                roster_avatar_url(self@.transcript[i].from)
            } by {
                lemma_avatar_goes_by_name(self@.roster, self@.transcript[i].from);
            }
        }
        let mut users: Vec<UserProfile> = Vec::new();
        let mut i: usize = 0;
        while i < self.users.len()
            invariant
                i <= self.users.len(),
                users.len() == i,
                forall|j: int| 0 <= j < i ==> users@[j]@ == self.users@[j]@,
            decreases self.users.len() - i,
        {
            let user = &self.users[i];
            users.push(UserProfile { name: user.name.clone(), avatar: user.avatar.clone() });
            i += 1;
        }
        let mut messages: Vec<RenderedMessage> = Vec::new();
        let mut k: usize = 0;
        while k < self.messages.len()
            invariant
                k <= self.messages.len(),
                messages.len() == k,
                forall|j: int|
                    0 <= j < k ==> messages@[j]@ == render_message(
                        roster_view(self.users@),
                        self.messages@[j]@,
                    ),
            decreases self.messages.len() - k,
        {
            messages.push(render_entry(&self.users, &self.messages[k]));
            k += 1;
        }
        let page = Rendered { users, messages };
        assert(page@.users =~= page_of(self@).users);
        assert(page@.messages =~= page_of(self@).messages);
        page
    }
}

/// The state after a sequence of frames came in, one after another.
pub open spec fn after_frames(state: ChatView, frames: Seq<Seq<char>>) -> ChatView
    decreases frames.len(),
{
    if frames.len() == 0 {
        state
    } else {
        after_frame(after_frames(state, frames.drop_last()), frames.last())
    }
}

/// After a sequence of lists of users, the roster is that of the last list:
/// one profile for each of its names, in their order, each with the avatar
/// that belongs to the name. The transcript is as it was.
pub proof fn lemma_roster_follows_last_list(
    state: ChatView,
    frames: Seq<Seq<char>>,
    lists: Seq<Seq<Seq<char>>>,
)
    requires
        frames.len() > 0,
        lists.len() == frames.len(),
        forall|i: int|
            0 <= i < frames.len() ==> inbound_of_frame(#[trigger] frames[i]) == Ok::<
                InboundView,
                MalformedFrame,
            >(InboundView::Users(lists[i])),
    ensures
        after_frames(state, frames).roster == profiles(lists.last()),
        after_frames(state, frames).transcript == state.transcript,
    decreases frames.len(),
{
    let earlier = frames.drop_last();
    assert(inbound_of_frame(frames[frames.len() - 1]) == Ok::<InboundView, MalformedFrame>(
        InboundView::Users(lists.last()),
    ));
    if earlier.len() > 0 {
        assert forall|i: int| 0 <= i < earlier.len() implies inbound_of_frame(
            #[trigger] earlier[i],
        ) == Ok::<InboundView, MalformedFrame>(InboundView::Users(lists.drop_last()[i])) by {
            assert(earlier[i] == frames[i]);
        }
        lemma_roster_follows_last_list(state, earlier, lists.drop_last());
    }
}

/// A list of users that comes in twice leaves the state that it left the
/// first time.
pub proof fn lemma_same_list_twice(state: ChatView, frame: Seq<char>)
    requires
        inbound_of_frame(frame) matches Ok(InboundView::Users(_)),
    ensures
        after_frame(after_frame(state, frame), frame) == after_frame(state, frame),
{
}

/// After a sequence of chat messages, the transcript is what it was, with
/// the messages added at its end in the order in which they came: none is
/// lost, and its length has grown by their number. The roster is as it was.
pub proof fn lemma_transcript_grows_in_order(
    state: ChatView,
    frames: Seq<Seq<char>>,
    messages: Seq<ChatMessageView>,
)
    requires
        messages.len() == frames.len(),
        forall|i: int|
            0 <= i < frames.len() ==> inbound_of_frame(#[trigger] frames[i]) == Ok::<
                InboundView,
                MalformedFrame,
            >(InboundView::Message(messages[i])),
    ensures
        after_frames(state, frames).transcript == state.transcript + messages,
        after_frames(state, frames).transcript.len() == state.transcript.len() + frames.len(),
        after_frames(state, frames).roster == state.roster,
    decreases frames.len(),
{
    if frames.len() == 0 {
        assert(state.transcript + messages =~= state.transcript);
    } else {
        let earlier = frames.drop_last();
        assert(inbound_of_frame(frames[frames.len() - 1]) == Ok::<InboundView, MalformedFrame>(
            InboundView::Message(messages.last()),
        ));
        assert forall|i: int| 0 <= i < earlier.len() implies inbound_of_frame(
            #[trigger] earlier[i],
        ) == Ok::<InboundView, MalformedFrame>(InboundView::Message(messages.drop_last()[i])) by {
            assert(earlier[i] == frames[i]);
        }
        lemma_transcript_grows_in_order(state, earlier, messages.drop_last());
        assert((state.transcript + messages.drop_last()).push(messages.last())
            =~= state.transcript + messages);
    }
}

/// A malformed frame leaves the roster and the transcript as they were.
pub proof fn lemma_malformed_frame_changes_nothing(state: ChatView, frame: Seq<char>)
    requires
        inbound_of_frame(frame) is Err,
    ensures
        after_frame(state, frame) == state,
{
}

} // verus!
