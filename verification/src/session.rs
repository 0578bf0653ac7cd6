//! The session controller: one client's part in the chat, from the first
//! attempt to connect until the session is closed.
//!
//! The controller does no I/O. Its host hands it what happened as a `Msg`, and
//! gets back the actions to carry out, in their order: open or close the
//! transport, send a text, tell the user interface what changed. The roster and
//! the history change only when a frame from the server was decoded; nothing
//! that the user submits is shown before the server sends it back.

use crate::message::{
    message_views, payload_decode_spec, payload_encode_spec, ChatMessage, ChatMessageView,
};
use crate::profile::{profile_views, roster_of, valid_roster, UserProfile, UserProfileView};
use crate::screen::{compose, screen_of, Screen};
use crate::store::Store;
use crate::wire::{
    decode, decode_bytes, decode_bytes_spec, decode_spec, encode, encode_spec, DecodeError, Frame,
    FrameView,
};
use vstd::prelude::*;

verus! {

/// Where a session stands.
#[derive(Clone, Copy, Debug, PartialEq, Eq, Structural)]
pub enum SessionState {
    /// No transport; `Msg::Start` asks for one.
    Disconnected,
    /// The transport was asked for and has not reported yet.
    Connecting,
    /// The name was announced; no list of users has come yet.
    Registering,
    /// A list of users has come. Only now are chat lines sent.
    Active,
    /// The session is over. Nothing leads out of this state.
    Closed,
}

/// What can happen to a session.
#[derive(Clone, Debug, PartialEq, Eq)]
pub enum Msg {
    /// The host wants the session to begin.
    Start,
    /// The transport is open.
    TransportReady,
    /// The transport could not be opened.
    TransportFailed,
    /// A text came in from the server.
    HandleMsg(String),
    /// The user submitted a chat line.
    SubmitMessage(String),
    /// The transport did not take a text that it was handed.
    SendFailed,
    /// The host wants the session to end.
    Stop,
}

pub enum MsgView {
    Start,
    TransportReady,
    TransportFailed,
    HandleMsg(Seq<char>),
    SubmitMessage(Seq<char>),
    SendFailed,
    Stop,
}

impl View for Msg {
    type V = MsgView;

    open spec fn view(&self) -> MsgView {
        match self {
            Msg::Start => MsgView::Start,
            Msg::TransportReady => MsgView::TransportReady,
            Msg::TransportFailed => MsgView::TransportFailed,
            Msg::HandleMsg(text) => MsgView::HandleMsg(text@),
            Msg::SubmitMessage(line) => MsgView::SubmitMessage(line@),
            Msg::SendFailed => MsgView::SendFailed,
            Msg::Stop => MsgView::Stop,
        }
    }
}

/// A frame that is well formed and still out of place.
#[derive(Clone, Copy, Debug, PartialEq, Eq, Structural)]
pub enum Anomaly {
    /// The server sent a `register` frame; only clients send those.
    InboundRegister,
    /// A list of users held a name more than once. The roster holds it once.
    DuplicateNames,
}

/// A failure that the session reports and survives.
#[derive(Clone, Copy, Debug, PartialEq, Eq, Structural)]
pub enum ProtocolError {
    /// The transport could not be opened. The host may start again.
    TransportOpen,
    /// An inbound text, or the payload of a `message` frame, was not decoded.
    /// The frame was dropped.
    Decode(DecodeError),
    /// A chat line was not sent: the session was not active, or the transport
    /// did not take the text.
    Send,
    /// A frame was out of place.
    Anomaly(Anomaly),
}

/// What the user interface is told.
#[derive(Clone, Copy, Debug, PartialEq, Eq, Structural)]
pub enum ChangeKind {
    RosterChanged,
    HistoryChanged,
    ProtocolError(ProtocolError),
    ConnectionStateChanged,
}

/// What the host is to do.
#[derive(Clone, Debug, PartialEq, Eq)]
pub enum Action {
    /// Open the transport, and report with `Msg::TransportReady` or
    /// `Msg::TransportFailed`.
    OpenTransport,
    /// Send the text; report with `Msg::SendFailed` if the transport does not
    /// take it.
    Send(String),
    /// Release the transport.
    CloseTransport,
    /// Tell the user interface.
    Notify(ChangeKind),
}

pub enum ActionView {
    OpenTransport,
    Send(Seq<char>),
    CloseTransport,
    Notify(ChangeKind),
}

impl View for Action {
    type V = ActionView;

    open spec fn view(&self) -> ActionView {
        match self {
            Action::OpenTransport => ActionView::OpenTransport,
            Action::Send(text) => ActionView::Send(text@),
            Action::CloseTransport => ActionView::CloseTransport,
            Action::Notify(change) => ActionView::Notify(*change),
        }
    }
}

/// The actions that a sequence of actions stands for.
pub open spec fn action_views(actions: Seq<Action>) -> Seq<ActionView> {
    actions.map_values(|action: Action| action@)
}

/// A session as the contracts see it.
pub struct ChatModel {
    pub username: Seq<char>,
    pub state: SessionState,
    pub roster: Seq<UserProfileView>,
    pub history: Seq<ChatMessageView>,
}

/// The session that `Chat::create` returns.
pub open spec fn initial(username: Seq<char>) -> ChatModel {
    ChatModel {
        username,
        state: SessionState::Disconnected,
        roster: Seq::empty(),
        history: Seq::empty(),
    }
}

/// The states in which inbound texts are read: the name was announced and the
/// session is not over.
pub open spec fn is_live(state: SessionState) -> bool {
    state is Registering || state is Active
}

/// The states in which the session holds a transport.
pub open spec fn holds_transport(state: SessionState) -> bool {
    state is Connecting || state is Registering || state is Active
}

/// The one action that reports a failure.
pub open spec fn report(error: ProtocolError) -> Seq<ActionView> {
    seq![ActionView::Notify(ChangeKind::ProtocolError(error))]
}

/// `Msg::Start`: a session without a transport asks for one. In any other
/// state nothing happens.
pub open spec fn start_spec(model: ChatModel) -> (ChatModel, Seq<ActionView>) {
    if model.state is Disconnected {
        (
            ChatModel { state: SessionState::Connecting, ..model },
            seq![
                ActionView::OpenTransport,
                ActionView::Notify(ChangeKind::ConnectionStateChanged),
            ],
        )
    } else {
        (model, Seq::empty())
    }
}

/// `Msg::TransportReady`: a session that waits for its transport announces
/// its name at once. In any other state nothing happens.
pub open spec fn transport_ready_spec(model: ChatModel) -> (ChatModel, Seq<ActionView>) {
    if model.state is Connecting {
        (
            ChatModel { state: SessionState::Registering, ..model },
            seq![
                ActionView::Send(encode_spec(FrameView::Register(model.username))),
                ActionView::Notify(ChangeKind::ConnectionStateChanged),
            ],
        )
    } else {
        (model, Seq::empty())
    }
}

/// `Msg::TransportFailed`: a session that waits for its transport gives it
/// up, reports, and is where it began. In any other state nothing happens.
pub open spec fn transport_failed_spec(model: ChatModel) -> (ChatModel, Seq<ActionView>) {
    if model.state is Connecting {
        (
            ChatModel { state: SessionState::Disconnected, ..model },
            seq![
                ActionView::CloseTransport,
                ActionView::Notify(ChangeKind::ProtocolError(ProtocolError::TransportOpen)),
                ActionView::Notify(ChangeKind::ConnectionStateChanged),
            ],
        )
    } else {
        (model, Seq::empty())
    }
}

/// What the user interface is told when a list of users came in.
pub open spec fn roster_actions(repeated: bool, first: bool) -> Seq<ActionView> {
    seq![ActionView::Notify(ChangeKind::RosterChanged)] + (if repeated {
        report(ProtocolError::Anomaly(Anomaly::DuplicateNames))
    } else {
        Seq::empty()
    }) + (if first {
        seq![ActionView::Notify(ChangeKind::ConnectionStateChanged)]
    } else {
        Seq::empty()
    })
}

/// What a decoded frame does to a live session. A list of users replaces the
/// roster and makes the session active. A chat line whose payload decodes is
/// appended to the history; one whose payload does not is reported and
/// dropped. A `register` frame is reported and passed over.
pub open spec fn apply_frame(model: ChatModel, frame: FrameView) -> (ChatModel, Seq<ActionView>) {
    match frame {
        FrameView::Users(names) => (
            ChatModel { state: SessionState::Active, roster: roster_of(names), ..model },
            roster_actions(!names.no_duplicates(), model.state is Registering),
        ),
        FrameView::Message(payload) => match payload_decode_spec(payload) {
            Ok(message) => (
                ChatModel { history: model.history.push(message), ..model },
                seq![ActionView::Notify(ChangeKind::HistoryChanged)],
            ),
            Err(error) => (model, report(ProtocolError::Decode(error))),
        },
        FrameView::Register(_) => (model, report(ProtocolError::Anomaly(Anomaly::InboundRegister))),
    }
}

/// What a decoded frame does to a session: a live session applies it, any
/// other passes it over.
pub open spec fn apply_spec(model: ChatModel, frame: FrameView) -> (ChatModel, Seq<ActionView>) {
    if is_live(model.state) {
        apply_frame(model, frame)
    } else {
        (model, Seq::empty())
    }
}

/// `Msg::HandleMsg`: a live session decodes the text and applies the frame; a
/// text that does not decode is reported and dropped. A session that is not
/// live passes every text over.
pub open spec fn inbound_spec(model: ChatModel, text: Seq<char>) -> (ChatModel, Seq<ActionView>) {
    if is_live(model.state) {
        match decode_spec(text) {
            Ok(frame) => apply_frame(model, frame),
            Err(error) => (model, report(ProtocolError::Decode(error))),
        }
    } else {
        (model, Seq::empty())
    }
}

/// What bytes that came in from the server do to a session: the same as the
/// text that they spell, and bytes that spell none are reported by a live
/// session and dropped.
pub open spec fn inbound_bytes_spec(model: ChatModel, bytes: Seq<u8>) -> (
    ChatModel,
    Seq<ActionView>,
) {
    if is_live(model.state) {
        match decode_bytes_spec(bytes) {
            Ok(frame) => apply_frame(model, frame),
            Err(error) => (model, report(ProtocolError::Decode(error))),
        }
    } else {
        (model, Seq::empty())
    }
}

/// The chat message that a text carries: the text decodes to a `message`
/// frame and its payload decodes too.
pub open spec fn carried_message(text: Seq<char>) -> Option<ChatMessageView> {
    match decode_spec(text) {
        Ok(FrameView::Message(payload)) => match payload_decode_spec(payload) {
            Ok(message) => Some(message),
            Err(_) => None,
        },
        _ => None,
    }
}

/// Every text that the actions hand to the transport decodes to a frame.
pub open spec fn sends_frames_only(actions: Seq<ActionView>) -> bool {
    forall|i: int|
        0 <= i < actions.len() ==> (#[trigger] actions[i] matches ActionView::Send(text)
            ==> decode_spec(text) is Ok)
}

/// The text that carries a chat line of a user.
pub open spec fn chat_line_text(username: Seq<char>, line: Seq<char>) -> Seq<char> {
    encode_spec(
        FrameView::Message(payload_encode_spec(ChatMessageView { sender: username, body: line })),
    )
}

/// `Msg::SubmitMessage`: an active session sends the line. One that is not
/// active yet reports that the line was not sent, and one that is over does
/// nothing. The session itself stays as it is in each case.
pub open spec fn submit_spec(model: ChatModel, line: Seq<char>) -> (ChatModel, Seq<ActionView>) {
    if model.state is Active {
        (model, seq![ActionView::Send(chat_line_text(model.username, line))])
    } else if model.state is Closed {
        (model, Seq::empty())
    } else {
        (model, report(ProtocolError::Send))
    }
}

/// `Msg::SendFailed`: reported, unless the session is over.
pub open spec fn send_failed_spec(model: ChatModel) -> (ChatModel, Seq<ActionView>) {
    if model.state is Closed {
        (model, Seq::empty())
    } else {
        (model, report(ProtocolError::Send))
    }
}

/// `Msg::Stop`: the session is over. A transport that it holds is released.
pub open spec fn stop_spec(model: ChatModel) -> (ChatModel, Seq<ActionView>) {
    if model.state is Closed {
        (model, Seq::empty())
    } else {
        (
            ChatModel { state: SessionState::Closed, ..model },
            (if holds_transport(model.state) {
                seq![ActionView::CloseTransport]
            } else {
                Seq::empty()
            }) + seq![ActionView::Notify(ChangeKind::ConnectionStateChanged)],
        )
    }
}

/// The session after a `Msg`, and the actions that the host is handed.
pub open spec fn step(model: ChatModel, msg: MsgView) -> (ChatModel, Seq<ActionView>) {
    match msg {
        MsgView::Start => start_spec(model),
        MsgView::TransportReady => transport_ready_spec(model),
        MsgView::TransportFailed => transport_failed_spec(model),
        MsgView::HandleMsg(text) => inbound_spec(model, text),
        MsgView::SubmitMessage(line) => submit_spec(model, line),
        MsgView::SendFailed => send_failed_spec(model),
        MsgView::Stop => stop_spec(model),
    }
}

/// One client's session.
pub struct Chat {
    username: String,
    state: SessionState,
    store: Store,
}

impl Chat {
    /// The session as the contracts see it.
    pub closed spec fn model(&self) -> ChatModel {
        ChatModel {
            username: self.username@,
            state: self.state,
            roster: self.store@.roster,
            history: self.store@.history,
        }
    }

    /// A session of the user, without a transport, with nobody online and
    /// nothing said.
    pub fn create(username: String) -> (chat: Chat)
        ensures
            chat.model() == initial(username@),
    {
        Chat { username, state: SessionState::Disconnected, store: Store::new() }
    }

    /// The name under which the session announces itself.
    pub fn username(&self) -> (username: String)
        ensures
            username@ == self.model().username,
    {
        self.username.clone()
    }

    /// Where the session stands.
    pub fn state(&self) -> (state: SessionState)
        ensures
            state == self.model().state,
    {
        self.state
    }

    /// Asks for the transport.
    pub fn start(&mut self) -> (actions: Vec<Action>)
        ensures
            (final(self).model(), action_views(actions@)) == start_spec(old(self).model()),
    {
        match self.state {
            SessionState::Disconnected => {
                self.state = SessionState::Connecting;
                let actions = vec![
                    Action::OpenTransport,
                    Action::Notify(ChangeKind::ConnectionStateChanged),
                ];
                assert(action_views(actions@) =~= start_spec(old(self).model()).1);
                actions
            },
            _ => no_actions(),
        }
    }

    /// Announces the name, now that the transport is open. The text that is
    /// sent decodes to the `register` frame with the name of the user.
    pub fn transport_ready(&mut self) -> (actions: Vec<Action>)
        ensures
            (final(self).model(), action_views(actions@)) == transport_ready_spec(
                old(self).model(),
            ),
            old(self).model().state is Connecting ==> decode_spec(
                encode_spec(FrameView::Register(old(self).model().username)),
            ) == Ok::<FrameView, DecodeError>(FrameView::Register(old(self).model().username)),
            sends_frames_only(action_views(actions@)),
    {
        match self.state {
            SessionState::Connecting => {
                self.state = SessionState::Registering;
                let text = encode(&Frame::Register(self.username.clone()));
                let actions = vec![
                    Action::Send(text),
                    Action::Notify(ChangeKind::ConnectionStateChanged),
                ];
                assert(action_views(actions@) =~= transport_ready_spec(old(self).model()).1);
                actions
            },
            _ => no_actions(),
        }
    }

    /// Gives up the transport that could not be opened.
    pub fn transport_failed(&mut self) -> (actions: Vec<Action>)
        ensures
            (final(self).model(), action_views(actions@)) == transport_failed_spec(
                old(self).model(),
            ),
    {
        match self.state {
            SessionState::Connecting => {
                self.state = SessionState::Disconnected;
                let actions = vec![
                    Action::CloseTransport,
                    Action::Notify(ChangeKind::ProtocolError(ProtocolError::TransportOpen)),
                    Action::Notify(ChangeKind::ConnectionStateChanged),
                ];
                assert(action_views(actions@) =~= transport_failed_spec(old(self).model()).1);
                actions
            },
            _ => no_actions(),
        }
    }

    /// Whether inbound texts are read.
    pub fn is_live(&self) -> (live: bool)
        ensures
            live == is_live(self.model().state),
    {
        match self.state {
            SessionState::Registering => true,
            SessionState::Active => true,
            _ => false,
        }
    }

    /// Applies a frame that was decoded.
    pub fn apply(&mut self, frame: Frame) -> (actions: Vec<Action>)
        ensures
            (final(self).model(), action_views(actions@)) == apply_spec(
                old(self).model(),
                frame@,
            ),
    {
        if !self.is_live() {
            return no_actions();
        }
        match frame {
            Frame::Users(names) => {
                let first = match self.state {
                    SessionState::Registering => true,
                    _ => false,
                };
                let repeated = self.store.replace_roster(&names);
                self.state = SessionState::Active;
                let mut actions = vec![Action::Notify(ChangeKind::RosterChanged)];
                if repeated {
                    actions.push(
                        Action::Notify(
                            ChangeKind::ProtocolError(
                                ProtocolError::Anomaly(Anomaly::DuplicateNames),
                            ),
                        ),
                    );
                }
                if first {
                    actions.push(Action::Notify(ChangeKind::ConnectionStateChanged));
                }
                assert(action_views(actions@) =~= roster_actions(repeated, first));
                actions
            },
            Frame::Message(payload) => match ChatMessage::decode(payload.as_str()) {
                Ok(message) => {
                    self.store.append(message);
                    let actions = vec![Action::Notify(ChangeKind::HistoryChanged)];
                    assert(action_views(actions@) =~= seq![
                        ActionView::Notify(ChangeKind::HistoryChanged),
                    ]);
                    actions
                },
                Err(error) => report_error(ProtocolError::Decode(error)),
            },
            Frame::Register(_) => report_error(ProtocolError::Anomaly(Anomaly::InboundRegister)),
        }
    }

    /// Reads a text that came in from the server.
    pub fn on_inbound(&mut self, text: &str) -> (actions: Vec<Action>)
        ensures
            (final(self).model(), action_views(actions@)) == inbound_spec(
                old(self).model(),
                text@,
            ),
    {
        if !self.is_live() {
            return no_actions();
        }
        match decode(text) {
            Ok(frame) => self.apply(frame),
            Err(error) => report_error(ProtocolError::Decode(error)),
        }
    }

    /// Reads bytes that came in from the server.
    pub fn on_inbound_bytes(&mut self, bytes: &[u8]) -> (actions: Vec<Action>)
        ensures
            (final(self).model(), action_views(actions@)) == inbound_bytes_spec(
                old(self).model(),
                bytes@,
            ),
    {
        if !self.is_live() {
            return no_actions();
        }
        match decode_bytes(bytes) {
            Ok(frame) => self.apply(frame),
            Err(error) => report_error(ProtocolError::Decode(error)),
        }
    }

    /// Takes a chat line from the user. The line is not added to the history:
    /// it is shown when the server sends it back. The text that an active
    /// session sends carries the line as a chat message of the user.
    pub fn submit(&self, line: &str) -> (actions: Vec<Action>)
        ensures
            action_views(actions@) == submit_spec(self.model(), line@).1,
            self.model().state is Active ==> carried_message(
                chat_line_text(self.model().username, line@),
            ) == Some(ChatMessageView { sender: self.model().username, body: line@ }),
            sends_frames_only(action_views(actions@)),
    {
        match self.state {
            SessionState::Active => {
                let message = ChatMessage { sender: self.username.clone(), body: line.to_owned() };
                let text = encode(&Frame::Message(message.encode()));
                let actions = vec![Action::Send(text)];
                assert(action_views(actions@) =~= submit_spec(self.model(), line@).1);
                actions
            },
            SessionState::Closed => no_actions(),
            _ => report_error(ProtocolError::Send),
        }
    }

    /// Takes note that the transport did not take a text.
    pub fn send_failed(&self) -> (actions: Vec<Action>)
        ensures
            action_views(actions@) == send_failed_spec(self.model()).1,
    {
        match self.state {
            SessionState::Closed => no_actions(),
            _ => report_error(ProtocolError::Send),
        }
    }

    /// Ends the session, from whatever state.
    pub fn stop(&mut self) -> (actions: Vec<Action>)
        ensures
            (final(self).model(), action_views(actions@)) == stop_spec(old(self).model()),
    {
        let mut actions: Vec<Action> = Vec::new();
        match self.state {
            SessionState::Closed => {},
            SessionState::Disconnected => {
                actions.push(Action::Notify(ChangeKind::ConnectionStateChanged));
            },
            _ => {
                actions.push(Action::CloseTransport);
                actions.push(Action::Notify(ChangeKind::ConnectionStateChanged));
            },
        }
        self.state = SessionState::Closed;
        assert(action_views(actions@) =~= stop_spec(old(self).model()).1);
        actions
    }

    /// Takes what happened, and returns what the host is to do. Whatever is
    /// handed to the transport decodes to a frame.
    pub fn update(&mut self, msg: Msg) -> (actions: Vec<Action>)
        ensures
            (final(self).model(), action_views(actions@)) == step(old(self).model(), msg@),
            sends_frames_only(action_views(actions@)),
    {
        match msg {
            Msg::Start => self.start(),
            Msg::TransportReady => self.transport_ready(),
            Msg::TransportFailed => self.transport_failed(),
            Msg::HandleMsg(text) => self.on_inbound(text.as_str()),
            Msg::SubmitMessage(line) => self.submit(line.as_str()),
            Msg::SendFailed => self.send_failed(),
            Msg::Stop => self.stop(),
        }
    }

    /// What the user interface shows of the session.
    pub fn view(&self) -> (screen: Screen)
        ensures
            screen@ == screen_of(self.model().username, self.model().roster, self.model().history),
    {
        compose(&self.username, &self.store)
    }

    /// A copy of the roster as it stands.
    pub fn current_roster(&self) -> (roster: Vec<UserProfile>)
        ensures
            profile_views(roster@) == self.model().roster,
            valid_roster(self.model().roster),
    {
        self.store.current_roster()
    }

    /// A copy of the history as it stands.
    pub fn current_history(&self) -> (history: Vec<ChatMessage>)
        ensures
            message_views(history@) == self.model().history,
    {
        self.store.current_history()
    }
}

/// Nothing for the host to do.
fn no_actions() -> (actions: Vec<Action>)
    ensures
        action_views(actions@) == Seq::<ActionView>::empty(),
{
    let actions: Vec<Action> = Vec::new();
    assert(action_views(actions@) =~= Seq::empty());
    actions
}

/// The one action that reports a failure.
fn report_error(error: ProtocolError) -> (actions: Vec<Action>)
    ensures
        action_views(actions@) == report(error),
{
    let actions = vec![Action::Notify(ChangeKind::ProtocolError(error))];
    assert(action_views(actions@) =~= report(error));
    actions
}

} // verus!
