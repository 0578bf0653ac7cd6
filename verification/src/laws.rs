//! What holds of every session, whatever the host hands it.

use crate::message::{payload_decode_spec, ChatMessageView};
use crate::profile::{
    lemma_distinct, lemma_distinct_of_distinct, lemma_roster_of, profile_names, roster_of,
    valid_roster,
};
use crate::session::{
    carried_message, inbound_bytes_spec, inbound_spec, initial, is_live, report, step, stop_spec, submit_spec,
    ActionView, ChangeKind, ChatModel, MsgView, ProtocolError,
};
use crate::wire::{decode_bytes_spec, decode_spec, DecodeError, FrameView};
use vstd::utf8::{decode_utf8, valid_utf8};
use vstd::prelude::*;

verus! {

/// The session after a sequence of texts came in, one after the other.
pub open spec fn feed(model: ChatModel, inbound: Seq<Seq<char>>) -> ChatModel
    decreases inbound.len(),
{
    if inbound.len() == 0 {
        model
    } else {
        inbound_spec(feed(model, inbound.drop_last()), inbound.last()).0
    }
}

/// The chat messages that a sequence of texts carries, in the order of the
/// texts.
pub open spec fn carried_messages(inbound: Seq<Seq<char>>) -> Seq<ChatMessageView>
    decreases inbound.len(),
{
    if inbound.len() == 0 {
        Seq::empty()
    } else {
        let earlier = carried_messages(inbound.drop_last());
        match carried_message(inbound.last()) {
            Some(message) => earlier.push(message),
            None => earlier,
        }
    }
}

/// A text is malformed where it does not decode to a frame, or decodes to a
/// `message` frame whose payload does not decode.
pub open spec fn is_malformed(text: Seq<char>) -> bool {
    match decode_spec(text) {
        Ok(FrameView::Message(payload)) => payload_decode_spec(payload) is Err,
        Ok(_) => false,
        Err(_) => true,
    }
}

/// Whether one of the actions hands a text to the transport.
pub open spec fn sends(actions: Seq<ActionView>) -> bool {
    exists|i: int| 0 <= i < actions.len() && #[trigger] actions[i] is Send
}

/// Whether one of the actions tells the user interface of this change.
pub open spec fn notifies(actions: Seq<ActionView>, change: ChangeKind) -> bool {
    exists|i: int| 0 <= i < actions.len() && #[trigger] actions[i] == ActionView::Notify(change)
}

/// The session after a sequence of events, one after the other.
pub open spec fn run(model: ChatModel, msgs: Seq<MsgView>) -> ChatModel
    decreases msgs.len(),
{
    if msgs.len() == 0 {
        model
    } else {
        step(run(model, msgs.drop_last()), msgs.last()).0
    }
}

/// What holds of a session at all times: its roster is valid, and as long as
/// it has not announced its name it has nobody online and nothing said.
pub open spec fn is_sound(model: ChatModel) -> bool {
    &&& valid_roster(model.roster)
    &&& model.state is Disconnected || model.state is Connecting ==> model.roster.len() == 0
        && model.history.len() == 0
}

/// The states that a session is in once it has announced its name or was
/// closed before it did: from these it never waits for a transport again.
pub open spec fn is_past_connecting(model: ChatModel) -> bool {
    model.state is Registering || model.state is Active || model.state is Closed
}

/// The history is append-only and in the order of arrival: after any sequence
/// of inbound texts a live session holds what it held before, followed by the
/// chat messages that the texts carried, in their order. Lists of users and
/// texts that are refused, wherever they stand between the chat messages, add
/// nothing and take nothing away.
pub proof fn lemma_history_in_arrival_order(model: ChatModel, inbound: Seq<Seq<char>>)
    requires
        is_live(model.state),
    ensures
        is_live(feed(model, inbound).state),
        feed(model, inbound).history == model.history + carried_messages(inbound),
    decreases inbound.len(),
{
    if inbound.len() > 0 {
        lemma_history_in_arrival_order(model, inbound.drop_last());
    }
    assert(feed(model, inbound).history =~= model.history + carried_messages(inbound));
}

/// A text that carries a chat message adds that message to the end of the
/// history of a live session, and the user interface is told. This holds of
/// the text that `Chat::submit` hands to the transport, when the server sends
/// it back.
pub proof fn lemma_carried_message_is_appended(
    model: ChatModel,
    text: Seq<char>,
    message: ChatMessageView,
)
    requires
        is_live(model.state),
        carried_message(text) == Some(message),
    ensures
        inbound_spec(model, text).0.history == model.history.push(message),
        inbound_spec(model, text).0.roster == model.roster,
        inbound_spec(model, text).0.state == model.state,
        inbound_spec(model, text).1 == seq![ActionView::Notify(ChangeKind::HistoryChanged)],
{
}

/// The roster is replaced and never merged: when a list of users comes in,
/// the roster of a live session is the one that the list stands for, whatever
/// came in before it. A name is in the roster if and only if it is in the
/// list, and a list without repetitions is the list of the roster's names.
pub proof fn lemma_roster_replaced(
    model: ChatModel,
    first: Seq<char>,
    second: Seq<char>,
    names: Seq<Seq<char>>,
)
    requires
        is_live(model.state),
        decode_spec(second) == Ok::<FrameView, DecodeError>(FrameView::Users(names)),
    ensures
        ({
            let after = inbound_spec(inbound_spec(model, first).0, second).0;
            &&& after.roster == roster_of(names)
            &&& valid_roster(after.roster)
            &&& forall|name: Seq<char>| #[trigger]
                profile_names(after.roster).contains(name) <==> names.contains(name)
            &&& names.no_duplicates() ==> profile_names(after.roster) == names
        }),
{
    lemma_roster_of(names);
    lemma_distinct(names);
    if names.no_duplicates() {
        lemma_distinct_of_distinct(names);
    }
}

/// A chat line that is submitted before the session is active is not handed
/// to the transport, and no submitted line, sent or not, changes the session.
pub proof fn lemma_submit_gated(model: ChatModel, line: Seq<char>)
    ensures
        submit_spec(model, line).0 == model,
        !(model.state is Active) ==> !sends(submit_spec(model, line).1),
{
}

/// A text that is malformed leaves the session as it was. A live session
/// reports it with exactly one protocol error, and whatever comes in next is
/// read as if the malformed text had never come.
pub proof fn lemma_malformed_inbound(model: ChatModel, text: Seq<char>, next: Seq<char>)
    requires
        is_malformed(text),
    ensures
        inbound_spec(model, text).0 == model,
        is_live(model.state) ==> exists|error: DecodeError|
            inbound_spec(model, text).1 == #[trigger] report(ProtocolError::Decode(error)),
        inbound_spec(inbound_spec(model, text).0, next) == inbound_spec(model, next),
{
    if is_live(model.state) {
        match decode_spec(text) {
            Ok(FrameView::Message(payload)) => {
                let error = payload_decode_spec(payload)->Err_0;
                assert(inbound_spec(model, text).1 == report(ProtocolError::Decode(error)));
            },
            Ok(_) => {},
            Err(error) => {
                assert(inbound_spec(model, text).1 == report(ProtocolError::Decode(error)));
            },
        }
    }
}

/// Bytes that came in are read as the text that they spell. Bytes that spell
/// no text, or a text that is malformed, leave the session as it was, and a
/// live session reports them with exactly one protocol error.
pub proof fn lemma_inbound_bytes(model: ChatModel, bytes: Seq<u8>)
    ensures
        valid_utf8(bytes) ==> inbound_bytes_spec(model, bytes) == inbound_spec(
            model,
            decode_utf8(bytes),
        ),
        !valid_utf8(bytes) ==> inbound_bytes_spec(model, bytes).0 == model,
        !valid_utf8(bytes) && is_live(model.state) ==> inbound_bytes_spec(model, bytes).1
            == report(ProtocolError::Decode(DecodeError::Encoding)),
        decode_bytes_spec(bytes) is Err ==> inbound_bytes_spec(model, bytes).0 == model,
{
}

/// The roster and the history change only when a text came in from the
/// server. The history never loses a message, and the name of the user never
/// changes.
pub proof fn lemma_store_follows_server(model: ChatModel, msg: MsgView)
    ensures
        !(msg is HandleMsg) ==> step(model, msg).0.roster == model.roster && step(
            model,
            msg,
        ).0.history == model.history,
        model.history.is_prefix_of(step(model, msg).0.history),
        step(model, msg).0.username == model.username,
{
}

/// The roster of a session stays valid.
pub proof fn lemma_roster_stays_valid(model: ChatModel, msg: MsgView)
    requires
        valid_roster(model.roster),
    ensures
        valid_roster(step(model, msg).0.roster),
{
    if let MsgView::HandleMsg(text) = msg {
        if let Ok(FrameView::Users(names)) = decode_spec(text) {
            lemma_roster_of(names);
        }
    }
}

/// A session becomes active in one way only: a list of users comes in while
/// it is registering.
pub proof fn lemma_activation(model: ChatModel, msg: MsgView)
    requires
        !(model.state is Active),
        step(model, msg).0.state is Active,
    ensures
        model.state is Registering,
        msg matches MsgView::HandleMsg(text) && decode_spec(text) matches Ok(FrameView::Users(_)),
{
}

/// A session that is over stays over and does nothing.
pub proof fn lemma_closed_is_terminal(model: ChatModel, msg: MsgView)
    requires
        model.state is Closed,
    ensures
        step(model, msg) == (model, Seq::<ActionView>::empty()),
{
}

/// Stopping works from every state: the session is over, what it held of the
/// roster and the history is still there, and every text that comes in later
/// is passed over.
pub proof fn lemma_stop(model: ChatModel, text: Seq<char>)
    ensures
        stop_spec(model).0.state is Closed,
        stop_spec(model).0.roster == model.roster,
        stop_spec(model).0.history == model.history,
        inbound_spec(stop_spec(model).0, text) == (stop_spec(model).0, Seq::<ActionView>::empty()),
{
}

/// A text is handed to the transport in two cases only: the name is
/// announced when the transport reports that it is open, and a chat line is
/// sent when the user submits it to an active session.
pub proof fn lemma_sends_only_when_due(model: ChatModel, msg: MsgView)
    ensures
        sends(step(model, msg).1) <==> (msg is TransportReady && model.state is Connecting) || (msg
            is SubmitMessage && model.state is Active),
{
    let actions = step(model, msg).1;
    if (msg is TransportReady && model.state is Connecting) || (msg is SubmitMessage
        && model.state is Active) {
        assert(actions[0] is Send);
    }
}

/// The name is announced once: a session that has announced it never waits
/// for a transport again, whatever happens, and so never announces it again.
pub proof fn lemma_announced_once(model: ChatModel, msgs: Seq<MsgView>)
    requires
        is_past_connecting(model),
    ensures
        is_past_connecting(run(model, msgs)),
        !sends(step(run(model, msgs), MsgView::TransportReady).1),
    decreases msgs.len(),
{
    if msgs.len() > 0 {
        lemma_announced_once(model, msgs.drop_last());
    }
    lemma_sends_only_when_due(run(model, msgs), MsgView::TransportReady);
}

/// The user interface is told of what changed: of the state and of the
/// history exactly when they changed, and of the roster whenever a list of
/// users replaced it.
pub proof fn lemma_changes_are_told(model: ChatModel, msg: MsgView)
    ensures
        step(model, msg).0.state != model.state <==> notifies(
            step(model, msg).1,
            ChangeKind::ConnectionStateChanged,
        ),
        step(model, msg).0.history != model.history <==> notifies(
            step(model, msg).1,
            ChangeKind::HistoryChanged,
        ),
        step(model, msg).0.roster != model.roster ==> notifies(
            step(model, msg).1,
            ChangeKind::RosterChanged,
        ),
{
    let after = step(model, msg).0;
    let actions = step(model, msg).1;
    if after.state != model.state {
        let last = actions.len() - 1;
        assert(actions[last] == ActionView::Notify(ChangeKind::ConnectionStateChanged));
    }
    if after.history != model.history {
        assert(actions[0] == ActionView::Notify(ChangeKind::HistoryChanged));
    }
    if after.roster != model.roster {
        assert(actions[0] == ActionView::Notify(ChangeKind::RosterChanged));
    }
    if after.history == model.history {
        if let MsgView::HandleMsg(text) = msg {
            if is_live(model.state) {
                if let Ok(FrameView::Message(payload)) = decode_spec(text) {
                    if let Ok(message) = payload_decode_spec(payload) {
                        assert(after.history.len() == model.history.len() + 1);
                    }
                }
            }
        }
    }
}

/// The first list of users makes a registering session active; every list of
/// users leaves a live session active, with the roster that the list stands
/// for and with the history it had.
pub proof fn lemma_users_frame_activates(model: ChatModel, text: Seq<char>, names: Seq<Seq<char>>)
    requires
        is_live(model.state),
        decode_spec(text) == Ok::<FrameView, DecodeError>(FrameView::Users(names)),
    ensures
        inbound_spec(model, text).0.state is Active,
        inbound_spec(model, text).0.roster == roster_of(names),
        inbound_spec(model, text).0.history == model.history,
{
}

/// Every session is sound: the one that `Chat::create` returns is, and
/// whatever happens to a sound session leaves it sound.
pub proof fn lemma_sessions_are_sound(username: Seq<char>, msgs: Seq<MsgView>)
    ensures
        is_sound(run(initial(username), msgs)),
        run(initial(username), msgs).username == username,
    decreases msgs.len(),
{
    if msgs.len() > 0 {
        let before = run(initial(username), msgs.drop_last());
        lemma_sessions_are_sound(username, msgs.drop_last());
        lemma_roster_stays_valid(before, msgs.last());
    }
}

} // verus!
