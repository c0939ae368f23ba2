//! The event router: what to do with a membership event and with a room
//! message.
//!
//! A membership event starts the auto-join controller when it invites the bot
//! itself. A room message is a command when it is plain text in a joined room
//! and begins with the command marker; before a command runs, its sender must
//! be confirmed as a server administrator by a live query, every time.

use crate::command::{handle, plan_for, Plan, PlanView, Reply, ReplyView};
use crate::text::same_text;
use vstd::prelude::*;
use vstd::string::{StrSliceExecFns, StringExecFns};

verus! {

/// The character that marks a message as a command.
pub const COMMAND_MARKER: char = '!';

/// What a sender who is no administrator is told.
pub const REFUSAL_TEXT: &'static str = "Only server admin are allowed to interact with me";

/// The bot's own membership of the room that an event belongs to.
#[derive(Clone, Copy, Debug, PartialEq, Eq, Structural)]
pub enum RoomState {
    Joined,
    Invited,
    Left,
}

/// What to do with a membership event.
#[derive(Clone, Copy, Debug, PartialEq, Eq, Structural)]
pub enum MemberRouting {
    /// Nothing: the event is about someone else, or is no invitation.
    Ignore,
    /// Start the auto-join controller for the room.
    AutoJoin,
}

/// The routing of a membership event whose target is `state_key`, seen by a
/// bot whose own identifier is `own_id`.
pub open spec fn route_membership(
    state_key: Seq<char>,
    own_id: Seq<char>,
    room: RoomState,
) -> MemberRouting {
    if state_key == own_id && room == RoomState::Invited {
        MemberRouting::AutoJoin
    } else {
        MemberRouting::Ignore
    }
}

/// Routes a membership event. Only an invitation of the bot itself starts a
/// join; an event about any other user never does.
pub fn on_stripped_state_member(
    state_key: &str,
    own_id: &str,
    room: RoomState,
) -> (routing: MemberRouting)
    ensures
        routing == route_membership(state_key@, own_id@, room),
        state_key@ != own_id@ ==> routing == MemberRouting::Ignore,
        room != RoomState::Invited ==> routing == MemberRouting::Ignore,
{
    if !same_text(state_key, own_id) {
        return MemberRouting::Ignore;
    }
    match room {
        RoomState::Invited => MemberRouting::AutoJoin,
        _ => MemberRouting::Ignore,
    }
}

/// What kind of content a room message has.
#[derive(Clone, Copy, Debug, PartialEq, Eq, Structural)]
pub enum MessageKind {
    /// Plain text.
    Text,
    /// Anything else: an image, a notice, an emote, ...
    Other,
}

/// A message that arrived in a room.
#[derive(Clone, Debug)]
pub struct RoomMessage {
    pub sender: String,
    pub kind: MessageKind,
    pub body: String,
}

/// What a `RoomMessage` holds.
pub struct RoomMessageView {
    pub sender: Seq<char>,
    pub kind: MessageKind,
    pub body: Seq<char>,
}

impl View for RoomMessage {
    type V = RoomMessageView;

    open spec fn view(&self) -> RoomMessageView {
        RoomMessageView { sender: self.sender@, kind: self.kind, body: self.body@ }
    }
}

/// What to do with a room message.
#[derive(Clone, Debug)]
pub enum MessageRouting {
    /// Nothing: the message is no command.
    Ignore,
    /// Ask whether `sender` is a server administrator, then call `authorize`
    /// with the answer and `command`.
    CheckAdmin { sender: String, command: String },
}

/// What a `MessageRouting` holds.
pub enum MessageRoutingView {
    Ignore,
    CheckAdmin { sender: Seq<char>, command: Seq<char> },
}

impl View for MessageRouting {
    type V = MessageRoutingView;

    open spec fn view(&self) -> MessageRoutingView {
        match self {
            MessageRouting::Ignore => MessageRoutingView::Ignore,
            MessageRouting::CheckAdmin { sender, command } => MessageRoutingView::CheckAdmin {
                sender: sender@,
                command: command@,
            },
        }
    }
}

/// Whether a message is a command: plain text, in a joined room, that begins
/// with the command marker.
pub open spec fn is_command(message: RoomMessageView, room: RoomState) -> bool {
    &&& room == RoomState::Joined
    &&& message.kind == MessageKind::Text
    &&& message.body.len() > 0
    &&& message.body[0] == COMMAND_MARKER
}

/// The routing of a room message. The command is the text after the marker.
pub open spec fn route_message(message: RoomMessageView, room: RoomState) -> MessageRoutingView {
    if is_command(message, room) {
        MessageRoutingView::CheckAdmin { sender: message.sender, command: message.body.skip(1) }
    } else {
        MessageRoutingView::Ignore
    }
}

/// Routes a room message. No command comes out of here: a message that is one
/// goes to the administrator check first.
pub fn on_room_message(message: &RoomMessage, room: RoomState) -> (routing: MessageRouting)
    ensures
        routing@ == route_message(message@, room),
{
    match room {
        RoomState::Joined => {},
        _ => {
            return MessageRouting::Ignore;
        },
    }
    match message.kind {
        MessageKind::Text => {},
        MessageKind::Other => {
            return MessageRouting::Ignore;
        },
    }
    let body = message.body.as_str();
    let len = body.unicode_len();
    if len == 0 || body.get_char(0) != COMMAND_MARKER {
        return MessageRouting::Ignore;
    }
    let command = body.substring_char(1, len);
    assert(command@ == message@.body.skip(1));
    MessageRouting::CheckAdmin {
        sender: message.sender.clone(),
        command: String::from_str(command),
    }
}

/// The administrator query could not be carried out.
#[derive(Clone, Copy, Debug, PartialEq, Eq, Structural)]
pub struct QueryFailed;

/// What becomes of a command once the administrator query has answered.
#[derive(Clone, Debug)]
pub enum Verdict {
    /// The sender is an administrator: carry out this plan.
    Run(Plan),
    /// The sender is no administrator: send this refusal and nothing else.
    Refuse(Reply),
    /// The query failed: drop the message without any reply.
    Drop,
}

/// What a `Verdict` holds.
pub enum VerdictView {
    Run(PlanView),
    Refuse(ReplyView),
    Drop,
}

impl View for Verdict {
    type V = VerdictView;

    open spec fn view(&self) -> VerdictView {
        match self {
            Verdict::Run(plan) => VerdictView::Run(plan@),
            Verdict::Refuse(reply) => VerdictView::Refuse(reply@),
            Verdict::Drop => VerdictView::Drop,
        }
    }
}

/// The refusal: plain text, no rich rendering.
pub open spec fn refusal() -> ReplyView {
    ReplyView { body: REFUSAL_TEXT@, html: None }
}

/// The verdict on a command, given the answer of the administrator query.
pub open spec fn verdict_for(answer: Result<bool, QueryFailed>, command: Seq<char>) -> VerdictView {
    match answer {
        Ok(true) => VerdictView::Run(plan_for(command)),
        Ok(false) => VerdictView::Refuse(refusal()),
        Err(_) => VerdictView::Drop,
    }
}

/// Decides on a command once the administrator query about its sender has
/// answered. Only a confirmed administrator gets the command dispatched;
/// anyone else gets the one refusal, whatever the keyword; a failed query is
/// neither taken as yes nor as no.
pub fn authorize(answer: Result<bool, QueryFailed>, command: &str) -> (verdict: Verdict)
    ensures
        verdict@ == verdict_for(answer, command@),
        verdict is Run <==> answer == Ok::<bool, QueryFailed>(true),
        answer == Ok::<bool, QueryFailed>(false) ==> verdict@ == VerdictView::Refuse(refusal()),
        answer is Err ==> verdict is Drop,
{
    match answer {
        Ok(true) => Verdict::Run(handle(command)),
        Ok(false) => Verdict::Refuse(Reply { body: String::from_str(REFUSAL_TEXT), html: None }),
        Err(_) => Verdict::Drop,
    }
}

} // verus!
