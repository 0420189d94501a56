//! The attendance socket: clerks announce their presence and answer
//! clients' requests for a chat or a call ("intends"); clients open such
//! requests. Each message is turned into one command for the database and
//! the broadcast that follows it.
//!
//! An intend goes Asked (0) -> Received (1) -> Accepted (2) or Refused (3).
//! The clerk's page marks it received when it is shown, and accepted or
//! refused when the clerk answers.

use vstd::prelude::*;
use crate::status::{status_code_spec, Status};
use crate::text::{concatenate, text_eq};

verus! {

/// A message on the attendance socket.
#[derive(Debug)]
pub struct AttendMessage {
    /// What to execute.
    pub action: String,
    /// The clerk concerned, or the sender when a clerk writes.
    pub clerk_id: Option<i32>,
    /// The client concerned, or the sender when a client writes.
    pub client_id: Option<i32>,
    /// An identifier handed back to the page after an event.
    pub data: Option<i32>,
    pub voice: Option<bool>,
    pub text: Option<bool>,
    pub video: Option<bool>,
    /// Which side sends: `Clerk`, `Client` or `Administrative`.
    pub from: String,
}

/// Whether an intend asks for a voice call or a text chat.
#[derive(Clone, Copy, Debug, PartialEq, Eq, Structural)]
pub enum IntendKind {
    Voice,
    Text,
}

/// Where an intend stands.
#[derive(Clone, Copy, Debug, PartialEq, Eq, Structural)]
pub enum IntendStatus {
    Asked,
    Received,
    Accepted,
    Refused,
}

/// Which time column an intend update stamps with the current time.
#[derive(Clone, Copy, Debug, PartialEq, Eq, Structural)]
pub enum IntendStamp {
    ReceivedTime,
    AnswerTime,
}

/// What the server does with one message.
#[derive(Clone, Copy, Debug, PartialEq, Eq, Structural)]
pub enum AttendCommand {
    /// Every intend of this clerk, client and kind whose status is `from`
    /// (and that has a received time, when `needs_received`) moves to `to`,
    /// and its `stamp` column is set to now.
    AdvanceIntends {
        clerk_id: i32,
        client_id: i32,
        kind: IntendKind,
        from: IntendStatus,
        needs_received: bool,
        to: IntendStatus,
        stamp: IntendStamp,
    },
    /// The clerk is online with the given availabilities (mail is always
    /// available); the clients waiting for this clerk are mailed, and every
    /// clerk status is broadcast.
    ClerkOnline { clerk_id: i32, chat: bool, voice: bool, video: bool },
    /// The clerk's status becomes `status`; every clerk status is broadcast.
    SetClerkStatus { clerk_id: i32, status: Status },
    /// Every clerk status is broadcast.
    BroadcastStatuses,
    /// A new intend of this kind, asked now, from the client to the clerk.
    OpenIntend { clerk_id: i32, client_id: i32, kind: IntendKind },
    /// Nothing but the echo of the message.
    Ignore,
}

pub open spec fn intend_kind_code(k: IntendKind) -> i32 {
    match k {
        IntendKind::Voice => 0,
        IntendKind::Text => 1,
    }
}

pub open spec fn intend_status_code(s: IntendStatus) -> i32 {
    match s {
        IntendStatus::Asked => 0,
        IntendStatus::Received => 1,
        IntendStatus::Accepted => 2,
        IntendStatus::Refused => 3,
    }
}

impl IntendKind {
    /// The integer stored in `intends.intend_type`.
    pub fn code(&self) -> (c: i32)
        ensures
            c == intend_kind_code(*self),
    {
        match self {
            IntendKind::Voice => 0,
            IntendKind::Text => 1,
        }
    }
}

impl IntendStatus {
    /// The integer stored in `intends.intend_status`.
    pub fn code(&self) -> (c: i32)
        ensures
            c == intend_status_code(*self),
    {
        match self {
            IntendStatus::Asked => 0,
            IntendStatus::Received => 1,
            IntendStatus::Accepted => 2,
            IntendStatus::Refused => 3,
        }
    }
}

/// The clerk actions that answer an intend: their kind and the status they lead to.
pub open spec fn intend_answer_spec(action: Seq<char>) -> Option<(IntendKind, IntendStatus)> {
    if action == "voice-chat-acc"@ {
        Some((IntendKind::Voice, IntendStatus::Accepted))
    } else if action == "voice-chat-received"@ {
        Some((IntendKind::Voice, IntendStatus::Received))
    } else if action == "voice-chat-ref"@ {
        Some((IntendKind::Voice, IntendStatus::Refused))
    } else if action == "text-chat-acc"@ {
        Some((IntendKind::Text, IntendStatus::Accepted))
    } else if action == "text-chat-received"@ {
        Some((IntendKind::Text, IntendStatus::Received))
    } else if action == "text-chat-ref"@ {
        Some((IntendKind::Text, IntendStatus::Refused))
    } else {
        None
    }
}

/// The client actions that open an intend, and its kind.
pub open spec fn intend_request_spec(action: Seq<char>) -> Option<IntendKind> {
    if action == "voice-chat-intend"@ {
        Some(IntendKind::Voice)
    } else if action == "text-chat-intend"@ {
        Some(IntendKind::Text)
    } else {
        None
    }
}

/// The update that moves intends to `to`: received from asked, and an
/// answer (accepted or refused) only from received with a received time.
pub open spec fn advance_to(clerk_id: i32, client_id: i32, kind: IntendKind, to: IntendStatus) -> AttendCommand {
    if to == IntendStatus::Received {
        AttendCommand::AdvanceIntends {
            clerk_id,
            client_id,
            kind,
            from: IntendStatus::Asked,
            needs_received: false,
            to,
            stamp: IntendStamp::ReceivedTime,
        }
    } else {
        AttendCommand::AdvanceIntends {
            clerk_id,
            client_id,
            kind,
            from: IntendStatus::Received,
            needs_received: true,
            to,
            stamp: IntendStamp::AnswerTime,
        }
    }
}

/// Whether the message carries every field that its action uses.
pub open spec fn attend_message_complete(m: AttendMessage) -> bool {
    if m.from@ == "Clerk"@ {
        if intend_answer_spec(m.action@) is Some {
            m.clerk_id is Some && m.client_id is Some
        } else if m.action@ == "im-in"@ {
            m.clerk_id is Some && m.text is Some && m.voice is Some && m.video is Some
        } else if m.action@ == "im-busy"@ || m.action@ == "im-out"@ {
            m.clerk_id is Some
        } else {
            true
        }
    } else if m.from@ == "Client"@ {
        if intend_request_spec(m.action@) is Some {
            m.clerk_id is Some && m.client_id is Some
        } else {
            true
        }
    } else {
        true
    }
}

/// The command for a message.
pub open spec fn attend_command_spec(m: AttendMessage) -> AttendCommand {
    if m.from@ == "Clerk"@ {
        if let Some((kind, to)) = intend_answer_spec(m.action@) {
            advance_to(m.clerk_id->0, m.client_id->0, kind, to)
        } else if m.action@ == "im-in"@ {
            AttendCommand::ClerkOnline {
                clerk_id: m.clerk_id->0,
                chat: m.text->0,
                voice: m.voice->0,
                video: m.video->0,
            }
        } else if m.action@ == "im-busy"@ {
            AttendCommand::SetClerkStatus { clerk_id: m.clerk_id->0, status: Status::Oncall }
        } else if m.action@ == "im-out"@ {
            AttendCommand::SetClerkStatus { clerk_id: m.clerk_id->0, status: Status::Offline }
        } else {
            AttendCommand::Ignore
        }
    } else if m.from@ == "Client"@ {
        if m.action@ == "new-client-entered-thread"@ {
            AttendCommand::BroadcastStatuses
        } else if let Some(kind) = intend_request_spec(m.action@) {
            AttendCommand::OpenIntend { clerk_id: m.clerk_id->0, client_id: m.client_id->0, kind }
        } else {
            AttendCommand::Ignore
        }
    } else {
        AttendCommand::Ignore
    }
}

fn intend_answer(action: &str) -> (res: Option<(IntendKind, IntendStatus)>)
    ensures
        res == intend_answer_spec(action@),
{
    if text_eq(action, "voice-chat-acc") {
        Some((IntendKind::Voice, IntendStatus::Accepted))
    } else if text_eq(action, "voice-chat-received") {
        Some((IntendKind::Voice, IntendStatus::Received))
    } else if text_eq(action, "voice-chat-ref") {
        Some((IntendKind::Voice, IntendStatus::Refused))
    } else if text_eq(action, "text-chat-acc") {
        Some((IntendKind::Text, IntendStatus::Accepted))
    } else if text_eq(action, "text-chat-received") {
        Some((IntendKind::Text, IntendStatus::Received))
    } else if text_eq(action, "text-chat-ref") {
        Some((IntendKind::Text, IntendStatus::Refused))
    } else {
        None
    }
}

fn intend_request(action: &str) -> (res: Option<IntendKind>)
    ensures
        res == intend_request_spec(action@),
{
    if text_eq(action, "voice-chat-intend") {
        Some(IntendKind::Voice)
    } else if text_eq(action, "text-chat-intend") {
        Some(IntendKind::Text)
    } else {
        None
    }
}

/// Whether the message carries every field that its action uses; the
/// server stops on a message that does not.
pub fn attend_message_is_complete(m: &AttendMessage) -> (res: bool)
    ensures
        res == attend_message_complete(*m),
{
    let action = m.action.as_str();
    if text_eq(m.from.as_str(), "Clerk") {
        if intend_answer(action).is_some() {
            m.clerk_id.is_some() && m.client_id.is_some()
        } else if text_eq(action, "im-in") {
            m.clerk_id.is_some() && m.text.is_some() && m.voice.is_some() && m.video.is_some()
        } else if text_eq(action, "im-busy") || text_eq(action, "im-out") {
            m.clerk_id.is_some()
        } else {
            true
        }
    } else if text_eq(m.from.as_str(), "Client") {
        if intend_request(action).is_some() {
            m.clerk_id.is_some() && m.client_id.is_some()
        } else {
            true
        }
    } else {
        true
    }
}

/// The command for a message on the attendance socket.
pub fn attend_command(m: &AttendMessage) -> (cmd: AttendCommand)
    requires
        attend_message_complete(*m),
    ensures
        cmd == attend_command_spec(*m),
{
    let action = m.action.as_str();
    if text_eq(m.from.as_str(), "Clerk") {
        match intend_answer(action) {
            Some((kind, to)) => {
                let clerk_id = m.clerk_id.unwrap();
                let client_id = m.client_id.unwrap();
                if to == IntendStatus::Received {
                    AttendCommand::AdvanceIntends {
                        clerk_id,
                        client_id,
                        kind,
                        from: IntendStatus::Asked,
                        needs_received: false,
                        to,
                        stamp: IntendStamp::ReceivedTime,
                    }
                } else {
                    AttendCommand::AdvanceIntends {
                        clerk_id,
                        client_id,
                        kind,
                        from: IntendStatus::Received,
                        needs_received: true,
                        to,
                        stamp: IntendStamp::AnswerTime,
                    }
                }
            },
            None => {
                if text_eq(action, "im-in") {
                    AttendCommand::ClerkOnline {
                        clerk_id: m.clerk_id.unwrap(),
                        chat: m.text.unwrap(),
                        voice: m.voice.unwrap(),
                        video: m.video.unwrap(),
                    }
                } else if text_eq(action, "im-busy") {
                    AttendCommand::SetClerkStatus { clerk_id: m.clerk_id.unwrap(), status: Status::Oncall }
                } else if text_eq(action, "im-out") {
                    AttendCommand::SetClerkStatus { clerk_id: m.clerk_id.unwrap(), status: Status::Offline }
                } else {
                    AttendCommand::Ignore
                }
            },
        }
    } else if text_eq(m.from.as_str(), "Client") {
        if text_eq(action, "new-client-entered-thread") {
            AttendCommand::BroadcastStatuses
        } else {
            match intend_request(action) {
                Some(kind) => AttendCommand::OpenIntend {
                    clerk_id: m.clerk_id.unwrap(),
                    client_id: m.client_id.unwrap(),
                    kind,
                },
                None => AttendCommand::Ignore,
            }
        }
    } else {
        AttendCommand::Ignore
    }
}

/// A clerk's answer to a client's request moves that client's intends of
/// the named kind: `...-received` marks asked intends received, `...-acc`
/// accepts and `...-ref` refuses received ones. Whatever the clerk sends,
/// the command leads to a refusal exactly for the two `-ref` actions and
/// to an acceptance exactly for the two `-acc` actions.
pub proof fn lemma_clerk_answers_move_intends(m: AttendMessage)
    requires
        m.from@ == "Clerk"@,
        m.clerk_id is Some,
        m.client_id is Some,
    ensures
        ({
            let c = m.clerk_id->0;
            let k = m.client_id->0;
            let cmd = attend_command_spec(m);
            &&& m.action@ == "voice-chat-received"@ ==> cmd == AttendCommand::AdvanceIntends {
                clerk_id: c,
                client_id: k,
                kind: IntendKind::Voice,
                from: IntendStatus::Asked,
                needs_received: false,
                to: IntendStatus::Received,
                stamp: IntendStamp::ReceivedTime,
            }
            &&& m.action@ == "voice-chat-acc"@ ==> cmd == AttendCommand::AdvanceIntends {
                clerk_id: c,
                client_id: k,
                kind: IntendKind::Voice,
                from: IntendStatus::Received,
                needs_received: true,
                to: IntendStatus::Accepted,
                stamp: IntendStamp::AnswerTime,
            }
            &&& m.action@ == "voice-chat-ref"@ ==> cmd == AttendCommand::AdvanceIntends {
                clerk_id: c,
                client_id: k,
                kind: IntendKind::Voice,
                from: IntendStatus::Received,
                needs_received: true,
                to: IntendStatus::Refused,
                stamp: IntendStamp::AnswerTime,
            }
            &&& m.action@ == "text-chat-received"@ ==> cmd == AttendCommand::AdvanceIntends {
                clerk_id: c,
                client_id: k,
                kind: IntendKind::Text,
                from: IntendStatus::Asked,
                needs_received: false,
                to: IntendStatus::Received,
                stamp: IntendStamp::ReceivedTime,
            }
            &&& m.action@ == "text-chat-acc"@ ==> cmd == AttendCommand::AdvanceIntends {
                clerk_id: c,
                client_id: k,
                kind: IntendKind::Text,
                from: IntendStatus::Received,
                needs_received: true,
                to: IntendStatus::Accepted,
                stamp: IntendStamp::AnswerTime,
            }
            &&& m.action@ == "text-chat-ref"@ ==> cmd == AttendCommand::AdvanceIntends {
                clerk_id: c,
                client_id: k,
                kind: IntendKind::Text,
                from: IntendStatus::Received,
                needs_received: true,
                to: IntendStatus::Refused,
                stamp: IntendStamp::AnswerTime,
            }
            &&& (cmd matches AttendCommand::AdvanceIntends { to, .. } && to == IntendStatus::Refused)
                <==> (m.action@ == "voice-chat-ref"@ || m.action@ == "text-chat-ref"@)
            &&& (cmd matches AttendCommand::AdvanceIntends { to, .. } && to == IntendStatus::Accepted)
                <==> (m.action@ == "voice-chat-acc"@ || m.action@ == "text-chat-acc"@)
        }),
{
    reveal_strlit("Clerk");
    reveal_strlit("im-in");
    reveal_strlit("im-busy");
    reveal_strlit("im-out");
    reveal_strlit("voice-chat-acc");
    reveal_strlit("voice-chat-received");
    reveal_strlit("voice-chat-ref");
    reveal_strlit("text-chat-acc");
    reveal_strlit("text-chat-received");
    reveal_strlit("text-chat-ref");
    assert("voice-chat-acc"@[0] == 'v' && "voice-chat-received"@[0] == 'v' && "voice-chat-ref"@[0] == 'v');
    assert("text-chat-acc"@[0] == 't' && "text-chat-received"@[0] == 't' && "text-chat-ref"@[0] == 't');
    assert("voice-chat-acc"@[11] == 'a' && "voice-chat-ref"@[11] == 'r');
    assert("text-chat-acc"@[10] == 'a' && "text-chat-ref"@[10] == 'r');
    assert("voice-chat-acc"@.len() == 14 && "voice-chat-ref"@.len() == 14 && "voice-chat-received"@.len() == 19);
    assert("text-chat-acc"@.len() == 13 && "text-chat-ref"@.len() == 13 && "text-chat-received"@.len() == 18);
}

/// A client's `voice-chat-intend` opens a call request and its
/// `text-chat-intend` a chat request, from the client to the clerk the
/// message names; a client entering the page only has every clerk status
/// broadcast.
pub proof fn lemma_client_requests_open_intends(m: AttendMessage)
    requires
        m.from@ == "Client"@,
    ensures
        m.action@ == "voice-chat-intend"@ ==> attend_command_spec(m) == (AttendCommand::OpenIntend {
            clerk_id: m.clerk_id->0,
            client_id: m.client_id->0,
            kind: IntendKind::Voice,
        }),
        m.action@ == "text-chat-intend"@ ==> attend_command_spec(m) == (AttendCommand::OpenIntend {
            clerk_id: m.clerk_id->0,
            client_id: m.client_id->0,
            kind: IntendKind::Text,
        }),
        m.action@ == "new-client-entered-thread"@ ==> (attend_command_spec(m)
            == AttendCommand::BroadcastStatuses),
{
    reveal_strlit("Clerk");
    reveal_strlit("Client");
    reveal_strlit("voice-chat-intend");
    reveal_strlit("text-chat-intend");
    reveal_strlit("new-client-entered-thread");
    assert("Clerk"@[2] == 'e' && "Client"@[2] == 'i');
    assert("voice-chat-intend"@[0] == 'v' && "text-chat-intend"@[0] == 't' && "new-client-entered-thread"@[0]
        == 'n');
}

/// Which fields a message must carry: a clerk's answer to a request names
/// the clerk and the client, `im-in` the clerk and the three availabilities,
/// `im-busy` and `im-out` the clerk alone; a client's request for a chat or
/// a call names the clerk and the client; nothing else needs any field.
pub proof fn lemma_complete_messages(m: AttendMessage)
    ensures
        m.from@ == "Clerk"@ && (m.action@ == "voice-chat-acc"@ || m.action@ == "voice-chat-received"@
            || m.action@ == "voice-chat-ref"@ || m.action@ == "text-chat-acc"@ || m.action@
            == "text-chat-received"@ || m.action@ == "text-chat-ref"@) ==> (attend_message_complete(m)
            <==> m.clerk_id is Some && m.client_id is Some),
        m.from@ == "Clerk"@ && m.action@ == "im-in"@ ==> (attend_message_complete(m) <==> m.clerk_id is Some
            && m.text is Some && m.voice is Some && m.video is Some),
        m.from@ == "Clerk"@ && (m.action@ == "im-busy"@ || m.action@ == "im-out"@) ==> (
        attend_message_complete(m) <==> m.clerk_id is Some),
        m.from@ == "Client"@ && (m.action@ == "voice-chat-intend"@ || m.action@ == "text-chat-intend"@)
            ==> (attend_message_complete(m) <==> m.clerk_id is Some && m.client_id is Some),
        m.from@ != "Clerk"@ && m.from@ != "Client"@ ==> attend_message_complete(m),
        m.from@ == "Client"@ && m.action@ != "voice-chat-intend"@ && m.action@ != "text-chat-intend"@
            ==> attend_message_complete(m),
{
    reveal_strlit("Clerk");
    reveal_strlit("Client");
    reveal_strlit("im-in");
    reveal_strlit("im-busy");
    reveal_strlit("im-out");
    reveal_strlit("voice-chat-acc");
    reveal_strlit("voice-chat-received");
    reveal_strlit("voice-chat-ref");
    reveal_strlit("text-chat-acc");
    reveal_strlit("text-chat-received");
    reveal_strlit("text-chat-ref");
    reveal_strlit("voice-chat-intend");
    reveal_strlit("text-chat-intend");
    assert("voice-chat-acc"@[0] == 'v' && "voice-chat-received"@[0] == 'v' && "voice-chat-ref"@[0] == 'v');
    assert("text-chat-acc"@[0] == 't' && "text-chat-received"@[0] == 't' && "text-chat-ref"@[0] == 't');
    assert("im-in"@[0] == 'i' && "im-busy"@[0] == 'i' && "im-out"@[0] == 'i');
    assert("im-in"@[3] == 'i' && "im-busy"@[3] == 'b' && "im-out"@[3] == 'o');
    assert("Clerk"@[1] == 'l' && "Client"@[1] == 'l' && "Clerk"@[2] == 'e' && "Client"@[2] == 'i');
}

/// One stored intend, as far as its lifecycle goes: who, what kind, where
/// it stands, and whether its received and answer times are set.
pub struct IntendRow {
    pub clerk_id: i32,
    pub client_id: i32,
    pub kind: IntendKind,
    pub status: IntendStatus,
    pub received: bool,
    pub answered: bool,
}

/// An intend's times agree with its status: asked intends carry no time,
/// received ones a received time, answered ones both.
pub open spec fn intend_row_consistent(r: IntendRow) -> bool {
    match r.status {
        IntendStatus::Asked => !r.received && !r.answered,
        IntendStatus::Received => r.received && !r.answered,
        IntendStatus::Accepted | IntendStatus::Refused => r.received && r.answered,
    }
}

/// Whether the update of a command applies to a stored intend.
pub open spec fn intend_row_selected(cmd: AttendCommand, r: IntendRow) -> bool {
    match cmd {
        AttendCommand::AdvanceIntends { clerk_id, client_id, kind, from, needs_received, .. } => {
            &&& r.clerk_id == clerk_id
            &&& r.client_id == client_id
            &&& r.kind == kind
            &&& r.status == from
            &&& (needs_received ==> r.received)
        },
        _ => false,
    }
}

/// A stored intend after the command's update.
pub open spec fn intend_row_after(cmd: AttendCommand, r: IntendRow) -> IntendRow {
    match cmd {
        AttendCommand::AdvanceIntends { to, stamp, .. } => if intend_row_selected(cmd, r) {
            IntendRow {
                status: to,
                received: r.received || stamp == IntendStamp::ReceivedTime,
                answered: r.answered || stamp == IntendStamp::AnswerTime,
                ..r
            }
        } else {
            r
        },
        _ => r,
    }
}

/// The intend a command stores, if it opens one.
pub open spec fn intend_opened(cmd: AttendCommand) -> Option<IntendRow> {
    match cmd {
        AttendCommand::OpenIntend { clerk_id, client_id, kind } => Some(
            IntendRow {
                clerk_id,
                client_id,
                kind,
                status: IntendStatus::Asked,
                received: false,
                answered: false,
            },
        ),
        _ => None,
    }
}

/// Every message keeps each stored intend's times in agreement with its
/// status, and the intends that messages open start out that way.
pub proof fn lemma_attend_keeps_intends_consistent(m: AttendMessage, r: IntendRow)
    requires
        intend_row_consistent(r),
    ensures
        intend_row_consistent(intend_row_after(attend_command_spec(m), r)),
        intend_opened(attend_command_spec(m)) matches Some(n) ==> intend_row_consistent(n)
            && n.status == IntendStatus::Asked,
{
}

/// An intend never moves back: its status code never decreases, it is
/// only marked received when it was asked, and it is only accepted or
/// refused once it was received and carries a received time.
pub proof fn lemma_intends_only_move_forward(m: AttendMessage, r: IntendRow)
    ensures
        ({
            let n = intend_row_after(attend_command_spec(m), r);
            &&& intend_status_code(n.status) >= intend_status_code(r.status)
            &&& (n.status != r.status ==> {
                ||| (r.status == IntendStatus::Asked && n.status == IntendStatus::Received)
                ||| (r.status == IntendStatus::Received && r.received && (n.status
                    == IntendStatus::Accepted || n.status == IntendStatus::Refused))
            })
            &&& (n.clerk_id, n.client_id, n.kind) == (r.clerk_id, r.client_id, r.kind)
        }),
{
}

/// Only clerks move intends or change a clerk's status, and only for the
/// clerk the message names; only clients open intends, to the clerk and
/// from the client the message names.
pub proof fn lemma_commands_follow_sender(m: AttendMessage)
    requires
        attend_message_complete(m),
    ensures
        match attend_command_spec(m) {
            AttendCommand::AdvanceIntends { clerk_id, client_id, .. } => m.from@ == "Clerk"@
                && m.clerk_id == Some(clerk_id) && m.client_id == Some(client_id),
            AttendCommand::ClerkOnline { clerk_id, chat, voice, video } => m.from@ == "Clerk"@
                && m.clerk_id == Some(clerk_id) && m.text == Some(chat) && m.voice == Some(voice)
                && m.video == Some(video),
            AttendCommand::SetClerkStatus { clerk_id, status } => m.from@ == "Clerk"@ && m.clerk_id
                == Some(clerk_id) && status != Status::Online,
            AttendCommand::OpenIntend { clerk_id, client_id, .. } => m.from@ == "Client"@
                && m.clerk_id == Some(clerk_id) && m.client_id == Some(client_id),
            AttendCommand::BroadcastStatuses => m.from@ == "Client"@,
            AttendCommand::Ignore => true,
        },
{
    reveal_strlit("Clerk");
    reveal_strlit("Client");
}

/// A clerk's stored presence: the status code and the four availabilities.
#[derive(Clone, Copy, Debug, PartialEq, Eq, Structural)]
pub struct StatusRow {
    pub clerk_id: i32,
    pub status: i32,
    pub chat: bool,
    pub voice: bool,
    pub video: bool,
    pub mail: bool,
}

/// What a command writes to the presence row of one clerk.
#[derive(Clone, Copy, Debug, PartialEq, Eq, Structural)]
pub enum StatusWrite {
    /// The clerk is online: status, and chat, voice, video and mail availability.
    Online { clerk_id: i32, status: i32, chat: bool, voice: bool, video: bool, mail: bool },
    /// Only the status changes.
    StatusOnly { clerk_id: i32, status: i32 },
}

/// The presence write of a command, if it makes one: a clerk coming online
/// is stored online (1) with the availabilities the message gives and mail
/// always available; a busy or leaving clerk gets status 2 or 0 and keeps
/// the availabilities.
pub open spec fn status_write_spec(cmd: AttendCommand) -> Option<StatusWrite> {
    match cmd {
        AttendCommand::ClerkOnline { clerk_id, chat, voice, video } => Some(
            StatusWrite::Online {
                clerk_id,
                status: status_code_spec(Status::Online),
                chat,
                voice,
                video,
                mail: true,
            },
        ),
        AttendCommand::SetClerkStatus { clerk_id, status } => Some(
            StatusWrite::StatusOnly { clerk_id, status: status_code_spec(status) },
        ),
        _ => None,
    }
}

/// The presence write of a command.
pub fn status_write(cmd: AttendCommand) -> (res: Option<StatusWrite>)
    ensures
        res == status_write_spec(cmd),
{
    match cmd {
        AttendCommand::ClerkOnline { clerk_id, chat, voice, video } => Some(
            StatusWrite::Online { clerk_id, status: Status::Online.code(), chat, voice, video, mail: true },
        ),
        AttendCommand::SetClerkStatus { clerk_id, status } => Some(
            StatusWrite::StatusOnly { clerk_id, status: status.code() },
        ),
        _ => None,
    }
}

/// A stored presence row after the command's write; rows of other clerks stay.
pub open spec fn status_row_after(cmd: AttendCommand, r: StatusRow) -> StatusRow {
    match status_write_spec(cmd) {
        Some(StatusWrite::Online { clerk_id, status, chat, voice, video, mail }) => if clerk_id == r.clerk_id {
            StatusRow { clerk_id, status, chat, voice, video, mail }
        } else {
            r
        },
        Some(StatusWrite::StatusOnly { clerk_id, status }) => if clerk_id == r.clerk_id {
            StatusRow { status, ..r }
        } else {
            r
        },
        None => r,
    }
}

/// A clerk's `im-in` stores that clerk online (1) with the chat, voice and
/// video availabilities the message gives and mail available; `im-busy`
/// and `im-out` store 2 and 0 and keep the availabilities; no message
/// touches another clerk's row, and no client or unknown sender touches any.
pub proof fn lemma_presence_follows_clerk_messages(m: AttendMessage, r: StatusRow)
    requires
        attend_message_complete(m),
    ensures
        ({
            let n = status_row_after(attend_command_spec(m), r);
            &&& (m.from@ == "Clerk"@ && m.action@ == "im-in"@ && m.clerk_id == Some(r.clerk_id)) ==> n
                == StatusRow {
                clerk_id: r.clerk_id,
                status: 1,
                chat: m.text->0,
                voice: m.voice->0,
                video: m.video->0,
                mail: true,
            }
            &&& (m.from@ == "Clerk"@ && m.action@ == "im-busy"@ && m.clerk_id == Some(r.clerk_id)) ==> n
                == StatusRow { status: 2, ..r }
            &&& (m.from@ == "Clerk"@ && m.action@ == "im-out"@ && m.clerk_id == Some(r.clerk_id)) ==> n
                == StatusRow { status: 0, ..r }
            &&& m.clerk_id != Some(r.clerk_id) ==> n == r
            &&& m.from@ != "Clerk"@ ==> n == r
        }),
{
    reveal_strlit("Clerk");
    reveal_strlit("im-in");
    reveal_strlit("im-busy");
    reveal_strlit("im-out");
    reveal_strlit("voice-chat-acc");
    reveal_strlit("voice-chat-received");
    reveal_strlit("voice-chat-ref");
    reveal_strlit("text-chat-acc");
    reveal_strlit("text-chat-received");
    reveal_strlit("text-chat-ref");
    assert("voice-chat-acc"@[0] == 'v' && "voice-chat-received"@[0] == 'v' && "voice-chat-ref"@[0] == 'v');
    assert("text-chat-acc"@[0] == 't' && "text-chat-received"@[0] == 't' && "text-chat-ref"@[0] == 't');
    assert("im-in"@[0] == 'i' && "im-busy"@[0] == 'i' && "im-out"@[0] == 'i');
    assert("im-in"@[3] == 'i' && "im-busy"@[3] == 'b' && "im-out"@[3] == 'o');
}

/// The broadcast that lists every clerk status; `data` is the JSON array of statuses.
pub fn clerks_available_message(data: &str) -> (res: String)
    ensures
        res@ == "{\"action\":\"clerks-available\", \"data\":"@ + data@ + "}"@,
{
    let head = concatenate("{\"action\":\"clerks-available\", \"data\":", data);
    concatenate(head.as_str(), "}")
}

} // verus!
