use templo::chat::voice_minutes_after_minute;
use templo::attend::{
    attend_command, attend_message_is_complete, clerks_available_message, AttendCommand,
    AttendMessage, IntendKind, IntendStamp, IntendStatus,
};
use templo::chat::{call_view, chat_line, chat_view, ChatSocketMessage};
use templo::status::{ClerkTimeEventType, Status};

fn msg(from: &str, action: &str, clerk: Option<i32>, client: Option<i32>) -> AttendMessage {
    AttendMessage {
        action: action.to_string(),
        clerk_id: clerk,
        client_id: client,
        data: None,
        voice: None,
        text: None,
        video: None,
        from: from.to_string(),
    }
}

#[test]
fn clerk_answers_move_intends() {
    let m = msg("Clerk", "voice-chat-received", Some(2), Some(9));
    assert!(attend_message_is_complete(&m));
    assert_eq!(
        attend_command(&m),
        AttendCommand::AdvanceIntends {
            clerk_id: 2,
            client_id: 9,
            kind: IntendKind::Voice,
            from: IntendStatus::Asked,
            needs_received: false,
            to: IntendStatus::Received,
            stamp: IntendStamp::ReceivedTime,
        }
    );
    let m = msg("Clerk", "text-chat-acc", Some(2), Some(9));
    assert_eq!(
        attend_command(&m),
        AttendCommand::AdvanceIntends {
            clerk_id: 2,
            client_id: 9,
            kind: IntendKind::Text,
            from: IntendStatus::Received,
            needs_received: true,
            to: IntendStatus::Accepted,
            stamp: IntendStamp::AnswerTime,
        }
    );
    let m = msg("Clerk", "voice-chat-ref", Some(3), Some(4));
    assert_eq!(
        attend_command(&m),
        AttendCommand::AdvanceIntends {
            clerk_id: 3,
            client_id: 4,
            kind: IntendKind::Voice,
            from: IntendStatus::Received,
            needs_received: true,
            to: IntendStatus::Refused,
            stamp: IntendStamp::AnswerTime,
        }
    );
}

#[test]
fn clerk_presence() {
    let mut m = msg("Clerk", "im-in", Some(5), None);
    assert!(!attend_message_is_complete(&m));
    m.text = Some(true);
    m.voice = Some(false);
    m.video = Some(true);
    assert!(attend_message_is_complete(&m));
    assert_eq!(
        attend_command(&m),
        AttendCommand::ClerkOnline { clerk_id: 5, chat: true, voice: false, video: true }
    );
    let m = msg("Clerk", "im-busy", Some(5), None);
    assert_eq!(attend_command(&m), AttendCommand::SetClerkStatus { clerk_id: 5, status: Status::Oncall });
    let m = msg("Clerk", "im-out", Some(5), None);
    assert_eq!(attend_command(&m), AttendCommand::SetClerkStatus { clerk_id: 5, status: Status::Offline });
    assert!(!attend_message_is_complete(&msg("Clerk", "im-out", None, None)));
}

#[test]
fn client_requests() {
    let m = msg("Client", "text-chat-intend", Some(2), Some(9));
    assert_eq!(
        attend_command(&m),
        AttendCommand::OpenIntend { clerk_id: 2, client_id: 9, kind: IntendKind::Text }
    );
    let m = msg("Client", "voice-chat-intend", Some(2), Some(9));
    assert_eq!(
        attend_command(&m),
        AttendCommand::OpenIntend { clerk_id: 2, client_id: 9, kind: IntendKind::Voice }
    );
    assert!(!attend_message_is_complete(&msg("Client", "voice-chat-intend", Some(2), None)));
    let m = msg("Client", "new-client-entered-thread", None, None);
    assert!(attend_message_is_complete(&m));
    assert_eq!(attend_command(&m), AttendCommand::BroadcastStatuses);
}

#[test]
fn unknown_messages_are_ignored() {
    for m in [
        msg("Clerk", "dance", None, None),
        msg("Client", "im-in", None, None),
        msg("Client", "text-chat-acc", None, None),
        msg("Administrative", "im-in", Some(1), Some(1)),
        msg("Clerk", "text-chat-intend", Some(1), Some(1)),
    ] {
        assert!(attend_message_is_complete(&m));
        assert_eq!(attend_command(&m), AttendCommand::Ignore);
    }
}

#[test]
fn intend_and_status_codes() {
    assert_eq!(IntendKind::Voice.code(), 0);
    assert_eq!(IntendKind::Text.code(), 1);
    assert_eq!(IntendStatus::Asked.code(), 0);
    assert_eq!(IntendStatus::Received.code(), 1);
    assert_eq!(IntendStatus::Accepted.code(), 2);
    assert_eq!(IntendStatus::Refused.code(), 3);
    assert_eq!(Status::Offline.code(), 0);
    assert_eq!(Status::Online.code(), 1);
    assert_eq!(Status::Oncall.code(), 2);
    assert_eq!(ClerkTimeEventType::Gone.code(), 0);
    assert_eq!(ClerkTimeEventType::GoneForTextChat.code(), 3);
    assert_eq!(ClerkTimeEventType::BackFromVoiceChatt.code(), 6);
}

#[test]
fn statuses_broadcast() {
    assert_eq!(
        clerks_available_message("[1,2]"),
        "{\"action\":\"clerks-available\", \"data\":[1,2]}"
    );
}

#[test]
fn chat_history_keeps_messages_only() {
    let m = ChatSocketMessage {
        from: 3,
        to: 4,
        chat_id: 10,
        action: "message".to_string(),
        message: Some("olá".to_string()),
        transaction: None,
    };
    let l = chat_line(m).unwrap();
    assert_eq!((l.chat_msg_user_id, l.chat_id), (3, 10));
    assert_eq!(l.chat_msg_body.as_deref(), Some("olá"));
    let m = ChatSocketMessage {
        from: 3,
        to: 4,
        chat_id: 10,
        action: "leave".to_string(),
        message: None,
        transaction: None,
    };
    assert!(chat_line(m).is_none());
}

#[test]
fn conversation_pages() {
    let v = chat_view(2, 30, 40);
    assert_eq!((v.template.as_str(), v.other_party), ("home/chat_clerk", 30));
    let v = chat_view(1, 30, 40);
    assert_eq!((v.template.as_str(), v.other_party), ("home/chat_user", 40));
    let v = call_view(3, 30, 40);
    assert_eq!((v.template.as_str(), v.other_party), ("home/voip-clerk", 30));
    let v = call_view(1, 30, 40);
    assert_eq!((v.template.as_str(), v.other_party), ("home/voip-user", 40));
}

#[test]
fn voice_line_minutes() {
    assert_eq!(voice_minutes_after_minute(10), 9);
    assert_eq!(voice_minutes_after_minute(0), -1);
    assert_eq!(voice_minutes_after_minute(i32::MAX), i32::MAX - 1);
}
