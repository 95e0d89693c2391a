use icymegle::controller::Controller;
use icymegle::message::{AppEffect, AppMessage, ChatEvent, ChatMessage, TypingState};

fn connected_controller(sid: u64) -> Controller {
    let mut c = Controller::new();
    let effects = c.update(AppMessage::StartNewChat, 0);
    assert_eq!(effects, vec![AppEffect::StartChat(vec![])]);
    let effects = c.update(AppMessage::UpdateChat(Some(sid)), 0);
    assert_eq!(effects, vec![AppEffect::PollEvents(sid)]);
    c
}

#[test]
fn new_controller_is_empty() {
    let c = Controller::new();
    assert!(c.message_history().is_empty());
    assert_eq!(c.chat_message().as_str(), "");
    assert_eq!(c.chat_session(), None);
    assert!(!c.is_connected());
    assert!(!c.stranger_typing());
    assert!(matches!(c.you_typing(), TypingState::Idle));
    assert_eq!(c.interests_string().as_str(), "");
    assert!(c.interests().is_empty());
    assert!(!c.pairing_pending());
}

#[test]
fn end_to_end_scenario() {
    let mut c = Controller::new();
    assert!(!c.is_connected());

    let effects = c.update(AppMessage::StartNewChat, 0);
    assert_eq!(effects, vec![AppEffect::StartChat(vec![])]);
    assert!(c.pairing_pending());

    let effects = c.update(AppMessage::UpdateChat(Some(1)), 5);
    assert_eq!(effects, vec![AppEffect::PollEvents(1)]);
    assert!(c.is_connected());
    assert!(!c.pairing_pending());

    let effects = c.update(AppMessage::UpdateChatMessage("hey".to_string()), 10);
    assert_eq!(effects, vec![AppEffect::BeginTyping(1)]);
    assert_eq!(c.chat_message().as_str(), "hey");

    let effects = c.update(AppMessage::SendChat, 20);
    assert_eq!(effects, vec![AppEffect::SendMessage(1, "hey".to_string())]);
    assert_eq!(c.chat_message().as_str(), "");
    assert_eq!(
        c.message_history(),
        &vec![ChatMessage::You("hey".to_string())]
    );

    let effects = c.update(
        AppMessage::HandleChatEvent(1, vec![ChatEvent::Message("yo".to_string())]),
        30,
    );
    assert_eq!(effects, vec![AppEffect::PollEvents(1)]);
    assert_eq!(
        c.message_history(),
        &vec![
            ChatMessage::You("hey".to_string()),
            ChatMessage::Stranger("yo".to_string()),
        ]
    );

    let effects = c.update(AppMessage::Disconnect, 40);
    assert_eq!(effects, vec![AppEffect::Disconnect(1)]);
    assert!(!c.is_connected());
    assert_eq!(
        c.message_history(),
        &vec![
            ChatMessage::You("hey".to_string()),
            ChatMessage::Stranger("yo".to_string()),
            ChatMessage::System("You have disconnected".to_string()),
        ]
    );
}

#[test]
fn no_session_schedules_no_remote_calls() {
    let mut c = Controller::new();
    c.update(AppMessage::UpdateChatMessage("draft".to_string()), 0);
    let effects = c.update(AppMessage::SendChat, 1);
    assert!(effects.is_empty());
    let effects = c.update(AppMessage::UpdateChatMessage("more".to_string()), 2);
    assert!(effects.is_empty());
    let effects = c.update(AppMessage::CheckTyping, 10_000);
    assert!(effects.is_empty());
    let effects = c.update(AppMessage::Disconnect, 3);
    assert!(effects.is_empty());
    assert!(c.message_history().is_empty());
}

#[test]
fn typing_debounce_fires_once_per_burst() {
    let mut c = connected_controller(1);
    let mut begin_count = 0;
    for (i, text) in ["h", "he", "hey", "hey!"].iter().enumerate() {
        let effects = c.update(AppMessage::UpdateChatMessage(text.to_string()), i as u64);
        begin_count += effects
            .iter()
            .filter(|e| matches!(e, AppEffect::BeginTyping(_)))
            .count();
    }
    assert_eq!(begin_count, 1);
}

#[test]
fn typing_tick_fires_only_after_timeout() {
    let mut c = connected_controller(1);
    let effects = c.update(AppMessage::UpdateChatMessage("h".to_string()), 1000);
    assert_eq!(effects, vec![AppEffect::BeginTyping(1)]);

    // 4000 ms elapsed: not yet over the threshold.
    let effects = c.update(AppMessage::CheckTyping, 5000);
    assert!(effects.is_empty());

    // One more millisecond: the stop notification goes out, but the local
    // state flips to idle only on the acknowledgement.
    let effects = c.update(AppMessage::CheckTyping, 5001);
    assert_eq!(effects, vec![AppEffect::EndTyping(1)]);
    assert!(matches!(c.you_typing(), TypingState::Typing(_)));

    let effects = c.update(AppMessage::StopTyping(1), 5002);
    assert!(effects.is_empty());
    assert!(matches!(c.you_typing(), TypingState::Idle));

    // The next keystroke opens a new burst.
    let effects = c.update(AppMessage::UpdateChatMessage("hi".to_string()), 6000);
    assert_eq!(effects, vec![AppEffect::BeginTyping(1)]);
}

#[test]
fn keystroke_restamps_running_burst() {
    let mut c = connected_controller(1);
    c.update(AppMessage::UpdateChatMessage("h".to_string()), 0);
    // A later keystroke moves the burst's timestamp forward without
    // re-firing, so a tick 5000 ms after the first keystroke but only
    // 2000 ms after the second stays quiet.
    let effects = c.update(AppMessage::UpdateChatMessage("he".to_string()), 3000);
    assert!(effects.is_empty());
    let effects = c.update(AppMessage::CheckTyping, 5000);
    assert!(effects.is_empty());
}

#[test]
fn stale_results_are_rejected() {
    let mut c = connected_controller(1);
    c.update(AppMessage::Disconnect, 10);
    let effects = c.update(AppMessage::UpdateChat(Some(2)), 20);
    assert_eq!(effects, vec![AppEffect::PollEvents(2)]);
    let log_before = c.message_history().clone();

    // A batch fetched for the old session must not touch the new one.
    let effects = c.update(
        AppMessage::HandleChatEvent(1, vec![ChatEvent::Message("stale".to_string())]),
        30,
    );
    assert!(effects.is_empty());
    assert_eq!(c.message_history(), &log_before);

    // Late typing acknowledgements of the old session are dropped too.
    c.update(AppMessage::StartTyping(1), 40);
    assert!(matches!(c.you_typing(), TypingState::Idle));
    let effects = c.update(AppMessage::ErrorOccured(Some(1), "late".to_string()), 50);
    assert!(effects.is_empty());
    assert_eq!(c.message_history(), &log_before);
}

#[test]
fn batch_order_is_preserved() {
    let mut c = connected_controller(1);
    c.update(
        AppMessage::HandleChatEvent(
            1,
            vec![ChatEvent::Typing, ChatEvent::Message("hi".to_string())],
        ),
        10,
    );
    assert!(!c.stranger_typing());
    assert_eq!(
        c.message_history().last(),
        Some(&ChatMessage::Stranger("hi".to_string()))
    );

    let mut c = connected_controller(1);
    c.update(
        AppMessage::HandleChatEvent(
            1,
            vec![ChatEvent::Message("hi".to_string()), ChatEvent::Typing],
        ),
        10,
    );
    assert!(c.stranger_typing());
    assert_eq!(
        c.message_history().last(),
        Some(&ChatMessage::Stranger("hi".to_string()))
    );
}

#[test]
fn disconnect_twice_appends_one_notice() {
    let mut c = connected_controller(1);
    let effects = c.update(AppMessage::Disconnect, 10);
    assert_eq!(effects, vec![AppEffect::Disconnect(1)]);
    let effects = c.update(AppMessage::Disconnect, 11);
    assert!(effects.is_empty());
    let notices = c
        .message_history()
        .iter()
        .filter(|m| **m == ChatMessage::System("You have disconnected".to_string()))
        .count();
    assert_eq!(notices, 1);
}

#[test]
fn second_pairing_request_is_noop_while_outstanding() {
    let mut c = Controller::new();
    let effects = c.update(AppMessage::StartNewChat, 0);
    assert_eq!(effects.len(), 1);
    let effects = c.update(AppMessage::StartNewChat, 1);
    assert!(effects.is_empty());
    // A pairing failure frees the slot again.
    let effects = c.update(AppMessage::ErrorOccured(None, "no stranger found".to_string()), 2);
    assert!(effects.is_empty());
    assert_eq!(
        c.message_history().last(),
        Some(&ChatMessage::System("no stranger found".to_string()))
    );
    let effects = c.update(AppMessage::StartNewChat, 3);
    assert_eq!(effects, vec![AppEffect::StartChat(vec![])]);
}

#[test]
fn pairing_request_is_noop_while_connected() {
    let mut c = connected_controller(1);
    let effects = c.update(AppMessage::StartNewChat, 5);
    assert!(effects.is_empty());
}

#[test]
fn send_with_empty_draft_is_noop() {
    let mut c = connected_controller(1);
    let effects = c.update(AppMessage::SendChat, 5);
    assert!(effects.is_empty());
    assert!(c.message_history().is_empty());
}

#[test]
fn send_completion_changes_nothing() {
    let mut c = connected_controller(1);
    c.update(AppMessage::UpdateChatMessage("hey".to_string()), 1);
    c.update(AppMessage::SendChat, 2);
    let log_before = c.message_history().clone();
    let effects = c.update(AppMessage::ChatSent(1, "hey".to_string()), 3);
    assert!(effects.is_empty());
    assert_eq!(c.message_history(), &log_before);
}

#[test]
fn stranger_disconnect_tears_session_down() {
    let mut c = connected_controller(1);
    c.update(AppMessage::UpdateChatMessage("h".to_string()), 1);
    let effects = c.update(
        AppMessage::HandleChatEvent(
            1,
            vec![
                ChatEvent::Message("bye".to_string()),
                ChatEvent::StrangerDisconnected,
            ],
        ),
        10,
    );
    // The session was torn down by the batch: no further poll is issued.
    assert!(effects.is_empty());
    assert!(!c.is_connected());
    assert!(!c.stranger_typing());
    assert!(matches!(c.you_typing(), TypingState::Idle));
    assert_eq!(
        c.message_history(),
        &vec![
            ChatMessage::Stranger("bye".to_string()),
            ChatMessage::System("Stranger has disconnected".to_string()),
        ]
    );
}

#[test]
fn session_closed_is_idempotent() {
    let mut c = connected_controller(1);
    c.update(AppMessage::Disconnect, 1);
    let log_before = c.message_history().clone();
    let effects = c.update(AppMessage::UpdateChat(None), 2);
    assert!(effects.is_empty());
    assert!(!c.is_connected());
    assert_eq!(c.message_history(), &log_before);
}

#[test]
fn remote_event_notices() {
    let mut c = connected_controller(1);
    c.update(
        AppMessage::HandleChatEvent(
            1,
            vec![
                ChatEvent::Waiting,
                ChatEvent::Connected,
                ChatEvent::Error("http 500".to_string()),
            ],
        ),
        10,
    );
    assert_eq!(
        c.message_history(),
        &vec![
            ChatMessage::System("Looking for stranger".to_string()),
            ChatMessage::System("Connected to stranger".to_string()),
            ChatMessage::System("Omegle error occured".to_string()),
        ]
    );
}

#[test]
fn empty_batch_keeps_polling() {
    let mut c = connected_controller(1);
    let effects = c.update(AppMessage::HandleChatEvent(1, vec![]), 10);
    assert_eq!(effects, vec![AppEffect::PollEvents(1)]);
    assert!(c.message_history().is_empty());
}

#[test]
fn poll_failure_surfaces_and_stops_polling() {
    let mut c = connected_controller(1);
    let effects = c.update(
        AppMessage::ErrorOccured(Some(1), "transport failure".to_string()),
        10,
    );
    // The failure becomes a log entry and no further poll is scheduled;
    // the user must disconnect and pair again.
    assert!(effects.is_empty());
    assert_eq!(
        c.message_history(),
        &vec![ChatMessage::System("transport failure".to_string())]
    );
    assert!(c.is_connected());
}

#[test]
fn stranger_typing_flag_follows_events() {
    let mut c = connected_controller(1);
    c.update(AppMessage::HandleChatEvent(1, vec![ChatEvent::Typing]), 1);
    assert!(c.stranger_typing());
    c.update(
        AppMessage::HandleChatEvent(1, vec![ChatEvent::StoppedTyping]),
        2,
    );
    assert!(!c.stranger_typing());
    c.update(AppMessage::HandleChatEvent(1, vec![ChatEvent::Typing]), 3);
    assert!(c.stranger_typing());
    c.update(AppMessage::Disconnect, 4);
    assert!(!c.stranger_typing());
}
