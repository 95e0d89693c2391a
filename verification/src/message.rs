//! The closed vocabulary of the controller: log entries, remote events,
//! inbound messages (intents) and outbound effects, together with their
//! mathematical views.
//!
//! A live session is identified by a plain number.  The front end owns the
//! opaque transport handle and keys it by this identity; every asynchronous
//! outcome it feeds back carries the identity of the session it belongs to,
//! so that the controller can discard results of a session that is no
//! longer current.

use vstd::prelude::*;

verus! {

/// Identity of one pairing with a remote stranger.
pub type SessionId = u64;

/// One entry of the message log, in display order.
#[derive(Debug, Clone, PartialEq, Eq)]
pub enum ChatMessage {
    /// A message the local user sent.
    You(String),
    /// A message the remote stranger sent.
    Stranger(String),
    /// A human-readable notice produced by the controller itself.
    System(String),
}

/// Mathematical view of a log entry: the same tag over a sequence of chars.
#[verifier::ext_equal]
pub ghost enum LogEntryView {
    You(Seq<char>),
    Stranger(Seq<char>),
    System(Seq<char>),
}

impl DeepView for ChatMessage {
    type V = LogEntryView;

    open spec fn deep_view(&self) -> LogEntryView {
        match self {
            ChatMessage::You(s) => LogEntryView::You(s@),
            ChatMessage::Stranger(s) => LogEntryView::Stranger(s@),
            ChatMessage::System(s) => LogEntryView::System(s@),
        }
    }
}

/// One event fetched from the transport while a session is live.
#[derive(Debug, Clone, PartialEq, Eq)]
pub enum ChatEvent {
    /// The stranger sent a message.
    Message(String),
    /// The pairing server reports interests both sides listed.
    CommonLikes(Vec<String>),
    /// A stranger was found and the chat is established.
    Connected,
    /// The stranger ended the chat.
    StrangerDisconnected,
    /// The stranger started typing.
    Typing,
    /// The stranger stopped typing.
    StoppedTyping,
    /// Still looking for a stranger.
    Waiting,
    /// The service reported an error; the detail is not displayed verbatim.
    Error(String),
}

/// Mathematical view of a remote event.
#[verifier::ext_equal]
pub ghost enum ChatEventView {
    Message(Seq<char>),
    CommonLikes(Seq<Seq<char>>),
    Connected,
    StrangerDisconnected,
    Typing,
    StoppedTyping,
    Waiting,
    Error(Seq<char>),
}

impl DeepView for ChatEvent {
    type V = ChatEventView;

    open spec fn deep_view(&self) -> ChatEventView {
        match self {
            ChatEvent::Message(s) => ChatEventView::Message(s@),
            ChatEvent::CommonLikes(ls) => ChatEventView::CommonLikes(ls.deep_view()),
            ChatEvent::Connected => ChatEventView::Connected,
            ChatEvent::StrangerDisconnected => ChatEventView::StrangerDisconnected,
            ChatEvent::Typing => ChatEventView::Typing,
            ChatEvent::StoppedTyping => ChatEventView::StoppedTyping,
            ChatEvent::Waiting => ChatEventView::Waiting,
            ChatEvent::Error(s) => ChatEventView::Error(s@),
        }
    }
}

/// Local typing activity, as driven by the debounce policy.
#[derive(Debug, Clone, Copy, PartialEq, Eq)]
pub enum TypingState {
    /// Typing in progress; the payload is the time of the most recent
    /// keystroke, in milliseconds.
    Typing(u64),
    /// No recent keystroke activity.
    Idle,
}

/// One inbound message for the controller: a user action, a timer tick, or
/// the outcome of an asynchronous operation.
#[derive(Debug, Clone, PartialEq, Eq)]
pub enum AppMessage {
    /// The user edited the message draft.
    UpdateChatMessage(String),
    /// The user edited the comma-separated interests field.
    UpdateInterestString(String),
    /// A pairing attempt finished (`Some`), or a session was torn down and
    /// its teardown call completed (`None`).
    UpdateChat(Option<SessionId>),
    /// The poller fetched a batch of events for the given session.
    HandleChatEvent(SessionId, Vec<ChatEvent>),
    /// The user asked for a new chat.
    StartNewChat,
    /// The user submitted the draft.
    SendChat,
    /// The send of the given text on the given session completed.
    ChatSent(SessionId, String),
    /// The "begin remote typing" call on the given session completed.
    StartTyping(SessionId),
    /// The recurring debounce timer fired.
    CheckTyping,
    /// The "stop remote typing" call on the given session completed.
    StopTyping(SessionId),
    /// An asynchronous operation failed: on the given session if `Some`,
    /// during pairing if `None`.
    ErrorOccured(Option<SessionId>, String),
    /// The user asked to end the current chat.
    Disconnect,
}

/// Mathematical view of an inbound message.
#[verifier::ext_equal]
pub ghost enum AppMessageView {
    UpdateChatMessage(Seq<char>),
    UpdateInterestString(Seq<char>),
    UpdateChat(Option<SessionId>),
    HandleChatEvent(SessionId, Seq<ChatEventView>),
    StartNewChat,
    SendChat,
    ChatSent(SessionId, Seq<char>),
    StartTyping(SessionId),
    CheckTyping,
    StopTyping(SessionId),
    ErrorOccured(Option<SessionId>, Seq<char>),
    Disconnect,
}

impl DeepView for AppMessage {
    type V = AppMessageView;

    open spec fn deep_view(&self) -> AppMessageView {
        match self {
            AppMessage::UpdateChatMessage(s) => AppMessageView::UpdateChatMessage(s@),
            AppMessage::UpdateInterestString(s) => AppMessageView::UpdateInterestString(s@),
            AppMessage::UpdateChat(c) => AppMessageView::UpdateChat(*c),
            AppMessage::HandleChatEvent(sid, evs) => AppMessageView::HandleChatEvent(
                *sid,
                evs.deep_view(),
            ),
            AppMessage::StartNewChat => AppMessageView::StartNewChat,
            AppMessage::SendChat => AppMessageView::SendChat,
            AppMessage::ChatSent(sid, s) => AppMessageView::ChatSent(*sid, s@),
            AppMessage::StartTyping(sid) => AppMessageView::StartTyping(*sid),
            AppMessage::CheckTyping => AppMessageView::CheckTyping,
            AppMessage::StopTyping(sid) => AppMessageView::StopTyping(*sid),
            AppMessage::ErrorOccured(sid, s) => AppMessageView::ErrorOccured(*sid, s@),
            AppMessage::Disconnect => AppMessageView::Disconnect,
        }
    }
}

/// One asynchronous operation the controller asks the front end to run.
/// Every effect that works on a live session carries that session's
/// identity, so the outcome can be checked for staleness on arrival.
#[derive(Debug, Clone, PartialEq, Eq)]
pub enum AppEffect {
    /// Ask the pairing server for a stranger, with the given interests.
    StartChat(Vec<String>),
    /// Send the given text on the given session.
    SendMessage(SessionId, String),
    /// Tear the given session down on the server side.
    Disconnect(SessionId),
    /// Tell the stranger that the local user started typing.
    BeginTyping(SessionId),
    /// Tell the stranger that the local user stopped typing.
    EndTyping(SessionId),
    /// Fetch the next batch of remote events for the given session.
    PollEvents(SessionId),
}

/// Mathematical view of an effect.
#[verifier::ext_equal]
pub ghost enum AppEffectView {
    StartChat(Seq<Seq<char>>),
    SendMessage(SessionId, Seq<char>),
    Disconnect(SessionId),
    BeginTyping(SessionId),
    EndTyping(SessionId),
    PollEvents(SessionId),
}

impl DeepView for AppEffect {
    type V = AppEffectView;

    open spec fn deep_view(&self) -> AppEffectView {
        match self {
            AppEffect::StartChat(interests) => AppEffectView::StartChat(interests.deep_view()),
            AppEffect::SendMessage(sid, s) => AppEffectView::SendMessage(*sid, s@),
            AppEffect::Disconnect(sid) => AppEffectView::Disconnect(*sid),
            AppEffect::BeginTyping(sid) => AppEffectView::BeginTyping(*sid),
            AppEffect::EndTyping(sid) => AppEffectView::EndTyping(*sid),
            AppEffect::PollEvents(sid) => AppEffectView::PollEvents(*sid),
        }
    }
}

} // verus!
