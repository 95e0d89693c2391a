//! The session controller: the single authoritative holder of the chat
//! state.
//!
//! The controller consumes one [`AppMessage`] at a time, updates its state
//! synchronously, and returns the asynchronous operations to run as
//! [`AppEffect`] values.  Effects complete asynchronously and re-enter as
//! new messages, each tagged with the identity of the session it belongs
//! to; a result whose session is no longer current is discarded without
//! touching the state.
//!
//! [`spec_update_state`] and [`spec_update_effects`] are the mathematical
//! statement of the whole transition table; [`Controller::update`] is
//! proved to follow them exactly.

use vstd::prelude::*;
use vstd::string::*;

use crate::interests::{parse_interests, spec_interests};
use crate::message::{
    AppEffect, AppEffectView, AppMessage, AppMessageView, ChatEvent, ChatEventView, ChatMessage,
    LogEntryView, SessionId, TypingState,
};
use crate::notices::{common_likes_notice, common_likes_text};

verus! {

/// A typing burst ends when this many milliseconds pass after the last
/// keystroke without a new one.
pub const TYPING_TIMEOUT_MS: u64 = 4000;

/// Mathematical view of the controller state.
#[verifier::ext_equal]
pub ghost struct ControllerView {
    /// The message draft under the input field.
    pub draft: Seq<char>,
    /// The message log, in display order, append-only.
    pub log: Seq<LogEntryView>,
    /// The identity of the live session, if any.
    pub session: Option<SessionId>,
    /// Whether the stranger is currently typing.
    pub stranger_typing: bool,
    /// The local typing activity.
    pub you_typing: TypingState,
    /// The raw interests text as the user typed it.
    pub interests_text: Seq<char>,
    /// The interests list the raw text denotes.
    pub interests: Seq<Seq<char>>,
    /// Whether a pairing request is outstanding.  At most one is permitted:
    /// while it is outstanding, a further pairing request is a no-op.
    pub pairing_pending: bool,
}

impl ControllerView {
    /// Well-formedness: the stored interests list is the one the raw text
    /// denotes; local typing and an outstanding pairing can only exist on
    /// the right side of the session lifecycle.
    pub open spec fn wf(self) -> bool {
        &&& self.interests == spec_interests(self.interests_text)
        &&& (self.session is None ==> self.you_typing is Idle)
        &&& (self.pairing_pending ==> self.session is None)
    }
}

/// The state after one remote event is processed.
pub open spec fn spec_apply_event(s: ControllerView, ev: ChatEventView) -> ControllerView {
    match ev {
        ChatEventView::Message(m) => ControllerView {
            log: s.log.push(LogEntryView::Stranger(m)),
            stranger_typing: false,
            ..s
        },
        ChatEventView::CommonLikes(ls) => ControllerView {
            log: s.log.push(LogEntryView::System(common_likes_text(ls))),
            ..s
        },
        ChatEventView::Connected => ControllerView {
            log: s.log.push(LogEntryView::System("Connected to stranger"@)),
            ..s
        },
        ChatEventView::StrangerDisconnected => ControllerView {
            log: s.log.push(LogEntryView::System("Stranger has disconnected"@)),
            session: None,
            you_typing: TypingState::Idle,
            stranger_typing: false,
            ..s
        },
        ChatEventView::Typing => ControllerView { stranger_typing: true, ..s },
        ChatEventView::StoppedTyping => ControllerView { stranger_typing: false, ..s },
        ChatEventView::Waiting => ControllerView {
            log: s.log.push(LogEntryView::System("Looking for stranger"@)),
            ..s
        },
        ChatEventView::Error(_) => ControllerView {
            log: s.log.push(LogEntryView::System("Omegle error occured"@)),
            ..s
        },
    }
}

/// The state after a whole batch of remote events is processed, in
/// delivery order.
pub open spec fn spec_apply_events(s: ControllerView, evs: Seq<ChatEventView>) -> ControllerView
    decreases evs.len(),
{
    if evs.len() == 0 {
        s
    } else {
        spec_apply_events(spec_apply_event(s, evs.first()), evs.drop_first())
    }
}

/// The state after the controller consumes `m` at time `now` (in
/// milliseconds).
pub open spec fn spec_update_state(s: ControllerView, m: AppMessageView, now: u64) -> ControllerView {
    match m {
        AppMessageView::UpdateChatMessage(t) => {
            if s.session is Some {
                ControllerView { draft: t, you_typing: TypingState::Typing(now), ..s }
            } else {
                ControllerView { draft: t, ..s }
            }
        },
        AppMessageView::UpdateInterestString(t) => ControllerView {
            interests_text: t,
            interests: spec_interests(t),
            ..s
        },
        AppMessageView::UpdateChat(c) => {
            match c {
                Some(sid) => ControllerView {
                    session: Some(sid),
                    you_typing: TypingState::Idle,
                    stranger_typing: false,
                    pairing_pending: false,
                    ..s
                },
                None => ControllerView {
                    session: None,
                    you_typing: TypingState::Idle,
                    stranger_typing: false,
                    ..s
                },
            }
        },
        AppMessageView::HandleChatEvent(sid, evs) => {
            if s.session == Some(sid) {
                spec_apply_events(s, evs)
            } else {
                s
            }
        },
        AppMessageView::StartNewChat => {
            if s.session is None && !s.pairing_pending {
                ControllerView { pairing_pending: true, ..s }
            } else {
                s
            }
        },
        AppMessageView::SendChat => {
            if s.session is Some && s.draft.len() > 0 {
                ControllerView {
                    draft: Seq::<char>::empty(),
                    log: s.log.push(LogEntryView::You(s.draft)),
                    ..s
                }
            } else {
                s
            }
        },
        AppMessageView::ChatSent(_, _) => s,
        AppMessageView::StartTyping(sid) => {
            if s.session == Some(sid) {
                ControllerView { you_typing: TypingState::Typing(now), ..s }
            } else {
                s
            }
        },
        AppMessageView::CheckTyping => s,
        AppMessageView::StopTyping(sid) => {
            if s.session == Some(sid) {
                ControllerView { you_typing: TypingState::Idle, ..s }
            } else {
                s
            }
        },
        AppMessageView::ErrorOccured(tag, reason) => {
            match tag {
                None => ControllerView {
                    log: s.log.push(LogEntryView::System(reason)),
                    pairing_pending: false,
                    ..s
                },
                Some(sid) => {
                    if s.session == Some(sid) {
                        ControllerView { log: s.log.push(LogEntryView::System(reason)), ..s }
                    } else {
                        s
                    }
                },
            }
        },
        AppMessageView::Disconnect => {
            match s.session {
                Some(_) => ControllerView {
                    log: s.log.push(LogEntryView::System("You have disconnected"@)),
                    session: None,
                    you_typing: TypingState::Idle,
                    stranger_typing: false,
                    ..s
                },
                None => s,
            }
        },
    }
}

/// The effects the controller schedules when it consumes `m` at time `now`.
pub open spec fn spec_update_effects(s: ControllerView, m: AppMessageView, now: u64) -> Seq<
    AppEffectView,
> {
    match m {
        AppMessageView::UpdateChatMessage(_) => {
            match s.session {
                Some(sid) => {
                    if s.you_typing is Idle {
                        seq![AppEffectView::BeginTyping(sid)]
                    } else {
                        Seq::<AppEffectView>::empty()
                    }
                },
                None => Seq::<AppEffectView>::empty(),
            }
        },
        AppMessageView::UpdateChat(c) => {
            match c {
                Some(sid) => seq![AppEffectView::PollEvents(sid)],
                None => Seq::<AppEffectView>::empty(),
            }
        },
        AppMessageView::HandleChatEvent(sid, evs) => {
            if s.session == Some(sid) {
                match spec_apply_events(s, evs).session {
                    Some(cur) => seq![AppEffectView::PollEvents(cur)],
                    None => Seq::<AppEffectView>::empty(),
                }
            } else {
                Seq::<AppEffectView>::empty()
            }
        },
        AppMessageView::StartNewChat => {
            if s.session is None && !s.pairing_pending {
                seq![AppEffectView::StartChat(s.interests)]
            } else {
                Seq::<AppEffectView>::empty()
            }
        },
        AppMessageView::SendChat => {
            match s.session {
                Some(sid) => {
                    if s.draft.len() > 0 {
                        seq![AppEffectView::SendMessage(sid, s.draft)]
                    } else {
                        Seq::<AppEffectView>::empty()
                    }
                },
                None => Seq::<AppEffectView>::empty(),
            }
        },
        AppMessageView::CheckTyping => {
            match (s.session, s.you_typing) {
                (Some(sid), TypingState::Typing(since)) => {
                    if since + TYPING_TIMEOUT_MS < now {
                        seq![AppEffectView::EndTyping(sid)]
                    } else {
                        Seq::<AppEffectView>::empty()
                    }
                },
                _ => Seq::<AppEffectView>::empty(),
            }
        },
        AppMessageView::Disconnect => {
            match s.session {
                Some(sid) => seq![AppEffectView::Disconnect(sid)],
                None => Seq::<AppEffectView>::empty(),
            }
        },
        _ => Seq::<AppEffectView>::empty(),
    }
}

/// Processing one remote event cannot install a session: it keeps the
/// current one or tears it down, and it keeps the state well formed.
pub proof fn lemma_apply_event_wf(s: ControllerView, ev: ChatEventView)
    requires
        s.wf(),
    ensures
        spec_apply_event(s, ev).wf(),
        spec_apply_event(s, ev).session == s.session || spec_apply_event(s, ev).session is None,
{
}

/// Batch processing preserves well-formedness and cannot install a
/// session.
pub proof fn lemma_apply_events_wf(s: ControllerView, evs: Seq<ChatEventView>)
    requires
        s.wf(),
    ensures
        spec_apply_events(s, evs).wf(),
        spec_apply_events(s, evs).session == s.session || spec_apply_events(s, evs).session is None,
    decreases evs.len(),
{
    if evs.len() > 0 {
        lemma_apply_event_wf(s, evs.first());
        lemma_apply_events_wf(spec_apply_event(s, evs.first()), evs.drop_first());
    }
}

/// One consumed message keeps the state well formed.
pub proof fn lemma_update_preserves_wf(s: ControllerView, m: AppMessageView, now: u64)
    requires
        s.wf(),
    ensures
        spec_update_state(s, m, now).wf(),
{
    match m {
        AppMessageView::HandleChatEvent(sid, evs) => {
            if s.session == Some(sid) {
                lemma_apply_events_wf(s, evs);
            }
        },
        _ => {},
    }
}

/// Processing a prefix of a batch one event further: the next event is
/// applied to the state the prefix produced.
pub proof fn lemma_apply_events_take_step(s: ControllerView, evs: Seq<ChatEventView>, k: int)
    requires
        0 <= k < evs.len(),
    ensures
        spec_apply_events(s, evs.take(k + 1)) == spec_apply_event(
            spec_apply_events(s, evs.take(k)),
            evs[k],
        ),
    decreases k,
{
    if k == 0 {
        assert(evs.take(1).first() == evs[0]);
        assert(evs.take(1).drop_first() =~= Seq::<ChatEventView>::empty());
        assert(evs.take(0) =~= Seq::<ChatEventView>::empty());
        assert(spec_apply_events(s, evs.take(0)) == s);
        assert(spec_apply_events(spec_apply_event(s, evs[0]), evs.take(1).drop_first())
            == spec_apply_event(s, evs[0]));
        assert(spec_apply_events(s, evs.take(1)) == spec_apply_event(s, evs[0]));
    } else {
        let s1 = spec_apply_event(s, evs[0]);
        let d = evs.drop_first();
        lemma_apply_events_take_step(s1, d, k - 1);
        assert(evs.take(k + 1).first() == evs[0]);
        assert(evs.take(k + 1).drop_first() =~= d.take(k));
        assert(spec_apply_events(s, evs.take(k + 1)) == spec_apply_events(
            s1,
            evs.take(k + 1).drop_first(),
        ));
        assert(spec_apply_events(s, evs.take(k + 1)) == spec_apply_events(s1, d.take(k)));
        assert(evs.take(k).first() == evs[0]);
        assert(evs.take(k).drop_first() =~= d.take(k - 1));
        assert(spec_apply_events(s, evs.take(k)) == spec_apply_events(s1, d.take(k - 1)));
        assert(d[k - 1] == evs[k]);
    }
}

/// The state a fresh controller starts in: no session, empty log, empty
/// draft, no typing activity on either side, no interests, no pairing
/// outstanding.
pub open spec fn spec_initial() -> ControllerView {
    ControllerView {
        draft: Seq::<char>::empty(),
        log: Seq::<LogEntryView>::empty(),
        session: None,
        stranger_typing: false,
        you_typing: TypingState::Idle,
        interests_text: Seq::<char>::empty(),
        interests: Seq::<Seq<char>>::empty(),
        pairing_pending: false,
    }
}

/// The empty interests text denotes the empty interests list.
pub proof fn lemma_interests_of_empty_text()
    ensures
        spec_interests(Seq::<char>::empty()) =~= Seq::<Seq<char>>::empty(),
{
    let e = Seq::<char>::empty();
    crate::interests::lemma_split_commas_no_comma(e);
    assert(crate::interests::split_commas(e) == seq![e]);
    assert(seq![e].first() == e);
    assert(crate::interests::trim_start(e) == e);
    assert(crate::interests::trim_end(e) == e);
    assert(crate::interests::cleaned_token(e) =~= Seq::<Seq<char>>::empty());
    assert(seq![e].drop_first() =~= Seq::<Seq<char>>::empty());
    assert(crate::interests::cleaned_tokens(Seq::<Seq<char>>::empty()) =~= Seq::<
        Seq<char>,
    >::empty());
}

/// The session controller: the one owner of the chat state.  All state
/// changes go through [`Controller::update`]; the presentation layer only
/// reads the snapshot the getters expose.
pub struct Controller {
    chat_message: String,
    message_history: Vec<ChatMessage>,
    chat_session: Option<SessionId>,
    stranger_typing: bool,
    you_typing: TypingState,
    interests_string: String,
    interests: Vec<String>,
    pairing_pending: bool,
}

impl View for Controller {
    type V = ControllerView;

    closed spec fn view(&self) -> ControllerView {
        ControllerView {
            draft: self.chat_message@,
            log: self.message_history.deep_view(),
            session: self.chat_session,
            stranger_typing: self.stranger_typing,
            you_typing: self.you_typing,
            interests_text: self.interests_string@,
            interests: self.interests.deep_view(),
            pairing_pending: self.pairing_pending,
        }
    }
}

/// A copy of the interests list, value for value.
fn clone_interests(v: &Vec<String>) -> (r: Vec<String>)
    ensures
        r.deep_view() == v.deep_view(),
{
    let r = v.clone();
    proof {
        assert forall|j: int| 0 <= j < v.deep_view().len() implies r.deep_view()[j]
            == v.deep_view()[j] by {
            assert(vstd::pervasive::cloned::<String>(v[j], r[j]));
            assert(r@[j] == v@[j]);
        }
        assert(r.deep_view() =~= v.deep_view());
    }
    r
}

impl Controller {
    /// A fresh controller, in the initial state.
    pub fn new() -> (c: Controller)
        ensures
            c@ == spec_initial(),
            c@.wf(),
    {
        let c = Controller {
            chat_message: String::new(),
            message_history: Vec::new(),
            chat_session: None,
            stranger_typing: false,
            you_typing: TypingState::Idle,
            interests_string: String::new(),
            interests: Vec::new(),
            pairing_pending: false,
        };
        proof {
            lemma_interests_of_empty_text();
            assert(c@ =~= spec_initial());
        }
        c
    }

    /// Applies one remote event to the state, as the batch table says.
    fn apply_event(&mut self, ev: &ChatEvent)
        ensures
            final(self)@ == spec_apply_event(old(self)@, ev.deep_view()),
    {
        match ev {
            ChatEvent::Message(m) => {
                self.message_history.push(ChatMessage::Stranger(m.clone()));
                self.stranger_typing = false;
            },
            ChatEvent::CommonLikes(ls) => {
                let text = common_likes_notice(ls);
                self.message_history.push(ChatMessage::System(text));
            },
            ChatEvent::Connected => {
                self.message_history.push(
                    ChatMessage::System("Connected to stranger".to_owned()),
                );
            },
            ChatEvent::StrangerDisconnected => {
                self.message_history.push(
                    ChatMessage::System("Stranger has disconnected".to_owned()),
                );
                self.chat_session = None;
                self.you_typing = TypingState::Idle;
                self.stranger_typing = false;
            },
            ChatEvent::Typing => {
                self.stranger_typing = true;
            },
            ChatEvent::StoppedTyping => {
                self.stranger_typing = false;
            },
            ChatEvent::Waiting => {
                self.message_history.push(
                    ChatMessage::System("Looking for stranger".to_owned()),
                );
            },
            ChatEvent::Error(_) => {
                self.message_history.push(
                    ChatMessage::System("Omegle error occured".to_owned()),
                );
            },
        }
        proof {
            assert(self@ =~= spec_apply_event(old(self)@, ev.deep_view()));
        }
    }

    /// Consumes one message at time `now_ms` (milliseconds), updates the
    /// state as [`spec_update_state`] says, and returns exactly the
    /// effects [`spec_update_effects`] says, in that order.
    pub fn update(&mut self, message: AppMessage, now_ms: u64) -> (effects: Vec<AppEffect>)
        requires
            old(self)@.wf(),
        ensures
            final(self)@ == spec_update_state(old(self)@, message.deep_view(), now_ms),
            effects.deep_view() == spec_update_effects(old(self)@, message.deep_view(), now_ms),
            final(self)@.wf(),
    {
        let ghost s0 = self@;
        let ghost mv = message.deep_view();
        proof {
            lemma_update_preserves_wf(s0, mv, now_ms);
        }
        let mut effects: Vec<AppEffect> = Vec::new();
        match message {
            AppMessage::UpdateChatMessage(t) => {
                self.chat_message = t;
                match self.chat_session {
                    Some(sid) => {
                        match self.you_typing {
                            TypingState::Idle => {
                                effects.push(AppEffect::BeginTyping(sid));
                            },
                            TypingState::Typing(_) => {},
                        }
                        self.you_typing = TypingState::Typing(now_ms);
                    },
                    None => {},
                }
            },
            AppMessage::UpdateInterestString(t) => {
                self.interests = parse_interests(t.as_str());
                self.interests_string = t;
            },
            AppMessage::UpdateChat(c) => {
                self.chat_session = c;
                self.you_typing = TypingState::Idle;
                self.stranger_typing = false;
                match c {
                    Some(sid) => {
                        self.pairing_pending = false;
                        effects.push(AppEffect::PollEvents(sid));
                    },
                    None => {},
                }
            },
            AppMessage::HandleChatEvent(sid, events) => {
                let stale = match self.chat_session {
                    Some(cur) => cur != sid,
                    None => true,
                };
                if !stale {
                    let ghost evs = events.deep_view();
                    let mut k: usize = 0;
                    proof {
                        assert(evs.take(0) =~= Seq::<ChatEventView>::empty());
                    }
                    while k < events.len()
                        invariant
                            k <= events.len(),
                            evs == events.deep_view(),
                            self@ == spec_apply_events(s0, evs.take(k as int)),
                        decreases events.len() - k,
                    {
                        self.apply_event(&events[k]);
                        proof {
                            lemma_apply_events_take_step(s0, evs, k as int);
                        }
                        k = k + 1;
                    }
                    proof {
                        assert(evs.take(events.len() as int) =~= evs);
                    }
                    match self.chat_session {
                        Some(cur) => {
                            effects.push(AppEffect::PollEvents(cur));
                        },
                        None => {},
                    }
                }
            },
            AppMessage::StartNewChat => {
                if self.chat_session.is_none() && !self.pairing_pending {
                    self.pairing_pending = true;
                    effects.push(AppEffect::StartChat(clone_interests(&self.interests)));
                }
            },
            AppMessage::SendChat => {
                match self.chat_session {
                    Some(sid) => {
                        if self.chat_message.as_str().unicode_len() > 0 {
                            let text = self.chat_message.clone();
                            self.chat_message = String::new();
                            self.message_history.push(ChatMessage::You(text.clone()));
                            effects.push(AppEffect::SendMessage(sid, text));
                        }
                    },
                    None => {},
                }
            },
            AppMessage::ChatSent(_, _) => {},
            AppMessage::StartTyping(sid) => {
                match self.chat_session {
                    Some(cur) => {
                        if cur == sid {
                            self.you_typing = TypingState::Typing(now_ms);
                        }
                    },
                    None => {},
                }
            },
            AppMessage::CheckTyping => {
                match self.chat_session {
                    Some(sid) => {
                        match self.you_typing {
                            TypingState::Typing(since) => {
                                if now_ms > since && now_ms - since > TYPING_TIMEOUT_MS {
                                    effects.push(AppEffect::EndTyping(sid));
                                }
                            },
                            TypingState::Idle => {},
                        }
                    },
                    None => {},
                }
            },
            AppMessage::StopTyping(sid) => {
                match self.chat_session {
                    Some(cur) => {
                        if cur == sid {
                            self.you_typing = TypingState::Idle;
                        }
                    },
                    None => {},
                }
            },
            AppMessage::ErrorOccured(tag, reason) => {
                match tag {
                    None => {
                        self.message_history.push(ChatMessage::System(reason));
                        self.pairing_pending = false;
                    },
                    Some(sid) => {
                        let current = match self.chat_session {
                            Some(cur) => cur == sid,
                            None => false,
                        };
                        if current {
                            self.message_history.push(ChatMessage::System(reason));
                        }
                    },
                }
            },
            AppMessage::Disconnect => {
                match self.chat_session {
                    Some(sid) => {
                        self.message_history.push(
                            ChatMessage::System("You have disconnected".to_owned()),
                        );
                        self.chat_session = None;
                        self.you_typing = TypingState::Idle;
                        self.stranger_typing = false;
                        effects.push(AppEffect::Disconnect(sid));
                    },
                    None => {},
                }
            },
        }
        proof {
            assert(self@ =~= spec_update_state(s0, mv, now_ms));
            assert(effects.deep_view() =~= spec_update_effects(s0, mv, now_ms));
        }
        effects
    }

    /// The message log, in display order.
    pub fn message_history(&self) -> (log: &Vec<ChatMessage>)
        ensures
            log.deep_view() == self@.log,
    {
        &self.message_history
    }

    /// The message draft under the input field.
    pub fn chat_message(&self) -> (draft: &String)
        ensures
            draft@ == self@.draft,
    {
        &self.chat_message
    }

    /// The identity of the live session, if any.
    pub fn chat_session(&self) -> (session: Option<SessionId>)
        ensures
            session == self@.session,
    {
        self.chat_session
    }

    /// Whether a session is live.
    pub fn is_connected(&self) -> (connected: bool)
        ensures
            connected == (self@.session is Some),
    {
        self.chat_session.is_some()
    }

    /// Whether the stranger is currently typing.
    pub fn stranger_typing(&self) -> (typing: bool)
        ensures
            typing == self@.stranger_typing,
    {
        self.stranger_typing
    }

    /// The local typing activity.
    pub fn you_typing(&self) -> (typing: TypingState)
        ensures
            typing == self@.you_typing,
    {
        self.you_typing
    }

    /// The raw interests text as the user typed it.
    pub fn interests_string(&self) -> (text: &String)
        ensures
            text@ == self@.interests_text,
    {
        &self.interests_string
    }

    /// The interests list the raw text denotes.
    pub fn interests(&self) -> (interests: &Vec<String>)
        ensures
            interests.deep_view() == self@.interests,
    {
        &self.interests
    }

    /// Whether a pairing request is outstanding.
    pub fn pairing_pending(&self) -> (pending: bool)
        ensures
            pending == self@.pairing_pending,
    {
        self.pairing_pending
    }
}

} // verus!
