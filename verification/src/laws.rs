//! The guarantees the controller gives across whole runs: no remote call
//! without a session, one typing notification per typing burst, stale
//! results discarded, batch order preserved, disconnect idempotent.
//!
//! Each law is stated over [`spec_update_state`] and
//! [`spec_update_effects`], which [`crate::controller::Controller::update`]
//! is proved to follow exactly.

use vstd::prelude::*;

use crate::controller::{
    spec_apply_event, spec_apply_events, spec_update_effects, spec_update_state, ControllerView,
};
use crate::message::{AppEffectView, AppMessageView, ChatEventView, LogEntryView, SessionId,
    TypingState};

verus! {

/// While no session is live, the controller never schedules a message
/// send, a typing notification or a session teardown, whatever message it
/// consumes; and it schedules polling only for a session that this very
/// message installed.
pub proof fn lemma_no_session_no_remote_calls(s: ControllerView, m: AppMessageView, now: u64)
    requires
        s.session is None,
    ensures
        forall|i: int| 0 <= i < spec_update_effects(s, m, now).len() ==> !((
        #[trigger] spec_update_effects(s, m, now)[i]) is SendMessage),
        forall|i: int| 0 <= i < spec_update_effects(s, m, now).len() ==> !((
        #[trigger] spec_update_effects(s, m, now)[i]) is BeginTyping),
        forall|i: int| 0 <= i < spec_update_effects(s, m, now).len() ==> !((
        #[trigger] spec_update_effects(s, m, now)[i]) is EndTyping),
        forall|i: int| 0 <= i < spec_update_effects(s, m, now).len() ==> !((
        #[trigger] spec_update_effects(s, m, now)[i]) is Disconnect),
        forall|i: int| 0 <= i < spec_update_effects(s, m, now).len() ==> ((
        #[trigger] spec_update_effects(s, m, now)[i]) matches AppEffectView::PollEvents(sid)
            ==> spec_update_state(s, m, now).session == Some(sid)),
{
}

/// How many begin-typing effects one batch of effects holds.
pub open spec fn count_begin_typing(effs: Seq<AppEffectView>) -> nat
    decreases effs.len(),
{
    if effs.len() == 0 {
        0nat
    } else {
        (if effs.first() is BeginTyping {
            1nat
        } else {
            0nat
        }) + count_begin_typing(effs.drop_first())
    }
}

/// How many begin-typing effects a whole run schedules.
pub open spec fn total_begin_typing(s: ControllerView, steps: Seq<(AppMessageView, u64)>) -> nat
    decreases steps.len(),
{
    if steps.len() == 0 {
        0nat
    } else {
        count_begin_typing(spec_update_effects(s, steps.first().0, steps.first().1))
            + total_begin_typing(
            spec_update_state(s, steps.first().0, steps.first().1),
            steps.drop_first(),
        )
    }
}

/// While the local user already counts as typing, further draft edits
/// never re-fire the begin-typing notification.
pub proof fn lemma_edits_while_typing_fire_nothing(
    s: ControllerView,
    steps: Seq<(AppMessageView, u64)>,
)
    requires
        s.session is Some,
        s.you_typing is Typing,
        forall|i: int| 0 <= i < steps.len() ==> (#[trigger] steps[i]).0 is UpdateChatMessage,
    ensures
        total_begin_typing(s, steps) == 0,
    decreases steps.len(),
{
    if steps.len() > 0 {
        assert(steps.first().0 is UpdateChatMessage);
        let s1 = spec_update_state(s, steps.first().0, steps.first().1);
        assert(count_begin_typing(spec_update_effects(s, steps.first().0, steps.first().1)) == 0);
        assert forall|i: int| 0 <= i < steps.drop_first().len() implies (#[trigger] steps.drop_first()[i]).0 is UpdateChatMessage by {
            assert(steps.drop_first()[i] == steps[i + 1]);
        }
        lemma_edits_while_typing_fire_nothing(s1, steps.drop_first());
    }
}

/// Typing debounce fires once per burst: starting idle with a live
/// session, a sequence of consecutive draft edits schedules exactly one
/// begin-typing notification in total — the first edit fires it, every
/// further edit only re-stamps the burst.
pub proof fn lemma_typing_debounce_single_fire(
    s: ControllerView,
    steps: Seq<(AppMessageView, u64)>,
)
    requires
        s.session is Some,
        s.you_typing is Idle,
        steps.len() > 0,
        forall|i: int| 0 <= i < steps.len() ==> (#[trigger] steps[i]).0 is UpdateChatMessage,
    ensures
        total_begin_typing(s, steps) == 1,
{
    assert(steps.first().0 is UpdateChatMessage);
    let effs = spec_update_effects(s, steps.first().0, steps.first().1);
    assert(effs.len() == 1 && effs.first() is BeginTyping);
    assert(count_begin_typing(effs.drop_first()) == 0);
    assert(count_begin_typing(effs) == 1);
    let s1 = spec_update_state(s, steps.first().0, steps.first().1);
    assert(s1.session == s.session && s1.you_typing is Typing);
    assert forall|i: int| 0 <= i < steps.drop_first().len() implies (#[trigger] steps.drop_first()[i]).0 is UpdateChatMessage by {
        assert(steps.drop_first()[i] == steps[i + 1]);
    }
    lemma_edits_while_typing_fire_nothing(s1, steps.drop_first());
}

/// The session identity an asynchronous outcome is tagged with, if any.
pub open spec fn tagged_session(m: AppMessageView) -> Option<SessionId> {
    match m {
        AppMessageView::HandleChatEvent(sid, _) => Some(sid),
        AppMessageView::ChatSent(sid, _) => Some(sid),
        AppMessageView::StartTyping(sid) => Some(sid),
        AppMessageView::StopTyping(sid) => Some(sid),
        AppMessageView::ErrorOccured(tag, _) => tag,
        _ => None,
    }
}

/// Stale results are rejected: an outcome tagged with a session that is no
/// longer the current one changes nothing and schedules nothing.
pub proof fn lemma_stale_result_rejected(s: ControllerView, m: AppMessageView, now: u64)
    requires
        tagged_session(m) is Some,
        s.session != tagged_session(m),
    ensures
        spec_update_state(s, m, now) == s,
        spec_update_effects(s, m, now) =~= Seq::<AppEffectView>::empty(),
{
}

/// Batch order is preserved.  A `Typing` event followed by a message
/// leaves the stranger-typing flag cleared; a message followed by
/// `Typing` leaves it set.  Either way the log gains exactly the
/// stranger's message.
pub proof fn lemma_batch_order_preserved(
    s: ControllerView,
    sid: SessionId,
    msg: Seq<char>,
    now: u64,
)
    requires
        s.session == Some(sid),
    ensures
        ({
            let s1 = spec_update_state(
                s,
                AppMessageView::HandleChatEvent(
                    sid,
                    seq![ChatEventView::Typing, ChatEventView::Message(msg)],
                ),
                now,
            );
            s1.stranger_typing == false && s1.log == s.log.push(LogEntryView::Stranger(msg))
        }),
        ({
            let s2 = spec_update_state(
                s,
                AppMessageView::HandleChatEvent(
                    sid,
                    seq![ChatEventView::Message(msg), ChatEventView::Typing],
                ),
                now,
            );
            s2.stranger_typing == true && s2.log == s.log.push(LogEntryView::Stranger(msg))
        }),
{
    let a = ChatEventView::Typing;
    let b = ChatEventView::Message(msg);
    lemma_apply_two(s, a, b);
    lemma_apply_two(s, b, a);
}

/// Applying a batch of two events applies the first, then the second.
pub proof fn lemma_apply_two(s: ControllerView, a: ChatEventView, b: ChatEventView)
    ensures
        spec_apply_events(s, seq![a, b]) == spec_apply_event(spec_apply_event(s, a), b),
{
    let evs = seq![a, b];
    assert(evs.first() == a);
    assert(evs.drop_first() =~= seq![b]);
    let s1 = spec_apply_event(s, a);
    assert(spec_apply_events(s, evs) == spec_apply_events(s1, evs.drop_first()));
    assert(seq![b].first() == b);
    assert(seq![b].drop_first() =~= Seq::<ChatEventView>::empty());
    assert(spec_apply_events(s1, seq![b]) == spec_apply_events(
        spec_apply_event(s1, b),
        seq![b].drop_first(),
    ));
    assert(spec_apply_events(spec_apply_event(s1, b), seq![b].drop_first()) == spec_apply_event(
        s1,
        b,
    ));
}

/// `post` carries `pre` unchanged at its start: log entries are never
/// mutated or removed, only appended.
pub open spec fn extends_log(post: Seq<LogEntryView>, pre: Seq<LogEntryView>) -> bool {
    post.len() >= pre.len() && post.take(pre.len() as int) == pre
}

/// One remote event only appends to the log.
pub proof fn lemma_apply_event_log_append_only(s: ControllerView, ev: ChatEventView)
    ensures
        extends_log(spec_apply_event(s, ev).log, s.log),
{
    let post = spec_apply_event(s, ev).log;
    assert(post == s.log || post.len() == s.log.len() + 1);
    assert(post.take(s.log.len() as int) =~= s.log);
}

/// A whole batch only appends to the log.
pub proof fn lemma_apply_events_log_append_only(s: ControllerView, evs: Seq<ChatEventView>)
    ensures
        extends_log(spec_apply_events(s, evs).log, s.log),
    decreases evs.len(),
{
    if evs.len() == 0 {
        assert(s.log.take(s.log.len() as int) =~= s.log);
    } else {
        let s1 = spec_apply_event(s, evs.first());
        lemma_apply_event_log_append_only(s, evs.first());
        lemma_apply_events_log_append_only(s1, evs.drop_first());
        let post = spec_apply_events(s, evs).log;
        assert(post.take(s.log.len() as int) =~= post.take(s1.log.len() as int).take(
            s.log.len() as int,
        ));
    }
}

/// The log is append-only: whatever message the controller consumes, the
/// entries it already holds stay, in place and unchanged.
pub proof fn lemma_log_append_only(s: ControllerView, m: AppMessageView, now: u64)
    ensures
        extends_log(spec_update_state(s, m, now).log, s.log),
{
    match m {
        AppMessageView::HandleChatEvent(sid, evs) => {
            if s.session == Some(sid) {
                lemma_apply_events_log_append_only(s, evs);
            } else {
                assert(s.log.take(s.log.len() as int) =~= s.log);
            }
        },
        _ => {
            let post = spec_update_state(s, m, now).log;
            assert(post == s.log || post.len() == s.log.len() + 1);
            assert(post.take(s.log.len() as int) =~= s.log);
        },
    }
}

/// Disconnecting is idempotent: a second `Disconnect`, arriving when the
/// first already cleared the session, changes nothing — in particular it
/// appends no second notice to the log — and schedules nothing.
pub proof fn lemma_disconnect_idempotent(s: ControllerView, now1: u64, now2: u64)
    ensures
        spec_update_state(
            spec_update_state(s, AppMessageView::Disconnect, now1),
            AppMessageView::Disconnect,
            now2,
        ) == spec_update_state(s, AppMessageView::Disconnect, now1),
        spec_update_effects(
            spec_update_state(s, AppMessageView::Disconnect, now1),
            AppMessageView::Disconnect,
            now2,
        ) =~= Seq::<AppEffectView>::empty(),
{
}

} // verus!
