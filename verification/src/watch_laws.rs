//! What holds of every run of the watch engine.

use vstd::prelude::*;

use crate::target::{EventKind, Target};
use crate::watch::{
    halted, initial, is_directory_creation, joined_path, relevant, transition,
    ActionModel, EngineModel, EnginePhase, EventModel,
};

verus! {

/// The messages that the engine asks to have sent, in order, while it is fed
/// `events` one after the other from the state `s`.
pub open spec fn messages(s: EngineModel, events: Seq<EventModel>) -> Seq<EventKind>
    decreases events.len(),
{
    if events.len() == 0 {
        Seq::empty()
    } else {
        let next = transition(s, events[0]);
        let rest = messages(next.0, events.drop_first());
        match next.1 {
            ActionModel::Send(message) => seq![message] + rest,
            _ => rest,
        }
    }
}

/// The phases in which `Ready` has not been sent yet.
pub open spec fn unannounced(phase: EnginePhase) -> bool {
    phase == EnginePhase::Initializing || phase == EnginePhase::Loading || phase
        == EnginePhase::Scanning
}

/// What holds of the `i`-th of the messages `sent` from a state in `phase`.
pub open spec fn in_order(sent: Seq<EventKind>, phase: EnginePhase, i: int) -> bool {
    &&& sent[i] is Ready ==> unannounced(phase) && i == 0
    &&& sent[i] is ChangeDetected && unannounced(phase) ==> i > 0 && sent[0] is Ready
    &&& sent[i] is Error ==> i == sent.len() - 1
}

proof fn lemma_messages_in_order(s: EngineModel, events: Seq<EventModel>)
    ensures
        s.phase == EnginePhase::Stopped ==> messages(s, events).len() == 0,
        forall|i: int|
            0 <= i < messages(s, events).len() ==> #[trigger] in_order(
                messages(s, events),
                s.phase,
                i,
            ),
    decreases events.len(),
{
    if events.len() > 0 {
        let next = transition(s, events[0]);
        let rest = messages(next.0, events.drop_first());
        let sent = messages(s, events);
        lemma_messages_in_order(next.0, events.drop_first());
        match next.1 {
            ActionModel::Send(message) => {
                assert(sent == seq![message] + rest);
                assert forall|i: int| 0 <= i < sent.len() implies in_order(sent, s.phase, i) by {
                    if i > 0 {
                        assert(sent[i] == rest[i - 1]);
                        assert(in_order(rest, next.0.phase, i - 1));
                    }
                }
            },
            _ => {
                assert(sent == rest);
                assert forall|i: int| 0 <= i < sent.len() implies in_order(sent, s.phase, i) by {
                    assert(in_order(rest, next.0.phase, i));
                }
            },
        }
    }
}

/// Whatever is reported to a new engine, `Ready` is sent at most once, and
/// then as the first message; a change is only reported after `Ready`.
pub proof fn law_ready_is_first_and_sent_once(events: Seq<EventModel>)
    ensures
        forall|i: int|
            0 <= i < messages(initial(), events).len() && (#[trigger] messages(
                initial(),
                events,
            )[i]) is Ready ==> i == 0,
        forall|i: int|
            0 <= i < messages(initial(), events).len() && (#[trigger] messages(
                initial(),
                events,
            )[i]) is ChangeDetected ==> i > 0 && messages(initial(), events)[0] is Ready,
{
    lemma_messages_in_order(initial(), events);
    let sent = messages(initial(), events);
    assert forall|i: int| 0 <= i < sent.len() && (#[trigger] sent[i]) is Ready implies i == 0 by {
        assert(in_order(sent, EnginePhase::Initializing, i));
    }
    assert forall|i: int| 0 <= i < sent.len() && (#[trigger] sent[i]) is ChangeDetected implies i
        > 0 && sent[0] is Ready by {
        assert(in_order(sent, EnginePhase::Initializing, i));
    }
}

/// Whatever is reported to an engine in whatever state, an `Error` message is
/// the last one it sends; an ended engine sends nothing.
pub proof fn law_error_is_the_last_message(s: EngineModel, events: Seq<EventModel>)
    ensures
        forall|i: int|
            0 <= i < messages(s, events).len() && (#[trigger] messages(s, events)[i]) is Error
                ==> i == messages(s, events).len() - 1,
        s.phase == EnginePhase::Stopped ==> messages(s, events).len() == 0,
{
    lemma_messages_in_order(s, events);
    let sent = messages(s, events);
    assert forall|i: int| 0 <= i < sent.len() && (#[trigger] sent[i]) is Error implies i
        == sent.len() - 1 by {
        assert(in_order(sent, s.phase, i));
    }
}

/// An outside failure reported to a running engine ends it with one `Error`
/// message that carries the cause.
pub proof fn law_failure_is_reported_with_its_cause(s: EngineModel, cause: Seq<char>)
    requires
        s.phase != EnginePhase::Stopped,
    ensures
        transition(s, EventModel::Failed(cause)) == (
            halted(s),
            ActionModel::Send(EventKind::Error(cause)),
        ),
{
}

/// A notification that names an entry of a subscribed directory, and is no
/// directory creation, marks the batch as changed exactly if the file of that
/// path is in the previous or in the current allowed set.
pub proof fn law_relevance_is_membership_in_either_set(
    s: EngineModel,
    handle: u64,
    name: Seq<char>,
    mask: u32,
)
    requires
        s.phase == EnginePhase::Sorting,
        !s.changed,
        !is_directory_creation(mask),
        s.subscriptions.contains_key(handle),
    ensures
        transition(s, EventModel::Notification { handle, name: Some(name), mask }).0.changed == (
        s.previous.contains(Target::File(joined_path(s.subscriptions[handle], name)))
            || s.current.contains(Target::File(joined_path(s.subscriptions[handle], name)))),
        relevant(s.previous, s.current, joined_path(s.subscriptions[handle], name)) == (
        s.previous.contains(Target::File(joined_path(s.subscriptions[handle], name)))
            || s.current.contains(Target::File(joined_path(s.subscriptions[handle], name)))),
        transition(s, EventModel::Notification { handle, name: Some(name), mask }).1
            == ActionModel::NextNotification,
{
}

/// A batch ends with `ChangeDetected` exactly if one of its notifications was
/// relevant; either way the engine goes on.
pub proof fn law_batch_reports_a_change_iff_one_was_relevant(s: EngineModel)
    requires
        s.phase == EnginePhase::Sorting,
    ensures
        (transition(s, EventModel::BatchFinished).1 == ActionModel::Send(
            EventKind::ChangeDetected,
        )) == s.changed,
        !s.changed ==> transition(s, EventModel::BatchFinished).1 == ActionModel::ReadBatch,
{
}

/// The creation of a directory in a subscribed directory always asks for a
/// subscription of the new directory, whatever the allowed sets hold.
pub proof fn law_created_directory_is_subscribed(
    s: EngineModel,
    handle: u64,
    name: Seq<char>,
    mask: u32,
)
    requires
        s.phase == EnginePhase::Sorting,
        is_directory_creation(mask),
        s.subscriptions.contains_key(handle),
    ensures
        transition(s, EventModel::Notification { handle, name: Some(name), mask }) == (
            s,
            ActionModel::Subscribe {
                path: joined_path(s.subscriptions[handle], name),
                created: true,
            },
        ),
{
}

/// A subscription that is reported during the walk or during a batch is
/// recorded under its handle, and nothing else changes.
pub proof fn law_subscription_is_recorded(s: EngineModel, handle: u64, path: Seq<char>)
    requires
        s.phase == EnginePhase::Scanning || s.phase == EnginePhase::Sorting,
    ensures
        transition(s, EventModel::Subscribed { handle, path }) == (
            EngineModel { subscriptions: s.subscriptions.insert(handle, path), ..s },
            if s.phase == EnginePhase::Scanning {
                ActionModel::NextDirectory
            } else {
                ActionModel::NextNotification
            },
        ),
{
}

/// The state that `events`, reported one after the other, lead to from `s`.
pub open spec fn after(s: EngineModel, events: Seq<EventModel>) -> EngineModel
    decreases events.len(),
{
    if events.len() == 0 {
        s
    } else {
        after(transition(s, events[0]).0, events.drop_first())
    }
}

/// The event is a notification that creates no directory and names an entry
/// of a directory that `s` has a subscription for.
pub open spec fn names_entry(s: EngineModel, e: EventModel) -> bool {
    e matches EventModel::Notification { handle, name, mask } && !is_directory_creation(mask)
        && name is Some && s.subscriptions.contains_key(handle)
}

/// The event is a notification whose entry is a file of the previous or of
/// the current allowed set of `s`.
pub open spec fn names_allowed_file(s: EngineModel, e: EventModel) -> bool {
    e matches EventModel::Notification { handle, name: Some(name), mask } && relevant(
        s.previous,
        s.current,
        joined_path(s.subscriptions[handle], name),
    )
}

/// A batch of such notifications is marked as changed exactly if it was
/// marked before or one of them names a file of the previous or of the
/// current allowed set; nothing else changes.
pub proof fn law_batch_is_changed_iff_a_notification_is_relevant(
    s: EngineModel,
    batch: Seq<EventModel>,
)
    requires
        s.phase == EnginePhase::Sorting,
        forall|i: int| 0 <= i < batch.len() ==> names_entry(s, #[trigger] batch[i]),
    ensures
        after(s, batch) == (EngineModel {
            changed: s.changed || exists|i: int|
                0 <= i < batch.len() && names_allowed_file(s, #[trigger] batch[i]),
            ..s
        }),
    decreases batch.len(),
{
    if batch.len() > 0 {
        let next = transition(s, batch[0]).0;
        let rest = batch.drop_first();
        assert(names_entry(s, batch[0]));
        assert(next == (EngineModel { changed: s.changed || names_allowed_file(s, batch[0]), ..s }));
        assert forall|i: int| 0 <= i < rest.len() implies names_entry(next, #[trigger] rest[i]) by {
            assert(rest[i] == batch[i + 1]);
            assert(names_entry(s, batch[i + 1]));
        }
        law_batch_is_changed_iff_a_notification_is_relevant(next, rest);
        let in_rest = exists|i: int| 0 <= i < rest.len() && names_allowed_file(next, #[trigger] rest[i]);
        let in_batch = exists|i: int|
            0 <= i < batch.len() && names_allowed_file(s, #[trigger] batch[i]);
        if in_rest {
            let k = choose|i: int| 0 <= i < rest.len() && names_allowed_file(next, #[trigger] rest[i]);
            assert(rest[k] == batch[k + 1]);
            assert(names_allowed_file(s, batch[k + 1]));
        }
        if in_batch {
            let k = choose|i: int| 0 <= i < batch.len() && names_allowed_file(s, #[trigger] batch[i]);
            if k > 0 {
                assert(rest[k - 1] == batch[k]);
                assert(names_allowed_file(next, rest[k - 1]));
            }
        }
        assert(in_batch == (names_allowed_file(s, batch[0]) || in_rest));
    }
}

/// A reported subscription is recorded under its handle, and no other handle
/// loses its directory.
pub proof fn law_subscriptions_are_never_removed(s: EngineModel, e: EventModel, handle: u64)
    requires
        s.subscriptions.contains_key(handle),
    ensures
        transition(s, e).0.subscriptions.contains_key(handle),
        !(e matches EventModel::Subscribed { handle: h, .. } && h == handle) ==> transition(
            s,
            e,
        ).0.subscriptions[handle] == s.subscriptions[handle],
{
}

} // verus!
