//! What holds of every run of the supervisor.

use vstd::prelude::*;

use crate::run::{
    finished, reached, starting, step, triggered, ErrorModel, RunActionModel, RunEventModel,
    RunPhase, SupervisorModel,
};
use crate::target::EventKind;

verus! {

/// The state that `events`, reported one after the other, lead to from `s`.
pub open spec fn run(s: SupervisorModel, events: Seq<RunEventModel>) -> SupervisorModel
    decreases events.len(),
{
    if events.len() == 0 {
        s
    } else {
        run(step(s, events[0]).0, events.drop_first())
    }
}

/// How often the command is launched while `events` are reported from `s`.
pub open spec fn launches(s: SupervisorModel, events: Seq<RunEventModel>) -> nat
    decreases events.len(),
{
    if events.len() == 0 {
        0
    } else {
        let next = step(s, events[0]);
        let here: nat = if next.1 is Launch {
            1
        } else {
            0
        };
        here + launches(next.0, events.drop_first())
    }
}

/// How often an interrupt is delivered while `events` are reported from `s`.
pub open spec fn interrupts(s: SupervisorModel, events: Seq<RunEventModel>) -> nat
    decreases events.len(),
{
    if events.len() == 0 {
        0
    } else {
        let next = step(s, events[0]);
        let here: nat = if next.1 is Interrupt {
            1
        } else {
            0
        };
        here + interrupts(next.0, events.drop_first())
    }
}

/// An event of the change channel that is no `Error`.
pub open spec fn is_change(e: RunEventModel) -> bool {
    e matches RunEventModel::Received(event) && !(event is Error)
}

proof fn lemma_finished_stays(s: SupervisorModel, events: Seq<RunEventModel>)
    requires
        s.phase == RunPhase::Finished,
    ensures
        run(s, events) == s,
        launches(s, events) == 0,
        interrupts(s, events) == 0,
    decreases events.len(),
{
    if events.len() > 0 {
        lemma_finished_stays(s, events.drop_first());
    }
}

/// An `Error` event ends the supervisor in whatever state it is, with the
/// error's cause as the outcome; whatever is reported afterwards, the outcome
/// stays, no command is launched and no interrupt is delivered.
pub proof fn law_error_ends_the_supervisor(
    s: SupervisorModel,
    cause: Seq<char>,
    later: Seq<RunEventModel>,
    after: RunEventModel,
)
    requires
        s.phase != RunPhase::Finished,
    ensures
        step(s, RunEventModel::Received(EventKind::Error(cause))) == finished(
            s,
            Err(ErrorModel::Watch(cause)),
        ),
        ({
            let ended = step(s, RunEventModel::Received(EventKind::Error(cause))).0;
            &&& run(ended, later) == ended
            &&& launches(ended, later) == 0
            &&& interrupts(ended, later) == 0
            &&& step(run(ended, later), after).1 == RunActionModel::Exit(
                Err(ErrorModel::Watch(cause)),
            )
        }),
{
    let ended = step(s, RunEventModel::Received(EventKind::Error(cause))).0;
    lemma_finished_stays(ended, later);
}

/// Once ended, the supervisor stays ended and gives its outcome again.
pub proof fn law_outcome_is_final(s: SupervisorModel, events: Seq<RunEventModel>)
    requires
        s.phase == RunPhase::Finished,
    ensures
        run(s, events) == s,
        launches(s, events) == 0,
        interrupts(s, events) == 0,
        forall|e: RunEventModel| #[trigger] step(s, e) == (s, RunActionModel::Exit(reached(s))),
{
    lemma_finished_stays(s, events);
}

/// A run cycle is only under way where a command is configured.
pub open spec fn consistent(s: SupervisorModel) -> bool {
    s.phase != RunPhase::Waiting && s.phase != RunPhase::Finished ==> s.command is Some
}

/// Whatever is reported, a run cycle is never under way without a command:
/// what holds of the supervisor at its start holds of every state it
/// reaches. The command stays the same, and without one nothing is ever
/// launched.
pub proof fn law_no_cycle_without_a_command(s: SupervisorModel, events: Seq<RunEventModel>)
    requires
        consistent(s),
    ensures
        consistent(run(s, events)),
        run(s, events).command == s.command,
        s.command is None ==> launches(s, events) == 0,
    decreases events.len(),
{
    if events.len() > 0 {
        law_no_cycle_without_a_command(step(s, events[0]).0, events.drop_first());
    }
}

/// Without a command the supervisor ends with its first event: in success
/// after `Ready` or `ChangeDetected`, and in success too if the channel is
/// closed before any event.
pub proof fn law_without_command_the_first_event_ends(
    interrupt: bool,
    quiet: u64,
    event: EventKind,
)
    ensures
        !(event is Error) ==> step(
            starting(None, interrupt, quiet),
            RunEventModel::Received(event),
        ).1 == RunActionModel::Exit(Ok(())),
        step(starting(None, interrupt, quiet), RunEventModel::Received(event)).0.phase
            == RunPhase::Finished,
        step(starting(None, interrupt, quiet), RunEventModel::Disconnected).1
            == RunActionModel::Exit(Ok(())),
{
}

/// With a command, `Ready` or a change that arrives while the supervisor
/// waits starts the quiet period, of the configured length.
pub proof fn law_change_starts_the_quiet_period(s: SupervisorModel, e: RunEventModel)
    requires
        s.phase == RunPhase::Waiting,
        s.command is Some,
        is_change(e),
    ensures
        step(s, e).1 == (RunActionModel::Sleep { nanos: s.quiet }),
        step(s, e).0.phase == RunPhase::Sleeping,
        step(s, e).0.command == s.command,
{
}

proof fn lemma_draining_launches_once(s: SupervisorModel, events: Seq<RunEventModel>)
    requires
        s.phase == RunPhase::Draining,
        s.command is Some,
        events.len() >= 1,
        events.last() == RunEventModel::QueueEmpty,
        forall|i: int| 0 <= i < events.len() - 1 ==> is_change(#[trigger] events[i]),
    ensures
        launches(s, events) == 1,
        run(s, events).phase == RunPhase::Launching,
    decreases events.len(),
{
    let rest = events.drop_first();
    if events.len() == 1 {
        assert(events[0] == RunEventModel::QueueEmpty);
        assert(rest.len() == 0);
        assert(launches(step(s, events[0]).0, rest) == 0);
        assert(run(step(s, events[0]).0, rest) == step(s, events[0]).0);
    } else {
        assert(is_change(events[0]));
        assert(step(s, events[0]).0 == s);
        assert(rest.last() == events.last());
        assert forall|i: int| 0 <= i < rest.len() - 1 implies is_change(#[trigger] rest[i]) by {
            assert(rest[i] == events[i + 1]);
        }
        lemma_draining_launches_once(s, rest);
    }
}

/// Debounce: all the changes that are queued when the quiet period ends are
/// absorbed into one launch. From the start of the quiet period, the end of
/// the sleep, any number of queued changes and the empty queue give exactly
/// one launch, after the last of them.
pub proof fn law_queued_changes_give_one_launch(s: SupervisorModel, events: Seq<RunEventModel>)
    requires
        s.phase == RunPhase::Sleeping,
        s.command is Some,
        events.len() >= 2,
        events[0] == RunEventModel::Slept,
        events.last() == RunEventModel::QueueEmpty,
        forall|i: int| 1 <= i < events.len() - 1 ==> is_change(#[trigger] events[i]),
    ensures
        launches(s, events) == 1,
        interrupts(s, events) == 0,
        run(s, events).phase == RunPhase::Launching,
        step(run(s, events.drop_last()), RunEventModel::QueueEmpty).1 == RunActionModel::Launch(
            s.command.unwrap(),
        ),
{
    let rest = events.drop_first();
    let drain = step(s, events[0]).0;
    assert(rest.last() == events.last());
    assert forall|i: int| 0 <= i < rest.len() - 1 implies is_change(#[trigger] rest[i]) by {
        assert(rest[i] == events[i + 1]);
    }
    lemma_draining_launches_once(drain, rest);
    lemma_no_interrupt_outside_a_run(s, events);
    lemma_draining_holds(s, events.drop_last());
}

proof fn lemma_draining_holds(s: SupervisorModel, events: Seq<RunEventModel>)
    requires
        s.phase == RunPhase::Sleeping || s.phase == RunPhase::Draining,
        s.phase == RunPhase::Sleeping ==> events.len() >= 1 && events[0] == RunEventModel::Slept,
        forall|i: int|
            (if s.phase == RunPhase::Sleeping {
                1int
            } else {
                0int
            }) <= i < events.len() ==> is_change(#[trigger] events[i]),
    ensures
        run(s, events) == (SupervisorModel { phase: RunPhase::Draining, ..s }),
    decreases events.len(),
{
    if events.len() > 0 {
        let rest = events.drop_first();
        let next = step(s, events[0]).0;
        if s.phase == RunPhase::Draining {
            assert(is_change(events[0]));
        }
        assert(next == (SupervisorModel { phase: RunPhase::Draining, ..s }));
        assert forall|i: int| 0 <= i < rest.len() implies is_change(#[trigger] rest[i]) by {
            assert(rest[i] == events[i + 1]);
        }
        lemma_draining_holds(next, rest);
    }
}

proof fn lemma_no_interrupt_outside_a_run(s: SupervisorModel, events: Seq<RunEventModel>)
    requires
        s.phase == RunPhase::Sleeping || s.phase == RunPhase::Draining,
        forall|i: int| 0 <= i < events.len() ==> !((#[trigger] events[i]) is Launched),
    ensures
        interrupts(s, events) == 0,
    decreases events.len(),
{
    if events.len() > 0 {
        let rest = events.drop_first();
        let next = step(s, events[0]).0;
        assert(!(events[0] is Launched));
        assert forall|i: int| 0 <= i < rest.len() implies !((#[trigger] rest[i]) is Launched) by {
            assert(rest[i] == events[i + 1]);
        }
        if next.phase == RunPhase::Finished {
            lemma_finished_stays(next, rest);
        } else if next.phase == RunPhase::Launching {
            lemma_no_interrupt_before_launch(next, rest);
        } else {
            lemma_no_interrupt_outside_a_run(next, rest);
        }
    }
}

proof fn lemma_no_interrupt_before_launch(s: SupervisorModel, events: Seq<RunEventModel>)
    requires
        s.phase == RunPhase::Launching,
        forall|i: int| 0 <= i < events.len() ==> !((#[trigger] events[i]) is Launched),
    ensures
        interrupts(s, events) == 0,
    decreases events.len(),
{
    if events.len() > 0 {
        let rest = events.drop_first();
        let next = step(s, events[0]).0;
        assert(!(events[0] is Launched));
        assert(next.phase == RunPhase::Finished);
        lemma_finished_stays(next, rest);
    }
}

proof fn lemma_reports_split(s: SupervisorModel, a: Seq<RunEventModel>, b: Seq<RunEventModel>)
    ensures
        run(s, a + b) == run(run(s, a), b),
        launches(s, a + b) == launches(s, a) + launches(run(s, a), b),
        interrupts(s, a + b) == interrupts(s, a) + interrupts(run(s, a), b),
    decreases a.len(),
{
    if a.len() == 0 {
        assert(a + b =~= b);
    } else {
        assert((a + b)[0] == a[0]);
        assert((a + b).drop_first() =~= a.drop_first() + b);
        lemma_reports_split(step(s, a[0]).0, a.drop_first(), b);
    }
}

/// What is reported when a change arrives while the supervisor waits, and
/// nothing else arrives until the command it started has ended with `code`.
pub open spec fn undisturbed_cycle(code: Option<i32>) -> Seq<RunEventModel> {
    seq![
        RunEventModel::Received(EventKind::ChangeDetected),
        RunEventModel::Slept,
        RunEventModel::QueueEmpty,
        RunEventModel::Launched,
        RunEventModel::ChildExited { code },
    ]
}

/// `n` such cycles, one after the other.
pub open spec fn undisturbed_cycles(n: nat, code: Option<i32>) -> Seq<RunEventModel>
    decreases n,
{
    if n == 0 {
        Seq::empty()
    } else {
        undisturbed_cycle(code) + undisturbed_cycles((n - 1) as nat, code)
    }
}

proof fn lemma_undisturbed_cycle(s: SupervisorModel, code: Option<i32>)
    requires
        s.phase == RunPhase::Waiting,
        s.command is Some,
    ensures
        launches(s, undisturbed_cycle(code)) == 1,
        interrupts(s, undisturbed_cycle(code)) == 0,
        run(s, undisturbed_cycle(code)) == (SupervisorModel {
            changed: false,
            signalled: false,
            ..s
        }),
{
    let c0 = undisturbed_cycle(code);
    let c1 = c0.drop_first();
    let c2 = c1.drop_first();
    let c3 = c2.drop_first();
    let c4 = c3.drop_first();
    let c5 = c4.drop_first();
    let s1 = step(s, c0[0]).0;
    let s2 = step(s1, c1[0]).0;
    let s3 = step(s2, c2[0]).0;
    let s4 = step(s3, c3[0]).0;
    let s5 = step(s4, c4[0]).0;
    assert(c1[0] == c0[1] && c2[0] == c0[2] && c3[0] == c0[3] && c4[0] == c0[4]);
    assert(c5.len() == 0);
    assert(s1.phase == RunPhase::Sleeping);
    assert(s2.phase == RunPhase::Draining);
    assert(s3.phase == RunPhase::Launching);
    assert(s4.phase == RunPhase::Running && !s4.changed);
    assert(s5 == (SupervisorModel { changed: false, signalled: false, ..s }));
    assert(run(s5, c5) == s5 && launches(s5, c5) == 0 && interrupts(s5, c5) == 0);
    assert(run(s4, c4) == s5 && launches(s4, c4) == 0 && interrupts(s4, c4) == 0);
    assert(run(s3, c3) == s5 && launches(s3, c3) == 0 && interrupts(s3, c3) == 0);
    assert(run(s2, c2) == s5 && launches(s2, c2) == 1 && interrupts(s2, c2) == 0);
    assert(run(s1, c1) == s5 && launches(s1, c1) == 1 && interrupts(s1, c1) == 0);
}

/// Changes that arrive one by one, each after the run that the one before
/// started has ended, give one launch each: `n` of them give `n` launches,
/// and the supervisor waits again.
pub proof fn law_separate_changes_give_a_launch_each(
    s: SupervisorModel,
    n: nat,
    code: Option<i32>,
)
    requires
        s.phase == RunPhase::Waiting,
        s.command is Some,
    ensures
        launches(s, undisturbed_cycles(n, code)) == n,
        interrupts(s, undisturbed_cycles(n, code)) == 0,
        run(s, undisturbed_cycles(n, code)).phase == RunPhase::Waiting,
        run(s, undisturbed_cycles(n, code)).command == s.command,
    decreases n,
{
    if n > 0 {
        let after = run(s, undisturbed_cycle(code));
        lemma_undisturbed_cycle(s, code);
        law_separate_changes_give_a_launch_each(after, (n - 1) as nat, code);
        lemma_reports_split(s, undisturbed_cycle(code), undisturbed_cycles((n - 1) as nat, code));
    }
}

/// In interrupt mode the first change during a run has the command
/// interrupted, and the change is remembered.
pub proof fn law_first_change_interrupts(s: SupervisorModel, e: RunEventModel)
    requires
        s.phase == RunPhase::Running,
        s.interrupt,
        !s.signalled,
        is_change(e),
    ensures
        step(s, e).1 == RunActionModel::Interrupt,
        step(s, e).0.changed,
        step(step(s, e).0, RunEventModel::Signalled) == (
            SupervisorModel { phase: RunPhase::Running, changed: true, signalled: true, ..s },
            RunActionModel::Select,
        ),
{
}

/// One run gets at most one interrupt: whatever is reported between the
/// launch of the command and its end, the interrupts delivered, together
/// with the one that the run may already have had, are at most one.
pub proof fn law_one_interrupt_per_run(s: SupervisorModel, events: Seq<RunEventModel>)
    requires
        s.phase == RunPhase::Running || s.phase == RunPhase::Signalling,
        forall|i: int| 0 <= i < events.len() ==> !((#[trigger] events[i]) is ChildExited),
    ensures
        interrupts(s, events) + (if s.signalled || s.phase == RunPhase::Signalling {
            1nat
        } else {
            0nat
        }) <= 1,
    decreases events.len(),
{
    if events.len() > 0 {
        let rest = events.drop_first();
        let next = step(s, events[0]);
        assert(!(events[0] is ChildExited));
        assert forall|i: int| 0 <= i < rest.len() implies !((#[trigger] rest[i]) is ChildExited) by {
            assert(rest[i] == events[i + 1]);
        }
        if next.0.phase == RunPhase::Finished {
            lemma_finished_stays(next.0, rest);
        } else {
            law_one_interrupt_per_run(next.0, rest);
        }
    }
}

proof fn lemma_signalled_run_gets_no_more(s: SupervisorModel, events: Seq<RunEventModel>)
    requires
        s.phase == RunPhase::Running,
        s.signalled,
        s.changed,
        forall|i: int| 0 <= i < events.len() ==> is_change(#[trigger] events[i]),
    ensures
        interrupts(s, events) == 0,
        run(s, events) == s,
    decreases events.len(),
{
    if events.len() > 0 {
        let rest = events.drop_first();
        assert(is_change(events[0]));
        assert(step(s, events[0]) == (s, RunActionModel::Select));
        assert forall|i: int| 0 <= i < rest.len() implies is_change(#[trigger] rest[i]) by {
            assert(rest[i] == events[i + 1]);
        }
        lemma_signalled_run_gets_no_more(s, rest);
    }
}

/// In interrupt mode, however many changes arrive during one run, the command
/// gets exactly one interrupt: with the first of them. When the command then
/// ends, the next cycle starts at once.
pub proof fn law_changes_during_a_run_give_one_interrupt(
    s: SupervisorModel,
    events: Seq<RunEventModel>,
    code: Option<i32>,
)
    requires
        s.phase == RunPhase::Running,
        s.interrupt,
        !s.signalled,
        events.len() >= 2,
        is_change(events[0]),
        events[1] == RunEventModel::Signalled,
        forall|i: int| 2 <= i < events.len() ==> is_change(#[trigger] events[i]),
    ensures
        interrupts(s, events) == 1,
        step(s, events[0]).1 == RunActionModel::Interrupt,
        run(s, events) == (SupervisorModel { changed: true, signalled: true, ..s }),
        step(run(s, events), RunEventModel::ChildExited { code }) == triggered(run(s, events)),
{
    let first = step(s, events[0]).0;
    let second = step(first, events[1]).0;
    let tail = events.drop_first();
    let rest = tail.drop_first();
    assert(tail[0] == events[1]);
    assert forall|i: int| 0 <= i < rest.len() implies is_change(#[trigger] rest[i]) by {
        assert(rest[i] == events[i + 2]);
    }
    lemma_signalled_run_gets_no_more(second, rest);
    assert(interrupts(first, tail) == 0);
    assert(run(first, tail) == run(second, rest));
    assert(run(s, events) == run(first, tail));
}

/// A launched command starts its run with no change remembered and no
/// interrupt delivered.
pub proof fn law_each_run_starts_afresh(s: SupervisorModel)
    requires
        s.phase == RunPhase::Launching,
    ensures
        step(s, RunEventModel::Launched) == (
            SupervisorModel { phase: RunPhase::Running, changed: false, signalled: false, ..s },
            RunActionModel::Select,
        ),
{
}

/// When the command ends after a change arrived during its run, the next
/// cycle starts at once, whatever the exit code; when none arrived, the
/// supervisor waits for the next event. The exit code never ends the
/// supervisor.
pub proof fn law_change_during_run_restarts(s: SupervisorModel, code: Option<i32>)
    requires
        s.phase == RunPhase::Running,
        s.command is Some,
    ensures
        s.changed ==> step(s, RunEventModel::ChildExited { code }) == triggered(s),
        s.changed ==> step(s, RunEventModel::ChildExited { code }).1 == (RunActionModel::Sleep {
            nanos: s.quiet,
        }),
        !s.changed ==> step(s, RunEventModel::ChildExited { code }).1 == RunActionModel::Receive,
        step(s, RunEventModel::ChildExited { code }).0.phase != RunPhase::Finished,
{
}

/// Without interrupt mode no interrupt is ever delivered, whatever is
/// reported; a change during a run is only remembered.
pub proof fn law_no_interrupt_without_interrupt_mode(s: SupervisorModel, events: Seq<RunEventModel>)
    requires
        !s.interrupt,
    ensures
        interrupts(s, events) == 0,
        s.phase == RunPhase::Running && events.len() > 0 && is_change(events[0]) ==> step(
            s,
            events[0],
        ) == (SupervisorModel { changed: true, ..s }, RunActionModel::Select),
    decreases events.len(),
{
    if events.len() > 0 {
        law_no_interrupt_without_interrupt_mode(step(s, events[0]).0, events.drop_first());
    }
}

} // verus!
