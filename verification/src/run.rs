//! Runs of the orchestrator, and what holds of every one of them.

use vstd::prelude::*;
use crate::change::is_change_set;
use crate::config::{ConfigView, FatalView};
use crate::frame::frame_of;
use crate::orchestrator::{initial, steps, ActionView, EventView, Phase, StateView};
use crate::output::build_of;

verus! {

/// Step `i` of a run: event `i` leads from state `i` to state `i + 1` and is
/// answered with action `i`.
pub open spec fn step_at(
    states: Seq<StateView>,
    events: Seq<EventView>,
    actions: Seq<ActionView>,
    i: int,
) -> bool {
    steps(states[i], events[i], states[i + 1], actions[i])
}

/// A run under `config`: it begins in the initial state, and every event is
/// taken by one step of the orchestrator.
pub open spec fn is_run(
    config: ConfigView,
    states: Seq<StateView>,
    events: Seq<EventView>,
    actions: Seq<ActionView>,
) -> bool {
    &&& states.len() == events.len() + 1
    &&& actions.len() == events.len()
    &&& states[0] == initial(config)
    &&& forall|i: int| 0 <= i < events.len() ==> #[trigger] step_at(states, events, actions, i)
}

/// The event is a message of the filesystem source.
pub open spec fn from_source(event: EventView) -> bool {
    event is Changes || event is SourceFailed
}

/// The event starts a build: the watches were registered, or the source
/// delivered a batch that is not empty.
pub open spec fn starts_build(event: EventView) -> bool {
    ||| event is WatchesRegistered
    ||| event matches EventView::Changes(batch) && batch.len() > 0
}

/// In every run the configuration stays what it was; only the first state is
/// one of registering; a fatal error is the end of the run; and a change set
/// is kept only while the build that it started is running.
pub proof fn lemma_run_phases(
    config: ConfigView,
    states: Seq<StateView>,
    events: Seq<EventView>,
    actions: Seq<ActionView>,
    i: int,
)
    requires
        is_run(config, states, events, actions),
        0 <= i <= events.len(),
    ensures
        states[i].config == config,
        states[i].phase == Phase::Registering <==> i == 0,
        states[i].phase == Phase::Failed ==> i == events.len(),
        states[i].phase != Phase::Building ==> states[i].changes is None,
    decreases i,
{
    if i > 0 {
        lemma_run_phases(config, states, events, actions, i - 1);
        assert(step_at(states, events, actions, i - 1));
    }
    if i < events.len() {
        assert(step_at(states, events, actions, i));
    }
}

/// The startup sequence. Before any message of the source is taken, the
/// watches were registered, exactly one build was started and has ended, and
/// its frame, which has no line of changed paths, was drawn: the first message
/// of the source is the third event of the run, after the registration that
/// started the build and the end of the build that drew the frame.
pub proof fn lemma_startup_sequence(
    config: ConfigView,
    states: Seq<StateView>,
    events: Seq<EventView>,
    actions: Seq<ActionView>,
    k: int,
)
    requires
        is_run(config, states, events, actions),
        0 <= k < events.len(),
        from_source(events[k]),
    ensures
        k >= 2,
        from_source(events[2]),
        events[0] is WatchesRegistered,
        actions[0] == ActionView::Build(build_of(config.main)),
        events[1] is BuildFinished,
        actions[1] matches ActionView::Render(frame) && frame.changed is None,
        !(actions[1] is Build),
{
    lemma_run_phases(config, states, events, actions, k);
    assert(step_at(states, events, actions, k));
    assert(step_at(states, events, actions, 0));
    lemma_run_phases(config, states, events, actions, 1);
    assert(k >= 2);
    assert(step_at(states, events, actions, 1));
    lemma_run_phases(config, states, events, actions, 2);
    assert(step_at(states, events, actions, 2));
}

/// One build for the startup and one for each change set, one frame for each
/// build. At every step of a run: a build is started exactly when the watches
/// were registered, which happens only at the first step, or when the source
/// delivered a batch that is not empty; a frame is drawn exactly when a build
/// has ended; while a build runs nothing is taken but its end; and every
/// build that ended was started at the step before.
pub proof fn lemma_builds_and_frames(
    config: ConfigView,
    states: Seq<StateView>,
    events: Seq<EventView>,
    actions: Seq<ActionView>,
    i: int,
)
    requires
        is_run(config, states, events, actions),
        0 <= i < events.len(),
    ensures
        actions[i] is Build <==> starts_build(events[i]),
        events[i] is WatchesRegistered ==> i == 0,
        actions[i] is Render <==> events[i] is BuildFinished,
        actions[i] is Build && i + 1 < events.len() ==> events[i + 1] is BuildFinished || events[i
            + 1] is BuildNotStarted,
        events[i] is BuildFinished ==> i > 0 && actions[i - 1] is Build,
{
    lemma_run_phases(config, states, events, actions, i);
    lemma_run_phases(config, states, events, actions, i + 1);
    assert(step_at(states, events, actions, i));
    if i + 1 < events.len() {
        assert(step_at(states, events, actions, i + 1));
    }
    if i > 0 {
        lemma_run_phases(config, states, events, actions, i - 1);
        assert(step_at(states, events, actions, i - 1));
    }
}

/// Fatal errors end the run, other failures do not. A run is ended exactly
/// when a watch could not be registered or the build command could not be
/// started, with that error, and the step that ends it is the last; a watch
/// that fails does so at the first step, before any build. A failure that the
/// source reports is logged, and the orchestrator stands as it stood.
pub proof fn lemma_failures(
    config: ConfigView,
    states: Seq<StateView>,
    events: Seq<EventView>,
    actions: Seq<ActionView>,
    i: int,
)
    requires
        is_run(config, states, events, actions),
        0 <= i < events.len(),
    ensures
        actions[i] is Abort <==> events[i] is WatchFailed || events[i] is BuildNotStarted,
        actions[i] is Abort ==> i == events.len() - 1,
        events[i] matches EventView::WatchFailed(reason) ==> i == 0 && actions[i]
            == ActionView::Abort(FatalView::WatchFailed(reason)),
        events[i] matches EventView::BuildNotStarted(reason) ==> actions[i] == ActionView::Abort(
            FatalView::BuildNotStarted(reason),
        ),
        events[i] matches EventView::SourceFailed(failures) ==> actions[i] == ActionView::Log(
            failures,
        ) && states[i + 1] == states[i],
{
    lemma_run_phases(config, states, events, actions, i);
    lemma_run_phases(config, states, events, actions, i + 1);
    assert(step_at(states, events, actions, i));
}

/// The frame of a build shows what started it. The frame that is drawn when a
/// build has ended has a line of changed paths exactly when a batch of the
/// source started the build, and the line then lists the change set of that
/// batch; its body is made of the streams that the build wrote.
pub proof fn lemma_frame_shows_its_changes(
    config: ConfigView,
    states: Seq<StateView>,
    events: Seq<EventView>,
    actions: Seq<ActionView>,
    i: int,
)
    requires
        is_run(config, states, events, actions),
        0 <= i < events.len(),
        events[i] is BuildFinished,
    ensures
        i > 0,
        actions[i] == ActionView::Render(
            frame_of(
                config,
                states[i].changes,
                events[i]->BuildFinished_stdout,
                events[i]->BuildFinished_stderr,
            ),
        ),
        states[i].changes is Some <==> events[i - 1] is Changes,
        events[i - 1] matches EventView::Changes(batch) ==> states[i].changes matches Some(list)
            && is_change_set(list, config.cwd, batch),
{
    lemma_builds_and_frames(config, states, events, actions, i);
    lemma_run_phases(config, states, events, actions, i);
    lemma_run_phases(config, states, events, actions, i - 1);
    assert(step_at(states, events, actions, i));
    assert(step_at(states, events, actions, i - 1));
}

} // verus!
