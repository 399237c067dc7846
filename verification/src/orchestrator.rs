//! The rebuild orchestrator: a state machine that is told what happened and
//! answers with what to do next. Whoever drives it performs each action and
//! reports its outcome as the next event.

use vstd::prelude::*;
use crate::change::{
    aggregate, batch_view, is_change_set, ChangeSet, RawEvent, DEBOUNCE_WINDOW_MS,
};
use crate::config::{Config, ConfigView, FatalError, FatalView};
use crate::frame::{changes_view, frame_of, render, DisplayFrame, FrameView};
use crate::output::{build_command, build_of, BuildCommand, BuildResult, CommandView};
use crate::text::{copy_texts, texts};

verus! {

/// Where the orchestrator stands.
#[derive(Clone, Copy, Debug, PartialEq, Eq, Structural)]
pub enum Phase {
    /// The watches are being registered; nothing was built yet.
    Registering,
    /// A build is running.
    Building,
    /// The last build was drawn; the next message of the source is awaited.
    AwaitingEvent,
    /// A fatal error ended the run.
    Failed,
}

/// What happened: the outcome of the action that was answered last.
#[derive(Debug)]
pub enum Event {
    /// Every watch was registered.
    WatchesRegistered,
    /// A watch could not be registered; the text says why.
    WatchFailed(String),
    /// The build command ran and wrote the two streams.
    BuildFinished(BuildResult),
    /// The build command could not be started; the text says why.
    BuildNotStarted(String),
    /// The source delivered one debounced batch of raw events.
    Changes(Vec<RawEvent>),
    /// The source reported failures of its own, one text each.
    SourceFailed(Vec<String>),
}

/// An event, with its texts as values.
pub enum EventView {
    WatchesRegistered,
    WatchFailed(Seq<char>),
    BuildFinished { stdout: Seq<u8>, stderr: Seq<u8> },
    BuildNotStarted(Seq<char>),
    Changes(Seq<Seq<Seq<char>>>),
    SourceFailed(Seq<Seq<char>>),
}

impl View for Event {
    type V = EventView;

    open spec fn view(&self) -> EventView {
        match self {
            Event::WatchesRegistered => EventView::WatchesRegistered,
            Event::WatchFailed(reason) => EventView::WatchFailed(reason@),
            Event::BuildFinished(result) => EventView::BuildFinished {
                stdout: result.stdout@,
                stderr: result.stderr@,
            },
            Event::BuildNotStarted(reason) => EventView::BuildNotStarted(reason@),
            Event::Changes(batch) => EventView::Changes(batch_view(batch@)),
            Event::SourceFailed(failures) => EventView::SourceFailed(texts(failures@)),
        }
    }
}

/// What to do next.
#[derive(Debug)]
pub enum Action {
    /// Register a watch on each of the paths, with its subdirectories where
    /// `recursive` is set, at a source that closes a batch of events when it
    /// has seen none for `window_ms` milliseconds.
    Watch { paths: Vec<String>, recursive: bool, window_ms: u64 },
    /// Run the command and wait for it to end.
    Build(BuildCommand),
    /// Draw the frame, then wait for the next message of the source.
    Render(DisplayFrame),
    /// Log each of the texts, then wait for the next message of the source.
    Log(Vec<String>),
    /// Wait for the next message of the source.
    Wait,
    /// Report the error and end the run.
    Abort(FatalError),
}

/// An action, with its texts as values.
pub enum ActionView {
    Watch { paths: Seq<Seq<char>>, recursive: bool, window_ms: u64 },
    Build(CommandView),
    Render(FrameView),
    Log(Seq<Seq<char>>),
    Wait,
    Abort(FatalView),
}

impl View for Action {
    type V = ActionView;

    open spec fn view(&self) -> ActionView {
        match self {
            Action::Watch { paths, recursive, window_ms } => ActionView::Watch {
                paths: texts(paths@),
                recursive: *recursive,
                window_ms: *window_ms,
            },
            Action::Build(command) => ActionView::Build(command@),
            Action::Render(frame) => ActionView::Render(frame@),
            Action::Log(lines) => ActionView::Log(texts(lines@)),
            Action::Wait => ActionView::Wait,
            Action::Abort(error) => ActionView::Abort(error@),
        }
    }
}

/// The orchestrator's state, with its texts as values.
pub struct StateView {
    pub config: ConfigView,
    pub phase: Phase,
    /// The change set that started the running build; none for the first
    /// build, and none while no build runs.
    pub changes: Option<Seq<Seq<char>>>,
}

/// The state in which a run begins.
pub open spec fn initial(config: ConfigView) -> StateView {
    StateView { config, phase: Phase::Registering, changes: None }
}

/// The events that a phase takes: the outcomes of the action that led to it.
pub open spec fn accepts(phase: Phase, event: EventView) -> bool {
    match phase {
        Phase::Registering => event is WatchesRegistered || event is WatchFailed,
        Phase::Building => event is BuildFinished || event is BuildNotStarted,
        Phase::AwaitingEvent => event is Changes || event is SourceFailed,
        Phase::Failed => false,
    }
}

/// One step: in state `pre` the event leads to state `post` and is answered
/// with `action`.
pub open spec fn steps(pre: StateView, event: EventView, post: StateView, action: ActionView) -> bool {
    &&& post.config == pre.config
    &&& match (pre.phase, event) {
        (Phase::Registering, EventView::WatchesRegistered) => {
            &&& post.phase == Phase::Building
            &&& post.changes is None
            &&& action == ActionView::Build(build_of(pre.config.main))
        },
        (Phase::Registering, EventView::WatchFailed(reason)) => {
            &&& post.phase == Phase::Failed
            &&& post.changes is None
            &&& action == ActionView::Abort(FatalView::WatchFailed(reason))
        },
        (Phase::Building, EventView::BuildFinished { stdout, stderr }) => {
            &&& post.phase == Phase::AwaitingEvent
            &&& post.changes is None
            &&& action == ActionView::Render(frame_of(pre.config, pre.changes, stdout, stderr))
        },
        (Phase::Building, EventView::BuildNotStarted(reason)) => {
            &&& post.phase == Phase::Failed
            &&& post.changes is None
            &&& action == ActionView::Abort(FatalView::BuildNotStarted(reason))
        },
        (Phase::AwaitingEvent, EventView::Changes(batch)) => {
            if batch.len() == 0 {
                &&& post == pre
                &&& action == ActionView::Wait
            } else {
                &&& post.phase == Phase::Building
                &&& post.changes matches Some(list)
                &&& is_change_set(list, pre.config.cwd, batch)
                &&& action == ActionView::Build(build_of(pre.config.main))
            }
        },
        (Phase::AwaitingEvent, EventView::SourceFailed(failures)) => {
            &&& post == pre
            &&& action == ActionView::Log(failures)
        },
        _ => false,
    }
}

/// The rebuild orchestrator.
#[derive(Debug)]
pub struct Orchestrator {
    config: Config,
    phase: Phase,
    changes: Option<ChangeSet>,
}

impl View for Orchestrator {
    type V = StateView;

    closed spec fn view(&self) -> StateView {
        StateView { config: self.config@, phase: self.phase, changes: changes_view(self.changes) }
    }
}

impl Orchestrator {
    /// Begins a run: the first thing to do is to watch the configured paths,
    /// of which there is at least one, with their subdirectories, under the
    /// debounce window of `DEBOUNCE_WINDOW_MS`.
    pub fn start(config: Config) -> (started: (Orchestrator, Action))
        ensures
            started.0@ == initial(config@),
            started.1@ == (ActionView::Watch {
                paths: config@.paths,
                recursive: true,
                window_ms: DEBOUNCE_WINDOW_MS,
            }),
            config@.paths.len() > 0,
    {
        let paths = copy_texts(config.paths());
        (
            Orchestrator { config, phase: Phase::Registering, changes: None },
            Action::Watch { paths, recursive: true, window_ms: DEBOUNCE_WINDOW_MS },
        )
    }

    /// The configuration of the run.
    pub fn config(&self) -> (config: &Config)
        ensures
            config@ == self@.config,
    {
        &self.config
    }

    /// Where the orchestrator stands.
    pub fn phase(&self) -> (phase: Phase)
        ensures
            phase == self@.phase,
    {
        self.phase
    }

    /// Whether the event is one that the present phase takes.
    pub fn accepts(&self, event: &Event) -> (taken: bool)
        ensures
            taken == accepts(self@.phase, event@),
    {
        match (self.phase, event) {
            (Phase::Registering, Event::WatchesRegistered) => true,
            (Phase::Registering, Event::WatchFailed(_)) => true,
            (Phase::Building, Event::BuildFinished(_)) => true,
            (Phase::Building, Event::BuildNotStarted(_)) => true,
            (Phase::AwaitingEvent, Event::Changes(_)) => true,
            (Phase::AwaitingEvent, Event::SourceFailed(_)) => true,
            _ => false,
        }
    }

    /// Takes the outcome of the last action and answers with the next one.
    /// An event that the present phase does not take is handed back, and
    /// the orchestrator stands as it stood: a batch that arrives while a build
    /// runs stays with whoever holds it until the frame of that build is
    /// drawn.
    pub fn step(&mut self, event: Event) -> (answer: Result<Action, Event>)
        ensures
            answer is Ok <==> accepts(old(self)@.phase, event@),
            answer matches Ok(action) ==> steps(old(self)@, event@, final(self)@, action@),
            answer matches Err(back) ==> back == event && final(self)@ == old(self)@,
    {
        if !self.accepts(&event) {
            return Err(event);
        }
        Ok(self.take(event))
    }

    /// One step on an event that the present phase takes.
    fn take(&mut self, event: Event) -> (action: Action)
        requires
            accepts(old(self)@.phase, event@),
        ensures
            steps(old(self)@, event@, final(self)@, action@),
    {
        match event {
            Event::WatchesRegistered => {
                self.phase = Phase::Building;
                self.changes = None;
                Action::Build(build_command(self.config.main().as_str()))
            },
            Event::WatchFailed(reason) => {
                self.phase = Phase::Failed;
                self.changes = None;
                Action::Abort(FatalError::WatchFailed(reason))
            },
            Event::BuildFinished(result) => {
                let frame = render(&self.config, &self.changes, &result);
                self.phase = Phase::AwaitingEvent;
                self.changes = None;
                Action::Render(frame)
            },
            Event::BuildNotStarted(reason) => {
                self.phase = Phase::Failed;
                self.changes = None;
                Action::Abort(FatalError::BuildNotStarted(reason))
            },
            Event::Changes(batch) => {
                match aggregate(self.config.cwd().as_str(), &batch) {
                    None => Action::Wait,
                    Some(set) => {
                        self.changes = Some(set);
                        self.phase = Phase::Building;
                        Action::Build(build_command(self.config.main().as_str()))
                    },
                }
            },
            Event::SourceFailed(failures) => Action::Log(failures),
        }
    }
}

} // verus!
