//! The watch loop as a state machine: the caller performs each action and
//! hands back what happened; every decision is made here.

use crate::argv::InvocationRequest;
use crate::argv::InvocationRequestView;
use crate::commands::Command;
use crate::detector::should_recompile;
use crate::detector::Timestamp;
use crate::detector::WatchState;
use crate::mode::get_latex_type;
use crate::mode::LatexType;
use crate::outcome::report;
use crate::outcome::report_failure;
use crate::outcome::Defect;
use crate::outcome::InvocationOutcome;
use crate::outcome::InvocationOutcomeView;
use crate::outcome::Output;
use crate::outcome::OutputView;
use crate::outcome::Severity;
use crate::platform::Platform;
use vstd::prelude::*;
use vstd::string::StringExecFns;

verus! {

/// Pause before each poll, in milliseconds.
pub const POLL_INTERVAL_MS: u64 = 300;

/// Where the watcher stands.
#[derive(Clone, Copy, Debug, PartialEq, Eq, Structural)]
pub enum Phase {
    /// Normal operation.
    Watching,
    /// An interrupt arrived: the watcher leaves with success.
    Terminating,
    /// A fatal error or a defect: the watcher leaves with failure.
    Failed,
}

/// The status a process ends with.
#[derive(Clone, Copy, Debug, PartialEq, Eq, Structural)]
pub enum ExitStatus {
    Success,
    Failure,
}

impl ExitStatus {
    /// The exit code of the process: zero for success and for nothing else.
    pub open spec fn exit_code(self) -> nat {
        match self {
            ExitStatus::Success => 0,
            ExitStatus::Failure => 1,
        }
    }

    /// The exit code of the process.
    pub fn code(self) -> (code: u8)
        ensures
            code == self.exit_code(),
    {
        match self {
            ExitStatus::Success => 0,
            ExitStatus::Failure => 1,
        }
    }
}

/// What happened since the last step.
#[derive(Clone, Debug, PartialEq, Eq)]
pub enum Event {
    /// The watched file's modification time was read.
    Polled(Timestamp),
    /// The modification time could not be read; the text says why.
    PollFailed(String),
    /// The compiler ran and exited.
    Compiled(InvocationOutcome),
    /// The compiler could not be started.
    SpawnFailed,
    /// The user interrupted the watcher.
    Interrupted,
}

/// The mathematical content of an [`Event`].
pub enum EventView {
    Polled(int),
    PollFailed(Seq<char>),
    Compiled(InvocationOutcomeView),
    SpawnFailed,
    Interrupted,
}

impl View for Event {
    type V = EventView;

    open spec fn view(&self) -> EventView {
        match self {
            Event::Polled(observed) => EventView::Polled(observed@),
            Event::PollFailed(reason) => EventView::PollFailed(reason@),
            Event::Compiled(outcome) => EventView::Compiled(outcome@),
            Event::SpawnFailed => EventView::SpawnFailed,
            Event::Interrupted => EventView::Interrupted,
        }
    }
}

/// What the caller is to do next.
#[derive(Clone, Debug, PartialEq, Eq)]
pub enum Action {
    /// Sleep for `after_ms` milliseconds, then read the watched file's
    /// modification time and hand in `Polled` or `PollFailed`.
    Poll { after_ms: u64 },
    /// Run the compiler, wait for it, and hand in `Compiled` or
    /// `SpawnFailed`.
    Compile(InvocationRequest),
    /// End the process with this status.
    Exit(ExitStatus),
    /// End the process abnormally because of this defect.
    Abort(Defect),
}

/// The mathematical content of an [`Action`].
pub enum ActionView {
    Poll { after_ms: nat },
    Compile(InvocationRequestView),
    Exit(ExitStatus),
    Abort(Defect),
}

impl View for Action {
    type V = ActionView;

    open spec fn view(&self) -> ActionView {
        match self {
            Action::Poll { after_ms } => ActionView::Poll { after_ms: *after_ms as nat },
            Action::Compile(request) => ActionView::Compile(request@),
            Action::Exit(status) => ActionView::Exit(*status),
            Action::Abort(defect) => ActionView::Abort(*defect),
        }
    }
}

/// The answer to one event: what to tell the user, in this order, and
/// what to do then.
#[derive(Clone, Debug, PartialEq, Eq)]
pub struct Step {
    pub outputs: Vec<Output>,
    pub action: Action,
}

/// The mathematical content of a [`Step`].
pub struct StepView {
    pub outputs: Seq<OutputView>,
    pub action: ActionView,
}

impl View for Step {
    type V = StepView;

    open spec fn view(&self) -> StepView {
        StepView { outputs: self.outputs.deep_view(), action: self.action@ }
    }
}

/// The watcher: the file it watches, the backend resolved at start, the
/// platform, what the change detector remembers, and the phase.
#[derive(Clone, Debug, PartialEq, Eq)]
pub struct Controller {
    pub filename: String,
    pub latex_type: LatexType,
    pub platform: Platform,
    pub watch: WatchState,
    pub phase: Phase,
}

/// The mathematical content of a [`Controller`].
pub struct ControllerView {
    pub filename: Seq<char>,
    pub latex_type: LatexType,
    pub platform: Platform,
    pub last_modified: Option<int>,
    pub phase: Phase,
}

impl View for Controller {
    type V = ControllerView;

    open spec fn view(&self) -> ControllerView {
        ControllerView {
            filename: self.filename@,
            latex_type: self.latex_type,
            platform: self.platform,
            last_modified: self.watch@,
            phase: self.phase,
        }
    }
}

/// The line printed when an interrupt ends the watcher.
pub open spec fn farewell() -> Seq<char> {
    "exit autoves...\n"@
}

/// The line printed after every compiler run, failed or not.
pub open spec fn status_line() -> Seq<char> {
    "Press Ctrl+C to exit...\n"@
}

/// What is told of a modification time that cannot be read: a line on
/// standard error that gives the reason, and before it, where the platform
/// shows dialogs, an error dialog that points to the console.
pub open spec fn fatal_outputs(platform: Platform, reason: Seq<char>) -> Seq<OutputView> {
    let console = OutputView::Stderr("autoves error: "@ + reason + "\n"@);
    if platform.alerts_by_dialog() {
        seq![
            OutputView::Alert {
                severity: Severity::Error,
                title: "autoves error"@,
                text: "autoves error occurs. See the console for more information"@,
            },
            console,
        ]
    } else {
        seq![console]
    }
}

/// The next poll, after the pause between polls.
pub open spec fn next_poll() -> ActionView {
    ActionView::Poll { after_ms: POLL_INTERVAL_MS as nat }
}

/// An answer that tells the user nothing.
pub open spec fn quiet(action: ActionView) -> StepView {
    StepView { outputs: seq![], action }
}

/// The answer to an interrupt, whatever the watcher was doing: the
/// farewell, and a successful exit.
pub open spec fn interrupt_step() -> StepView {
    StepView {
        outputs: seq![OutputView::Stdout(farewell())],
        action: ActionView::Exit(ExitStatus::Success),
    }
}

impl ControllerView {
    /// The watcher at start: nothing polled yet.
    pub open spec fn initial(
        filename: Seq<char>,
        latex_type: LatexType,
        platform: Platform,
    ) -> ControllerView {
        ControllerView { filename, latex_type, platform, last_modified: None, phase: Phase::Watching }
    }

    /// The compiler run this watcher asks for when the file has changed.
    pub open spec fn request(self) -> InvocationRequestView {
        InvocationRequestView {
            filename: self.filename,
            latex_type: self.latex_type,
            platform: self.platform,
        }
    }

    /// This watcher in another phase.
    pub open spec fn in_phase(self, phase: Phase) -> ControllerView {
        ControllerView { phase, ..self }
    }

    /// The transition relation: the watcher after `event`, and its answer.
    ///
    /// A watcher that has left the `Watching` phase stays as it is, tells
    /// nothing and only repeats the exit. A watching one does not keep
    /// track of which answer it waits for: it takes each event as it
    /// comes, and
    /// - ends with the farewell and success on an interrupt;
    /// - records each modification time read, and asks for a compiler run
    ///   where the change detector says so, for the next poll otherwise;
    /// - ends with failure when the modification time cannot be read;
    /// - after a compiler run reports a failure, prints the status line and
    ///   asks for the next poll, or aborts where a failed run's output is
    ///   not UTF-8;
    /// - aborts when the compiler could not be started.
    pub open spec fn next(self, event: EventView) -> (ControllerView, StepView) {
        match self.phase {
            Phase::Terminating => (self, quiet(ActionView::Exit(ExitStatus::Success))),
            Phase::Failed => (self, quiet(ActionView::Exit(ExitStatus::Failure))),
            Phase::Watching => match event {
                EventView::Interrupted => (self.in_phase(Phase::Terminating), interrupt_step()),
                EventView::Polled(observed) => (
                    ControllerView { last_modified: Some(observed), ..self },
                    quiet(
                        if should_recompile(self.last_modified, observed) {
                            ActionView::Compile(self.request())
                        } else {
                            next_poll()
                        },
                    ),
                ),
                EventView::PollFailed(reason) => (
                    self.in_phase(Phase::Failed),
                    StepView {
                        outputs: fatal_outputs(self.platform, reason),
                        action: ActionView::Exit(ExitStatus::Failure),
                    },
                ),
                EventView::Compiled(outcome) => match report(outcome, self.platform) {
                    Ok(None) => (
                        self,
                        StepView {
                            outputs: seq![OutputView::Stdout(status_line())],
                            action: next_poll(),
                        },
                    ),
                    Ok(Some(failure)) => (
                        self,
                        StepView {
                            outputs: seq![failure, OutputView::Stdout(status_line())],
                            action: next_poll(),
                        },
                    ),
                    Err(defect) => (self.in_phase(Phase::Failed), quiet(ActionView::Abort(defect))),
                },
                EventView::SpawnFailed => (
                    self.in_phase(Phase::Failed),
                    quiet(ActionView::Abort(Defect::SpawnFailed)),
                ),
            },
        }
    }
}

/// An answer that tells the user nothing.
fn quiet_step(action: Action) -> (step: Step)
    ensures
        step@ == quiet(action@),
{
    let step = Step { outputs: Vec::new(), action };
    assert(step@.outputs =~= quiet(action@).outputs);
    step
}

/// Answers an interrupt. It needs no state, so a signal handler can call it.
pub fn interrupted() -> (step: Step)
    ensures
        step@ == interrupt_step(),
{
    let outputs: Vec<Output> = vec![Output::Stdout(String::from_str("exit autoves...\n"))];
    let step = Step { outputs, action: Action::Exit(ExitStatus::Success) };
    assert(step@.outputs =~= interrupt_step().outputs);
    step
}

/// What to tell the user when the modification time cannot be read.
pub fn fatal_report(platform: Platform, reason: &str) -> (outputs: Vec<Output>)
    ensures
        outputs.deep_view() == fatal_outputs(platform, reason@),
{
    let mut line = String::from_str("autoves error: ");
    line.append(reason);
    line.append("\n");
    let mut outputs: Vec<Output> = Vec::new();
    if platform.has_alert_dialog() {
        outputs.push(
            Output::Alert {
                severity: Severity::Error,
                title: String::from_str("autoves error"),
                text: String::from_str("autoves error occurs. See the console for more information"),
            },
        );
    }
    outputs.push(Output::Stderr(line));
    assert(outputs.deep_view() =~= fatal_outputs(platform, reason@));
    outputs
}

impl Controller {
    /// The watcher for a command line, and its first action: a poll. The
    /// backend is resolved here, once.
    pub fn start(cmd: &Command, platform: Platform) -> (r: (Controller, Action))
        ensures
            r.0@ == ControllerView::initial(cmd.filename@, cmd.latex_type(), platform),
            r.1@ == next_poll(),
    {
        let controller = Controller {
            filename: cmd.filename.clone(),
            latex_type: get_latex_type(cmd),
            platform,
            watch: WatchState::new(),
            phase: Phase::Watching,
        };
        (controller, Action::Poll { after_ms: POLL_INTERVAL_MS })
    }

    /// The compiler run this watcher asks for when the file has changed.
    pub fn request(&self) -> (request: InvocationRequest)
        ensures
            request@ == self@.request(),
    {
        InvocationRequest {
            filename: self.filename.clone(),
            latex_type: self.latex_type,
            platform: self.platform,
        }
    }

    /// Takes one event and returns the watcher after it together with the
    /// answer: what to tell the user and what to do next.
    pub fn step(self, event: Event) -> (r: (Controller, Step))
        ensures
            (r.0@, r.1@) == self@.next(event@),
    {
        let mut controller = self;
        match controller.phase {
            Phase::Terminating => (controller, quiet_step(Action::Exit(ExitStatus::Success))),
            Phase::Failed => (controller, quiet_step(Action::Exit(ExitStatus::Failure))),
            Phase::Watching => match event {
                Event::Interrupted => {
                    controller.phase = Phase::Terminating;
                    (controller, interrupted())
                },
                Event::Polled(observed) => {
                    let (changed, watch) = controller.watch.poll(observed);
                    controller.watch = watch;
                    let action = if changed {
                        Action::Compile(controller.request())
                    } else {
                        Action::Poll { after_ms: POLL_INTERVAL_MS }
                    };
                    (controller, quiet_step(action))
                },
                Event::PollFailed(reason) => {
                    let outputs = fatal_report(controller.platform, reason.as_str());
                    controller.phase = Phase::Failed;
                    (controller, Step { outputs, action: Action::Exit(ExitStatus::Failure) })
                },
                Event::Compiled(outcome) => match report_failure(&outcome, controller.platform) {
                    Ok(reported) => {
                        let mut outputs: Vec<Output> = Vec::new();
                        if let Some(failure) = reported {
                            outputs.push(failure);
                        }
                        outputs.push(Output::Stdout(String::from_str("Press Ctrl+C to exit...\n")));
                        let step = Step { outputs, action: Action::Poll { after_ms: POLL_INTERVAL_MS } };
                        assert(step@.outputs =~= self@.next(event@).1.outputs);
                        (controller, step)
                    },
                    Err(defect) => {
                        controller.phase = Phase::Failed;
                        (controller, quiet_step(Action::Abort(defect)))
                    },
                },
                Event::SpawnFailed => {
                    controller.phase = Phase::Failed;
                    (controller, quiet_step(Action::Abort(Defect::SpawnFailed)))
                },
            },
        }
    }
}

/// The watcher after a series of events.
pub open spec fn run(start: ControllerView, events: Seq<EventView>) -> ControllerView
    decreases events.len(),
{
    if events.len() == 0 {
        start
    } else {
        run(start.next(events[0]).0, events.drop_first())
    }
}

/// How many compiler runs the watcher asks for along a series of events.
pub open spec fn compile_requests(start: ControllerView, events: Seq<EventView>) -> nat
    decreases events.len(),
{
    if events.len() == 0 {
        0
    } else {
        let (after, step) = start.next(events[0]);
        let first: nat = if step.action is Compile {
            1
        } else {
            0
        };
        first + compile_requests(after, events.drop_first())
    }
}

/// Whether every poll among `events` read the modification time `observed`.
pub open spec fn polls_read(events: Seq<EventView>, observed: int) -> bool {
    forall|i: int|
        0 <= i < events.len() ==> (#[trigger] events[i] matches EventView::Polled(t) ==> t
            == observed)
}

/// The first poll always compiles: whatever modification time it reads,
/// a watcher at start records it and asks for a compiler run on its file,
/// with the backend resolved at start.
pub proof fn lemma_first_tick_compiles(
    filename: Seq<char>,
    latex_type: LatexType,
    platform: Platform,
    observed: int,
)
    ensures
        ControllerView::initial(filename, latex_type, platform).next(
            EventView::Polled(observed),
        ).1 == quiet(
            ActionView::Compile(InvocationRequestView { filename, latex_type, platform }),
        ),
        ControllerView::initial(filename, latex_type, platform).next(
            EventView::Polled(observed),
        ).0.last_modified == Some(observed),
{
}

/// The watcher asks for a compiler run in one case only: it is watching,
/// the event is a poll, and the change detector says that the file has
/// changed. The run it asks for is that of its own file, backend and
/// platform.
pub proof fn lemma_compile_only_on_change(watcher: ControllerView, event: EventView)
    ensures
        watcher.next(event).1.action is Compile <==> watcher.phase == Phase::Watching && (
        event matches EventView::Polled(observed) && should_recompile(
            watcher.last_modified,
            observed,
        )),
        watcher.next(event).1.action matches ActionView::Compile(request) ==> request
            == watcher.request(),
{
}

/// Shutdown is final. A watcher that has left the `Watching` phase is not
/// changed by any event, tells nothing, and asks for nothing but the exit
/// that belongs to its phase: no poll and no compiler run follow.
pub proof fn lemma_stopped_watcher_only_exits(
    watcher: ControllerView,
    events: Seq<EventView>,
    event: EventView,
)
    requires
        watcher.phase != Phase::Watching,
    ensures
        run(watcher, events) == watcher,
        compile_requests(watcher, events) == 0,
        watcher.next(event).0 == watcher,
        watcher.next(event).1.outputs == Seq::<OutputView>::empty(),
        watcher.next(event).1.action == ActionView::Exit(
            if watcher.phase == Phase::Terminating {
                ExitStatus::Success
            } else {
                ExitStatus::Failure
            },
        ),
    decreases events.len(),
{
    if events.len() > 0 {
        lemma_stopped_watcher_only_exits(watcher, events.drop_first(), event);
    }
}

/// An interrupt ends the watch at once, whatever the watcher remembers:
/// the answer is the farewell and a successful exit, and whatever events
/// still arrive, no compiler run is asked for.
pub proof fn lemma_interrupt_ends_watch(watcher: ControllerView, later: Seq<EventView>)
    requires
        watcher.phase == Phase::Watching,
    ensures
        watcher.next(EventView::Interrupted).1 == interrupt_step(),
        watcher.next(EventView::Interrupted).0.phase == Phase::Terminating,
        compile_requests(watcher.next(EventView::Interrupted).0, later) == 0,
        run(watcher.next(EventView::Interrupted).0, later) == watcher.next(
            EventView::Interrupted,
        ).0,
{
    lemma_stopped_watcher_only_exits(
        watcher.next(EventView::Interrupted).0,
        later,
        EventView::Interrupted,
    );
}

/// A modification time that cannot be read ends the watch with failure:
/// the reason is told, and whatever events still arrive, the watcher stays
/// failed and asks for no compiler run.
pub proof fn lemma_unreadable_file_is_fatal(
    watcher: ControllerView,
    reason: Seq<char>,
    later: Seq<EventView>,
)
    requires
        watcher.phase == Phase::Watching,
    ensures
        watcher.next(EventView::PollFailed(reason)).1.action == ActionView::Exit(
            ExitStatus::Failure,
        ),
        watcher.next(EventView::PollFailed(reason)).1.outputs == fatal_outputs(
            watcher.platform,
            reason,
        ),
        run(watcher.next(EventView::PollFailed(reason)).0, later).phase == Phase::Failed,
        compile_requests(watcher.next(EventView::PollFailed(reason)).0, later) == 0,
{
    lemma_stopped_watcher_only_exits(
        watcher.next(EventView::PollFailed(reason)).0,
        later,
        EventView::Interrupted,
    );
}

/// Reporting never stops the watch. After a compiler run whose output can
/// be read, failed or not, the watcher is unchanged, the status line is
/// the last thing told, and the next poll is asked for.
pub proof fn lemma_report_keeps_watching(watcher: ControllerView, outcome: InvocationOutcomeView)
    requires
        watcher.phase == Phase::Watching,
        report(outcome, watcher.platform) is Ok,
    ensures
        watcher.next(EventView::Compiled(outcome)).0 == watcher,
        watcher.next(EventView::Compiled(outcome)).1.action == next_poll(),
        watcher.next(EventView::Compiled(outcome)).1.outputs.len() == if outcome.success {
            1nat
        } else {
            2nat
        },
        watcher.next(EventView::Compiled(outcome)).1.outputs.last() == OutputView::Stdout(
            status_line(),
        ),
{
}

/// Once the watcher has recorded a modification time, events among which
/// every poll reads that same time ask for no compiler run.
pub proof fn lemma_unchanged_file_is_not_compiled(
    watcher: ControllerView,
    observed: int,
    events: Seq<EventView>,
)
    requires
        watcher.last_modified == Some(observed),
        polls_read(events, observed),
    ensures
        compile_requests(watcher, events) == 0,
    decreases events.len(),
{
    if events.len() > 0 {
        let rest = events.drop_first();
        assert forall|i: int| 0 <= i < rest.len() implies (#[trigger] rest[i] matches EventView::Polled(
            t,
        ) ==> t == observed) by {
            assert(rest[i] == events[i + 1]);
        }
        assert(events[0] matches EventView::Polled(t) ==> t == observed);
        lemma_unchanged_file_is_not_compiled(watcher.next(events[0]).0, observed, rest);
    }
}

/// One change, one compiler run. Whatever the watcher remembers, events
/// among which every poll reads the same modification time ask for at
/// most one compiler run, however many polls there are and whatever
/// happens between them.
pub proof fn lemma_one_change_compiles_once(
    watcher: ControllerView,
    observed: int,
    events: Seq<EventView>,
)
    requires
        polls_read(events, observed),
    ensures
        compile_requests(watcher, events) <= 1,
    decreases events.len(),
{
    if events.len() > 0 {
        let rest = events.drop_first();
        let after = watcher.next(events[0]).0;
        assert forall|i: int| 0 <= i < rest.len() implies (#[trigger] rest[i] matches EventView::Polled(
            t,
        ) ==> t == observed) by {
            assert(rest[i] == events[i + 1]);
        }
        assert(events[0] matches EventView::Polled(t) ==> t == observed);
        if watcher.next(events[0]).1.action is Compile {
            assert(after.last_modified == Some(observed));
            lemma_unchanged_file_is_not_compiled(after, observed, rest);
        } else {
            lemma_one_change_compiles_once(after, observed, rest);
        }
    }
}

/// Whether an interrupt is among `events`.
pub open spec fn has_interrupt(events: Seq<EventView>) -> bool {
    exists|i: int| 0 <= i < events.len() && #[trigger] events[i] is Interrupted
}

/// Whether `event` is one that a watch survives: a modification time that
/// was read, or a compiler run whose report can be made.
pub open spec fn is_survivable(event: EventView, platform: Platform) -> bool {
    match event {
        EventView::Polled(_) => true,
        EventView::Compiled(outcome) => report(outcome, platform) is Ok,
        _ => false,
    }
}

/// Success comes by interrupt only: a watcher ends in the `Terminating`
/// phase, whose exit is the successful one, only where an interrupt was
/// among the events, and an answer asks for the successful exit only to
/// an interrupt or after one.
pub proof fn lemma_success_only_by_interrupt(
    watcher: ControllerView,
    events: Seq<EventView>,
    event: EventView,
)
    requires
        watcher.phase == Phase::Watching,
    ensures
        run(watcher, events).phase == Phase::Terminating ==> has_interrupt(events),
        run(watcher, events).next(event).1.action == ActionView::Exit(ExitStatus::Success)
            ==> has_interrupt(events.push(event)),
    decreases events.len(),
{
    if events.len() > 0 {
        let rest = events.drop_first();
        let after = watcher.next(events[0]).0;
        assert(events.push(event).drop_first() =~= rest.push(event));
        if events[0] is Interrupted {
            assert(events.push(event)[0] is Interrupted);
        } else if after.phase == Phase::Watching {
            lemma_success_only_by_interrupt(after, rest, event);
            if has_interrupt(rest) {
                let i = choose|i: int| 0 <= i < rest.len() && #[trigger] rest[i] is Interrupted;
                assert(events[i + 1] is Interrupted);
            }
            if has_interrupt(rest.push(event)) {
                let i = choose|i: int|
                    0 <= i < rest.push(event).len() && #[trigger] rest.push(event)[i] is Interrupted;
                assert(events.push(event)[i + 1] is Interrupted);
            }
        } else {
            lemma_stopped_watcher_only_exits(after, rest, event);
        }
    } else {
        if event is Interrupted {
            assert(events.push(event)[0] is Interrupted);
        }
    }
}

/// The watch goes on until something ends it: as long as every
/// modification time can be read and every compiler run can be reported,
/// be it failed or not, the watcher stays in the `Watching` phase.
pub proof fn lemma_watch_goes_on(watcher: ControllerView, events: Seq<EventView>)
    requires
        watcher.phase == Phase::Watching,
        forall|i: int| 0 <= i < events.len() ==> is_survivable(#[trigger] events[i], watcher.platform),
    ensures
        run(watcher, events).phase == Phase::Watching,
    decreases events.len(),
{
    if events.len() > 0 {
        let rest = events.drop_first();
        assert(is_survivable(events[0], watcher.platform));
        assert forall|i: int| 0 <= i < rest.len() implies is_survivable(
            #[trigger] rest[i],
            watcher.platform,
        ) by {
            assert(rest[i] == events[i + 1]);
        }
        lemma_watch_goes_on(watcher.next(events[0]).0, rest);
    }
}

} // verus!
