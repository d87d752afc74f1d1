//! The run of an ordered list of stages, as a state machine.
//!
//! The runner decides; its driver acts. The driver hands the runner one
//! event at a time and carries out the action that comes back: it executes a
//! stage against its timeout, runs the stage's teardown, or ends the run.

use vstd::prelude::*;

use crate::case::{effective_timeout, Case};
use crate::executable::Executable;
use crate::harness::Harness;
use crate::text::{decimal, decimal_text};
use crate::time::TimeSpan;

verus! {

/// A requested stage, paired with its case of the catalog.
pub struct Step<'a, F> {
    /// The case that verifies the stage.
    pub case: &'a Case<F>,
    /// The prefix of the log lines of the stage.
    pub log_prefix: &'a str,
    /// The title of the stage, for people.
    pub title: &'a str,
}

/// What a [`Step`] holds.
pub struct StepView<F> {
    pub case: Case<F>,
    pub log_prefix: Seq<char>,
    pub title: Seq<char>,
}

impl<'a, F> View for Step<'a, F> {
    type V = StepView<F>;

    open spec fn view(&self) -> StepView<F> {
        StepView { case: *self.case, log_prefix: self.log_prefix@, title: self.title@ }
    }
}

/// What each of `steps` holds.
pub open spec fn step_views<'a, F>(steps: Seq<Step<'a, F>>) -> Seq<StepView<F>> {
    Seq::new(steps.len(), |i: int| steps[i]@)
}

/// How the verification function of a stage ended.
#[derive(Debug, PartialEq, Eq)]
pub enum StageOutcome {
    /// The function returned success within the timeout.
    Passed,
    /// The function returned an error within the timeout; this is its text.
    Failed(String),
    /// The timeout passed before the function returned.
    TimedOut,
}

impl StageOutcome {
    /// The outcome of a stage, given what its verification function
    /// delivered before the timeout passed: nothing, success, or the text of
    /// an error. A function that delivers nothing in time, for whatever
    /// reason, has timed out.
    pub fn observed(delivered: Option<Result<(), String>>) -> (outcome: StageOutcome)
        ensures
            outcome == match delivered {
                Some(Ok(_)) => StageOutcome::Passed,
                Some(Err(reason)) => StageOutcome::Failed(reason),
                None => StageOutcome::TimedOut,
            },
    {
        match delivered {
            Some(Ok(_)) => StageOutcome::Passed,
            Some(Err(reason)) => StageOutcome::Failed(reason),
            None => StageOutcome::TimedOut,
        }
    }
}

/// Where a run stands. Stages are numbered from zero, in the order given.
#[derive(Debug, Clone, Copy, PartialEq, Eq)]
pub enum RunState {
    /// No stage has started.
    Pending,
    /// The stage executes.
    Running(usize),
    /// The stage passed; its teardown is due.
    Passed(usize),
    /// The stage failed; its teardown is due.
    Failed(usize),
    /// The stage ran out of time; its teardown is due.
    TimedOut(usize),
    /// Every stage passed.
    Succeeded,
    /// A stage did not pass, and the run stopped there.
    Aborted,
}

/// What the driver reports to the runner.
#[derive(Debug, PartialEq, Eq)]
pub enum RunEvent {
    /// The driver is ready for the next stage: at the start of the run, and
    /// each time the teardown of a stage is done.
    Advance,
    /// The stage that executes has ended.
    Concluded(StageOutcome),
}

/// The weight of a log line.
#[derive(Debug, Clone, Copy, PartialEq, Eq)]
pub enum Level {
    Info,
    Error,
}

/// One line for the log of the run.
#[derive(Debug, PartialEq, Eq)]
pub struct LogLine {
    pub level: Level,
    pub text: String,
}

/// What the driver is to do next.
pub enum RunAction<P, A> {
    /// Write `log`, after an empty line where `separate` is set. Then execute
    /// the verification function of stage `index` with `harness`, in a unit
    /// of its own, for `timeout` at most, and report how it ended.
    Launch { index: usize, harness: Harness<P, A>, timeout: TimeSpan, separate: bool, log: Vec<LogLine> },
    /// Write `log`. Then run the teardown of stage `index`, and report that
    /// the run may advance.
    Teardown { index: usize, log: Vec<LogLine> },
    /// The run is over, with this verdict.
    Finish { verdict: bool },
    /// The event does not apply to the state of the run. Nothing changed.
    Ignored,
}

/// The kind of action that answers an event.
pub enum Plan {
    Launch(usize),
    Teardown(usize),
    Finish(bool),
    Ignore,
}

/// The state of a stage that has ended with `outcome`.
pub open spec fn concluded(index: usize, outcome: StageOutcome) -> RunState {
    match outcome {
        StageOutcome::Passed => RunState::Passed(index),
        StageOutcome::Failed(_) => RunState::Failed(index),
        StageOutcome::TimedOut => RunState::TimedOut(index),
    }
}

/// The state that a run of `stages` stages is in after `event` arrived in
/// `state`.
///
/// A run advances from its start, and from a stage that passed, to the next
/// stage, or to success where none is left. From a stage that did not pass
/// it advances to the abort. A stage that executes waits for its outcome.
/// Any other event leaves the state as it is.
pub open spec fn next_state(state: RunState, stages: nat, event: RunEvent) -> RunState {
    match (state, event) {
        (RunState::Pending, RunEvent::Advance) => if stages == 0 {
            RunState::Succeeded
        } else {
            RunState::Running(0)
        },
        (RunState::Passed(index), RunEvent::Advance) => if index + 1 < stages {
            RunState::Running((index + 1) as usize)
        } else {
            RunState::Succeeded
        },
        (RunState::Failed(_), RunEvent::Advance) => RunState::Aborted,
        (RunState::TimedOut(_), RunEvent::Advance) => RunState::Aborted,
        (RunState::Running(index), RunEvent::Concluded(outcome)) => concluded(index, outcome),
        _ => state,
    }
}

/// The verdict of a run that is over: success only where every stage passed.
pub open spec fn verdict(state: RunState) -> Option<bool> {
    match state {
        RunState::Succeeded => Some(true),
        RunState::Aborted => Some(false),
        _ => None,
    }
}

/// The kind of action that answers `event` in `state`: a launch exactly when
/// the run enters a stage, a teardown exactly when a stage has ended, the
/// verdict once the run is over.
pub open spec fn planned(state: RunState, stages: nat, event: RunEvent) -> Plan {
    match (state, event) {
        (RunState::Succeeded, _) => Plan::Finish(true),
        (RunState::Aborted, _) => Plan::Finish(false),
        (RunState::Running(index), RunEvent::Concluded(_)) => Plan::Teardown(index),
        (RunState::Running(_), RunEvent::Advance) => Plan::Ignore,
        (_, RunEvent::Concluded(_)) => Plan::Ignore,
        (_, RunEvent::Advance) => match next_state(state, stages, event) {
            RunState::Running(index) => Plan::Launch(index),
            RunState::Succeeded => Plan::Finish(true),
            _ => Plan::Finish(false),
        },
    }
}

/// What log lines say: the level and the text of each.
pub open spec fn shown(log: Seq<LogLine>) -> Seq<(Level, Seq<char>)> {
    Seq::new(log.len(), |i: int| (log[i].level, log[i].text@))
}

/// The last line about a stage that did not pass. Without debug mode it
/// says how to see more.
pub open spec fn failure_hint(is_debug: bool) -> Seq<char> {
    if is_debug {
        "Test failed"@
    } else {
        "Test failed (try setting 'debug: true' in your codecrafters.yml to see more details)"@
    }
}

/// The lines that announce the stage titled `title`.
pub open spec fn launch_log(title: Seq<char>) -> Seq<(Level, Seq<char>)> {
    seq![(Level::Info, "Running tests for "@ + title)]
}

/// The lines that report how a stage ended whose timeout was `timeout`
/// nanoseconds.
pub open spec fn outcome_log(outcome: StageOutcome, timeout: nat, is_debug: bool) -> Seq<
    (Level, Seq<char>),
> {
    match outcome {
        StageOutcome::Passed => seq![(Level::Info, "Test passed."@)],
        StageOutcome::Failed(reason) => seq![
            (Level::Error, reason@),
            (Level::Error, failure_hint(is_debug)),
        ],
        StageOutcome::TimedOut => seq![
            (
                Level::Error,
                "timed out, test exceeded "@ + decimal(timeout / 1_000_000_000) + " seconds"@,
            ),
            (Level::Error, failure_hint(is_debug)),
        ],
    }
}

/// The state of a [`Runner`].
pub struct RunnerView<'a, F> {
    /// The stages of the run, in order.
    pub steps: Seq<Step<'a, F>>,
    /// Whether only critical lines are wanted.
    pub quiet: bool,
    /// Where the run stands.
    pub state: RunState,
}

/// A run of stages, one after the other, that stops at the first stage that
/// does not pass.
pub struct Runner<'a, F> {
    steps: Vec<Step<'a, F>>,
    _is_quiet: bool,
    state: RunState,
}

impl<'a, F> View for Runner<'a, F> {
    type V = RunnerView<'a, F>;

    closed spec fn view(&self) -> RunnerView<'a, F> {
        RunnerView { steps: self.steps@, quiet: self._is_quiet, state: self.state }
    }
}

/// The two lines that report an error of a stage.
fn report_test_error(err: String, is_debug: bool) -> (log: Vec<LogLine>)
    ensures
        shown(log@) == seq![(Level::Error, err@), (Level::Error, failure_hint(is_debug))],
{
    let hint: String = if is_debug {
        String::from_str("Test failed")
    } else {
        String::from_str(
            "Test failed (try setting 'debug: true' in your codecrafters.yml to see more details)",
        )
    };
    let mut log: Vec<LogLine> = Vec::new();
    log.push(LogLine { level: Level::Error, text: err });
    log.push(LogLine { level: Level::Error, text: hint });
    log
}

impl<'a, F> Runner<'a, F> {
    #[verifier::type_invariant]
    spec fn stage_exists(self) -> bool {
        match self.state {
            RunState::Running(index) => index < self.steps@.len(),
            RunState::Passed(index) => index < self.steps@.len(),
            RunState::Failed(index) => index < self.steps@.len(),
            RunState::TimedOut(index) => index < self.steps@.len(),
            _ => true,
        }
    }

    /// A run of `steps` that has not started.
    pub fn new(steps: Vec<Step<'a, F>>) -> (runner: Runner<'a, F>)
        ensures
            runner@ == (RunnerView { steps: steps@, quiet: false, state: RunState::Pending }),
    {
        Runner { steps, _is_quiet: false, state: RunState::Pending }
    }

    /// A run of `steps` that has not started, for which only critical lines
    /// are wanted.
    pub fn new_quiet(steps: Vec<Step<'a, F>>) -> (runner: Runner<'a, F>)
        ensures
            runner@ == (RunnerView { steps: steps@, quiet: true, state: RunState::Pending }),
    {
        Runner { steps, _is_quiet: true, state: RunState::Pending }
    }

    /// Takes the run one event further and says what to do next.
    ///
    /// The new state is [`next_state`] of the old one, and the action is of
    /// the kind that [`planned`] gives. A launch carries a fresh harness
    /// around a copy of `executable`, the timeout of the stage's case and the
    /// line that announces the stage; all stages but the first are set off
    /// by an empty line. A teardown carries the lines that report the
    /// outcome, in the long or the short form as `is_debug` says.
    pub fn run<P: Clone, A>(
        &mut self,
        is_debug: bool,
        executable: &Executable<P>,
        event: RunEvent,
    ) -> (action: RunAction<P, A>)
        ensures
            final(self)@.steps == old(self)@.steps,
            final(self)@.quiet == old(self)@.quiet,
            final(self)@.state == next_state(old(self)@.state, old(self)@.steps.len(), event),
            match planned(old(self)@.state, old(self)@.steps.len(), event) {
                Plan::Launch(stage) => {
                    &&& action matches RunAction::Launch { index, harness, timeout, separate, log }
                    &&& index == stage
                    &&& stage < old(self)@.steps.len()
                    &&& cloned::<Executable<P>>(*executable, harness@.executable)
                    &&& harness@.teardowns == Seq::<A>::empty()
                    &&& timeout@ == effective_timeout(old(self)@.steps[stage as int].case.timeout)
                    &&& separate == (stage != 0)
                    &&& shown(log@) == launch_log(old(self)@.steps[stage as int].title@)
                },
                Plan::Teardown(stage) => {
                    &&& action matches RunAction::Teardown { index, log }
                    &&& index == stage
                    &&& stage < old(self)@.steps.len()
                    &&& event matches RunEvent::Concluded(outcome)
                    &&& shown(log@) == outcome_log(
                        outcome,
                        effective_timeout(old(self)@.steps[stage as int].case.timeout),
                        is_debug,
                    )
                },
                Plan::Finish(result) => action matches RunAction::Finish { verdict: given }
                    && given == result,
                Plan::Ignore => action is Ignored,
            },
    {
        proof {
            use_type_invariant(&*self);
        }
        let state: RunState = self.state;
        let count: usize = self.steps.len();
        match event {
            RunEvent::Advance => {
                let next: usize = match state {
                    RunState::Pending => 0,
                    RunState::Passed(index) => index + 1,
                    RunState::Failed(_) => {
                        self.state = RunState::Aborted;
                        return RunAction::Finish { verdict: false };
                    },
                    RunState::TimedOut(_) => {
                        self.state = RunState::Aborted;
                        return RunAction::Finish { verdict: false };
                    },
                    RunState::Succeeded => {
                        return RunAction::Finish { verdict: true };
                    },
                    RunState::Aborted => {
                        return RunAction::Finish { verdict: false };
                    },
                    RunState::Running(_) => {
                        return RunAction::Ignored;
                    },
                };
                if next >= count {
                    self.state = RunState::Succeeded;
                    return RunAction::Finish { verdict: true };
                }
                let step: &Step<'a, F> = &self.steps[next];
                let mut text: String = String::from_str("Running tests for ");
                text.append(step.title);
                let mut log: Vec<LogLine> = Vec::new();
                log.push(LogLine { level: Level::Info, text });
                let timeout: TimeSpan = step.case.default_timeout();
                let harness: Harness<P, A> = Harness::new(executable.clone());
                self.state = RunState::Running(next);
                RunAction::Launch { index: next, harness, timeout, separate: next != 0, log }
            },
            RunEvent::Concluded(outcome) => {
                let index: usize = match state {
                    RunState::Running(index) => index,
                    RunState::Succeeded => {
                        return RunAction::Finish { verdict: true };
                    },
                    RunState::Aborted => {
                        return RunAction::Finish { verdict: false };
                    },
                    _ => {
                        return RunAction::Ignored;
                    },
                };
                let timeout: TimeSpan = self.steps[index].case.default_timeout();
                match outcome {
                    StageOutcome::Passed => {
                        let mut log: Vec<LogLine> = Vec::new();
                        log.push(
                            LogLine { level: Level::Info, text: String::from_str("Test passed.") },
                        );
                        self.state = RunState::Passed(index);
                        RunAction::Teardown { index, log }
                    },
                    StageOutcome::Failed(reason) => {
                        let log: Vec<LogLine> = report_test_error(reason, is_debug);
                        self.state = RunState::Failed(index);
                        RunAction::Teardown { index, log }
                    },
                    StageOutcome::TimedOut => {
                        let mut err: String = String::from_str("timed out, test exceeded ");
                        err.append(decimal_text(timeout.as_secs()).as_str());
                        err.append(" seconds");
                        let log: Vec<LogLine> = report_test_error(err, is_debug);
                        self.state = RunState::TimedOut(index);
                        RunAction::Teardown { index, log }
                    },
                }
            },
        }
    }

    /// The stages of the run, in order.
    pub fn steps(&self) -> (steps: &Vec<Step<'a, F>>)
        ensures
            steps@ == self@.steps,
    {
        &self.steps
    }

    /// Where the run stands.
    pub fn state(&self) -> (state: RunState)
        ensures
            state == self@.state,
    {
        self.state
    }
}

/// What a run came to: the state it ended in and the stages that were
/// launched on the way, in order.
pub struct Trace {
    pub end: RunState,
    pub launched: Seq<int>,
}

/// Whether a state awaits neither an outcome nor the end: the driver
/// advances from it.
pub open spec fn advances(state: RunState) -> bool {
    !(state is Running) && verdict(state) is None
}

/// The run that a driver makes from `state` when it follows every action
/// and its stages end with `outcomes`, one after the other: it advances
/// wherever the run can advance, and reports the next outcome wherever a
/// stage executes. The run stops when it is over, or when a stage executes
/// and no outcome is left to report.
pub open spec fn follow(state: RunState, stages: nat, outcomes: Seq<StageOutcome>) -> Trace
    decreases outcomes.len(), (if advances(state) { 1nat } else { 0nat }),
{
    if advances(state) {
        let next = next_state(state, stages, RunEvent::Advance);
        let rest = follow(next, stages, outcomes);
        match next {
            RunState::Running(index) => Trace {
                end: rest.end,
                launched: seq![index as int] + rest.launched,
            },
            _ => rest,
        }
    } else if state is Running && outcomes.len() > 0 {
        follow(
            next_state(state, stages, RunEvent::Concluded(outcomes[0])),
            stages,
            outcomes.skip(1),
        )
    } else {
        Trace { end: state, launched: Seq::empty() }
    }
}

/// From a stage that executes, with every stage from it on passing, the run
/// launches each later stage and succeeds.
proof fn lemma_passing_run_succeeds(index: usize, stages: nat, outcomes: Seq<StageOutcome>)
    requires
        index < stages <= usize::MAX,
        outcomes.len() == stages - index,
        forall|i: int| 0 <= i < outcomes.len() ==> outcomes[i] is Passed,
    ensures
        follow(RunState::Running(index), stages, outcomes) == (Trace {
            end: RunState::Succeeded,
            launched: Seq::new((stages - index - 1) as nat, |i: int| index + 1 + i),
        }),
    decreases outcomes.len(),
{
    let passed = RunState::Passed(index);
    let rest = outcomes.skip(1);
    if index + 1 < stages {
        let next = (index + 1) as usize;
        lemma_passing_run_succeeds(next, stages, rest);
        assert(follow(passed, stages, rest).launched =~= Seq::new(
            (stages - index - 1) as nat,
            |i: int| index + 1 + i,
        ));
    } else {
        assert(follow(RunState::Succeeded, stages, rest).launched =~= Seq::new(
            (stages - index - 1) as nat,
            |i: int| index + 1 + i,
        ));
    }
}

/// From a stage that executes, with `first_bad` the first stage that does
/// not pass, the run launches the stages up to `first_bad` and aborts.
proof fn lemma_failing_run_aborts(
    index: usize,
    stages: nat,
    outcomes: Seq<StageOutcome>,
    first_bad: nat,
)
    requires
        index <= first_bad < stages <= usize::MAX,
        outcomes.len() > first_bad - index,
        forall|i: int| 0 <= i < first_bad - index ==> outcomes[i] is Passed,
        !(outcomes[first_bad - index] is Passed),
    ensures
        follow(RunState::Running(index), stages, outcomes) == (Trace {
            end: RunState::Aborted,
            launched: Seq::new((first_bad - index) as nat, |i: int| index + 1 + i),
        }),
    decreases first_bad - index,
{
    let rest = outcomes.skip(1);
    let ended = next_state(RunState::Running(index), stages, RunEvent::Concluded(outcomes[0]));
    if index == first_bad {
        assert(follow(RunState::Aborted, stages, rest).launched =~= Seq::new(
            0nat,
            |i: int| index + 1 + i,
        ));
    } else {
        let next = (index + 1) as usize;
        lemma_failing_run_aborts(next, stages, rest, first_bad);
        assert(follow(ended, stages, rest).launched =~= Seq::new(
            (first_bad - index) as nat,
            |i: int| index + 1 + i,
        ));
    }
}

/// Where every stage passes, the run succeeds: it launches every stage, in
/// order, and its verdict is success.
pub proof fn law_all_stages_pass_is_success(stages: nat, outcomes: Seq<StageOutcome>)
    requires
        stages <= usize::MAX,
        outcomes.len() == stages,
        forall|i: int| 0 <= i < outcomes.len() ==> outcomes[i] is Passed,
    ensures
        follow(RunState::Pending, stages, outcomes).end == RunState::Succeeded,
        verdict(follow(RunState::Pending, stages, outcomes).end) == Some(true),
        follow(RunState::Pending, stages, outcomes).launched == Seq::new(stages, |i: int| i),
{
    if stages > 0 {
        lemma_passing_run_succeeds(0, stages, outcomes);
    } else {
        assert(follow(RunState::Succeeded, stages, outcomes).end == RunState::Succeeded);
    }
}

/// Where stage `first_bad` is the first that fails or runs out of time, the
/// run launches the stages up to and including it, launches none after it,
/// and its verdict is failure, whatever the later stages would have done.
pub proof fn law_first_failure_aborts(stages: nat, outcomes: Seq<StageOutcome>, first_bad: nat)
    requires
        first_bad < stages <= usize::MAX,
        first_bad < outcomes.len(),
        forall|i: int| 0 <= i < first_bad ==> outcomes[i] is Passed,
        !(outcomes[first_bad as int] is Passed),
    ensures
        follow(RunState::Pending, stages, outcomes).end == RunState::Aborted,
        verdict(follow(RunState::Pending, stages, outcomes).end) == Some(false),
        follow(RunState::Pending, stages, outcomes).launched == Seq::new(
            first_bad + 1,
            |i: int| i,
        ),
{
    lemma_failing_run_aborts(0, stages, outcomes, first_bad);
}

/// A run that is over stays over: no event changes its state, and every
/// event is answered with the verdict, never with a launch.
pub proof fn law_finished_run_stays_finished(state: RunState, stages: nat, event: RunEvent)
    requires
        verdict(state) is Some,
    ensures
        next_state(state, stages, event) == state,
        planned(state, stages, event) == Plan::Finish(verdict(state)->Some_0),
{
}

/// A stage is launched only by advancing from the start of the run or from a
/// stage that passed, and the stage launched after stage `i` is stage
/// `i + 1`: stages run one at a time, in the order given, and none runs
/// after a stage that did not pass.
pub proof fn law_launches_follow_passes(state: RunState, stages: nat, event: RunEvent)
    requires
        planned(state, stages, event) is Launch,
    ensures
        event is Advance,
        state is Pending || state is Passed,
        state is Pending ==> planned(state, stages, event) == Plan::Launch(0),
        state matches RunState::Passed(index) ==> planned(state, stages, event) == Plan::Launch(
            (index + 1) as usize,
        ),
{
}

/// A teardown is due exactly when a stage that executes has ended, whether
/// it passed, failed or ran out of time.
pub proof fn law_teardown_follows_every_outcome(index: usize, stages: nat, outcome: StageOutcome)
    ensures
        planned(RunState::Running(index), stages, RunEvent::Concluded(outcome)) == Plan::Teardown(
            index,
        ),
        next_state(RunState::Running(index), stages, RunEvent::Concluded(outcome)) == concluded(
            index,
            outcome,
        ),
        advances(concluded(index, outcome)),
{
}

} // verus!
