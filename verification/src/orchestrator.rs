//! The order of a run. A run is a fixed sequence of steps; each step but the
//! first launches one task per entity and is left only when every one of
//! them has finished, whether it succeeded or not. The driver performs what
//! the run commands and reports back what happened.

use crate::kind::Kind;
use vstd::prelude::*;

verus! {

/// What a run covers.
#[derive(Debug, Clone, Copy, PartialEq, Eq, Structural)]
pub enum Plan {
    /// Pull every entity from the source and save its snapshot.
    Export,
    /// Replay every saved snapshot against the destination.
    Import,
    /// Export, then import.
    Migrate,
}

/// One step of a run.
#[derive(Debug, Clone, Copy, PartialEq, Eq, Structural)]
pub enum Step {
    /// Make sure that the directories for the snapshots exist.
    Prepare,
    /// Fetch and save the entities of a kind.
    Export(Kind),
    /// Load and upload the snapshots of a kind.
    Import(Kind),
    /// Every step of the plan has been left.
    Done,
    /// The directories could not be made; nothing else was attempted.
    Aborted,
}

/// What the driver reports to the run.
#[derive(Debug, Clone, Copy, PartialEq, Eq, Structural)]
pub enum Event {
    /// The directories exist (`true`) or could not be made (`false`).
    Prepared(bool),
    /// The entities of the step are known and one task was launched for each.
    Launched(usize),
    /// One task has finished, successfully (`true`) or not (`false`).
    Finished(bool),
}

/// What the run asks of the driver.
#[derive(Debug, Clone, Copy, PartialEq, Eq, Structural)]
pub enum Command {
    /// Make the directories and report `Prepared`.
    Prepare,
    /// Find the entities of the step, launch their tasks, report `Launched`.
    Launch(Step),
    /// Wait for a task to finish and report `Finished`.
    Wait,
    /// Nothing is left to do.
    Stop,
}

/// How the tasks of a step are run.
#[derive(Debug, Clone, Copy, PartialEq, Eq, Structural)]
pub enum Fanout {
    /// All at once, each on its own.
    Concurrent,
    /// One after the other.
    Sequential,
}

/// The tasks of one step: how many were launched, how many of them have
/// finished, and how many of those failed.
#[derive(Debug, Clone, Copy, PartialEq, Eq, Structural)]
pub struct Tally {
    pub launched: usize,
    pub finished: usize,
    pub failed: usize,
}

/// A run as mathematics.
pub struct Progress {
    pub plan: Plan,
    /// How many steps of the plan have been left.
    pub position: nat,
    pub aborted: bool,
    /// The tasks of the step at hand, once they have been launched.
    pub current: Option<Tally>,
    /// The tasks of the steps that have been left, in order.
    pub closed: Seq<Tally>,
}

/// The steps of an export, in order: dashboards before folders before
/// datasources, once the directories exist.
pub open spec fn export_step(i: int) -> Step {
    if i == 0 {
        Step::Prepare
    } else if i == 1 {
        Step::Export(Kind::Dashboard)
    } else if i == 2 {
        Step::Export(Kind::Folder)
    } else {
        Step::Export(Kind::Datasource)
    }
}

/// The steps of an import, in order: folders before dashboards before
/// datasources.
pub open spec fn import_step(i: int) -> Step {
    if i == 0 {
        Step::Import(Kind::Folder)
    } else if i == 1 {
        Step::Import(Kind::Dashboard)
    } else {
        Step::Import(Kind::Datasource)
    }
}

/// The number of steps of a plan.
pub open spec fn length(plan: Plan) -> nat {
    match plan {
        Plan::Export => 4,
        Plan::Import => 3,
        Plan::Migrate => 7,
    }
}

/// The step of a plan at a position below its length.
pub open spec fn step_at(plan: Plan, i: int) -> Step {
    match plan {
        Plan::Export => export_step(i),
        Plan::Import => import_step(i),
        Plan::Migrate => if i < 4 {
            export_step(i)
        } else {
            import_step(i - 4)
        },
    }
}

/// How the tasks of a step are run: datasources one after the other, folders
/// and dashboards all at once.
pub open spec fn fanout_of(step: Step) -> Fanout {
    match step {
        Step::Export(Kind::Datasource) | Step::Import(Kind::Datasource) => Fanout::Sequential,
        _ => Fanout::Concurrent,
    }
}

impl Tally {
    /// Whether every task that was launched has finished.
    pub open spec fn joined(self) -> bool {
        self.finished == self.launched
    }

    /// The tally after one more task has finished.
    pub open spec fn with_finished(self, ok: bool) -> Tally {
        Tally {
            launched: self.launched,
            finished: (self.finished + 1) as usize,
            failed: if ok {
                self.failed
            } else {
                (self.failed + 1) as usize
            },
        }
    }
}

impl Progress {
    /// The run of a plan before anything has happened.
    pub open spec fn initial(plan: Plan) -> Progress {
        Progress { plan, position: 0, aborted: false, current: None, closed: Seq::empty() }
    }

    /// The step at hand.
    pub open spec fn step(self) -> Step {
        if self.aborted {
            Step::Aborted
        } else if self.position < length(self.plan) {
            step_at(self.plan, self.position as int)
        } else {
            Step::Done
        }
    }

    /// What the run asks of the driver.
    pub open spec fn command(self) -> Command {
        match self.step() {
            Step::Prepare => Command::Prepare,
            Step::Done | Step::Aborted => Command::Stop,
            step => if self.current is None {
                Command::Launch(step)
            } else {
                Command::Wait
            },
        }
    }

    /// The run once the step at hand has been left with the given tally.
    pub open spec fn leave(self, tally: Tally) -> Progress {
        Progress {
            plan: self.plan,
            position: self.position + 1,
            aborted: false,
            current: None,
            closed: self.closed.push(tally),
        }
    }

    /// The run after an event. An event that the command at hand does not ask
    /// for changes nothing.
    pub open spec fn after(self, event: Event) -> Progress {
        match (self.command(), event) {
            (Command::Prepare, Event::Prepared(true)) => self.leave(
                Tally { launched: 0, finished: 0, failed: 0 },
            ),
            (Command::Prepare, Event::Prepared(false)) => Progress { aborted: true, ..self },
            (Command::Launch(_), Event::Launched(n)) => {
                let tally = Tally { launched: n, finished: 0, failed: 0 };
                if n == 0 {
                    self.leave(tally)
                } else {
                    Progress { current: Some(tally), ..self }
                }
            },
            (Command::Wait, Event::Finished(ok)) => {
                let tally = self.current->0.with_finished(ok);
                if tally.joined() {
                    self.leave(tally)
                } else {
                    Progress { current: Some(tally), ..self }
                }
            },
            _ => self,
        }
    }

    /// The run after a sequence of events.
    pub open spec fn after_all(self, events: Seq<Event>) -> Progress
        decreases events.len(),
    {
        if events.len() == 0 {
            self
        } else {
            self.after_all(events.drop_last()).after(events.last())
        }
    }

    /// What holds of every run: it has left as many steps as its position
    /// says, each of them with every task finished, and the step at hand has
    /// tasks still out if it has launched any.
    pub open spec fn wf(self) -> bool {
        &&& self.position <= length(self.plan)
        &&& self.closed.len() == self.position
        &&& forall|i: int|
            0 <= i < self.closed.len() ==> (#[trigger] self.closed[i]).joined()
                && self.closed[i].failed <= self.closed[i].finished
        &&& self.aborted ==> self.position < length(self.plan) && step_at(
            self.plan,
            self.position as int,
        ) == Step::Prepare && self.current is None
        &&& self.current matches Some(tally) ==> {
            &&& tally.finished < tally.launched
            &&& tally.failed <= tally.finished
            &&& self.position < length(self.plan)
            &&& step_at(self.plan, self.position as int) != Step::Prepare
        }
    }
}

/// A run: what has been done of a plan and what is to be done next.
#[derive(Debug)]
pub struct Run {
    plan: Plan,
    position: usize,
    aborted: bool,
    current: Option<Tally>,
    closed: Vec<Tally>,
}

impl View for Run {
    type V = Progress;

    closed spec fn view(&self) -> Progress {
        Progress {
            plan: self.plan,
            position: self.position as nat,
            aborted: self.aborted,
            current: self.current,
            closed: self.closed@,
        }
    }
}

/// The step of `plan` at `position`, which is below the length of the plan.
fn nth_step(plan: Plan, position: usize) -> (step: Step)
    requires
        position < length(plan),
    ensures
        step == step_at(plan, position as int),
{
    let (export, i): (bool, usize) = match plan {
        Plan::Export => (true, position),
        Plan::Import => (false, position),
        Plan::Migrate => if position < 4 {
            (true, position)
        } else {
            (false, position - 4)
        },
    };
    if export {
        if i == 0 {
            Step::Prepare
        } else if i == 1 {
            Step::Export(Kind::Dashboard)
        } else if i == 2 {
            Step::Export(Kind::Folder)
        } else {
            Step::Export(Kind::Datasource)
        }
    } else {
        if i == 0 {
            Step::Import(Kind::Folder)
        } else if i == 1 {
            Step::Import(Kind::Dashboard)
        } else {
            Step::Import(Kind::Datasource)
        }
    }
}

/// The number of steps of `plan`.
fn plan_length(plan: Plan) -> (n: usize)
    ensures
        n == length(plan),
{
    match plan {
        Plan::Export => 4,
        Plan::Import => 3,
        Plan::Migrate => 7,
    }
}

/// The plan that the argument of a command line asks for: `export`,
/// `import`, or both in turn where there is no argument. Any other word asks
/// for nothing that a run can do.
pub open spec fn plan_of(argument: Option<&str>) -> Option<Plan> {
    match argument {
        Some(word) => if word@ == "export"@ {
            Some(Plan::Export)
        } else if word@ == "import"@ {
            Some(Plan::Import)
        } else {
            None
        },
        None => Some(Plan::Migrate),
    }
}

/// The plan that `argument` asks for.
pub fn plan_for(argument: Option<&str>) -> (r: Option<Plan>)
    ensures
        r == plan_of(argument),
{
    match argument {
        Some(word) => {
            let word = word.to_owned();
            if word == "export".to_owned() {
                Some(Plan::Export)
            } else if word == "import".to_owned() {
                Some(Plan::Import)
            } else {
                None
            }
        },
        None => Some(Plan::Migrate),
    }
}

/// How the tasks of `step` are run.
pub fn fanout(step: Step) -> (r: Fanout)
    ensures
        r == fanout_of(step),
{
    match step {
        Step::Export(Kind::Datasource) | Step::Import(Kind::Datasource) => Fanout::Sequential,
        _ => Fanout::Concurrent,
    }
}

impl Run {
    #[verifier::type_invariant]
    spec fn inv(self) -> bool {
        self@.wf()
    }

    /// The run of `plan` before anything has happened.
    pub fn start(plan: Plan) -> (run: Run)
        ensures
            run@ == Progress::initial(plan),
    {
        Run { plan, position: 0, aborted: false, current: None, closed: Vec::new() }
    }

    /// The step at hand.
    pub fn step(&self) -> (r: Step)
        ensures
            r == self@.step(),
    {
        proof {
            use_type_invariant(self);
        }
        if self.aborted {
            Step::Aborted
        } else if self.position < plan_length(self.plan) {
            nth_step(self.plan, self.position)
        } else {
            Step::Done
        }
    }

    /// What the run asks of the driver.
    pub fn command(&self) -> (r: Command)
        ensures
            r == self@.command(),
    {
        match self.step() {
            Step::Prepare => Command::Prepare,
            Step::Done | Step::Aborted => Command::Stop,
            step => if self.current.is_none() {
                Command::Launch(step)
            } else {
                Command::Wait
            },
        }
    }

    /// The tasks of the steps that have been left, in order.
    pub fn tallies(&self) -> (r: &Vec<Tally>)
        ensures
            r@ == self@.closed,
    {
        &self.closed
    }

    fn leave(self, tally: Tally) -> (next: Run)
        requires
            self@.position < length(self@.plan),
            tally.joined(),
            tally.failed <= tally.finished,
        ensures
            next@ == self@.leave(tally),
    {
        proof {
            use_type_invariant(&self);
        }
        let Run { plan, position, aborted: _, current: _, closed } = self;
        let mut closed = closed;
        closed.push(tally);
        Run { plan, position: position + 1, aborted: false, current: None, closed }
    }

    /// The run after `event`. An event that the command at hand does not ask
    /// for changes nothing.
    pub fn advance(self, event: Event) -> (next: Run)
        ensures
            next@ == self@.after(event),
    {
        proof {
            use_type_invariant(&self);
        }
        match (self.command(), event) {
            (Command::Prepare, Event::Prepared(true)) => self.leave(
                Tally { launched: 0, finished: 0, failed: 0 },
            ),
            (Command::Prepare, Event::Prepared(false)) => {
                let Run { plan, position, aborted: _, current, closed } = self;
                Run { plan, position, aborted: true, current, closed }
            },
            (Command::Launch(_), Event::Launched(n)) => {
                let tally = Tally { launched: n, finished: 0, failed: 0 };
                if n == 0 {
                    self.leave(tally)
                } else {
                    let Run { plan, position, aborted, current: _, closed } = self;
                    Run { plan, position, aborted, current: Some(tally), closed }
                }
            },
            (Command::Wait, Event::Finished(ok)) => {
                let before = match self.current {
                    Some(tally) => tally,
                    None => Tally { launched: 0, finished: 0, failed: 0 },
                };
                let tally = Tally {
                    launched: before.launched,
                    finished: before.finished + 1,
                    failed: if ok {
                        before.failed
                    } else {
                        before.failed + 1
                    },
                };
                if tally.finished == tally.launched {
                    self.leave(tally)
                } else {
                    let Run { plan, position, aborted, current: _, closed } = self;
                    Run { plan, position, aborted, current: Some(tally), closed }
                }
            },
            _ => self,
        }
    }
}

/// The events that report the given outcomes of tasks, one `Finished` each.
pub open spec fn finishes(outcomes: Seq<bool>) -> Seq<Event> {
    outcomes.map_values(|ok: bool| Event::Finished(ok))
}

/// A run starts well-formed.
pub proof fn lemma_initial_wf(plan: Plan)
    ensures
        Progress::initial(plan).wf(),
{
}

/// No event makes a well-formed run ill-formed.
pub proof fn lemma_after_wf(run: Progress, event: Event)
    requires
        run.wf(),
    ensures
        run.after(event).wf(),
{
}

/// Whatever the driver reports, in whatever order, the run stays well-formed.
pub proof fn lemma_after_all_wf(plan: Plan, events: Seq<Event>)
    ensures
        Progress::initial(plan).after_all(events).wf(),
    decreases events.len(),
{
    if events.len() > 0 {
        lemma_after_all_wf(plan, events.drop_last());
        lemma_after_wf(Progress::initial(plan).after_all(events.drop_last()), events.last());
    }
}

/// A run never goes back, and it leaves a step only with every task of that
/// step finished: an event either keeps the position, or moves it on by one,
/// and then files the tally of the step that was at hand, in which as many
/// tasks have finished as were launched.
pub proof fn lemma_step_is_left_joined(run: Progress, event: Event)
    requires
        run.wf(),
    ensures
        ({
            let next = run.after(event);
            &&& next.plan == run.plan
            &&& next.position == run.position || next.position == run.position + 1
            &&& next.position == run.position ==> next.closed == run.closed
            &&& next.position == run.position + 1 ==> {
                &&& next.closed.drop_last() == run.closed
                &&& next.closed.last().joined()
                &&& run.current matches Some(tally) ==> next.closed.last().launched
                    == tally.launched
            }
            &&& run.current is Some && next.position == run.position ==> {
                &&& next.current is Some
                &&& next.current->0.launched == run.current->0.launched
            }
        }),
{
    let next = run.after(event);
    if next.position == run.position + 1 {
        assert(next.closed.drop_last() =~= run.closed);
    }
}

/// Folders before dashboards. Whatever the driver reports, when the run
/// comes to import dashboards it has left the import of folders just before,
/// with every folder task finished.
pub proof fn lemma_folders_before_dashboards(plan: Plan, events: Seq<Event>)
    ensures
        ({
            let run = Progress::initial(plan).after_all(events);
            run.step() == Step::Import(Kind::Dashboard) ==> {
                &&& run.position >= 1
                &&& step_at(plan, run.position - 1) == Step::Import(Kind::Folder)
                &&& run.closed[run.position - 1].joined()
            }
        }),
{
    lemma_after_all_wf(plan, events);
    lemma_plan_is_kept(plan, events);
}

/// Export before import. Whatever the driver reports, when a migration comes
/// to an import step it has left every export step, each with every task
/// finished.
pub proof fn lemma_export_before_import(events: Seq<Event>, kind: Kind)
    ensures
        ({
            let run = Progress::initial(Plan::Migrate).after_all(events);
            run.step() == Step::Import(kind) ==> {
                &&& run.position >= 4
                &&& forall|i: int|
                    0 <= i < 4 ==> step_at(Plan::Migrate, i) == export_step(i) && (
                    #[trigger] run.closed[i]).joined()
            }
        }),
{
    lemma_after_all_wf(Plan::Migrate, events);
    lemma_plan_is_kept(Plan::Migrate, events);
}

/// A run keeps its plan.
proof fn lemma_plan_is_kept(plan: Plan, events: Seq<Event>)
    ensures
        Progress::initial(plan).after_all(events).plan == plan,
    decreases events.len(),
{
    if events.len() > 0 {
        lemma_plan_is_kept(plan, events.drop_last());
    }
}

/// A failure is contained. A task that fails moves the run exactly as one
/// that succeeds: the same step at hand, the same command, the same number
/// of tasks finished. Only the count of failures differs.
pub proof fn lemma_failure_is_contained(run: Progress)
    requires
        run.wf(),
    ensures
        ({
            let good = run.after(Event::Finished(true));
            let bad = run.after(Event::Finished(false));
            &&& bad.position == good.position
            &&& bad.step() == good.step()
            &&& bad.command() == good.command()
            &&& bad.closed.len() == good.closed.len()
            &&& bad.current is Some <==> good.current is Some
            &&& bad.current is Some ==> bad.current->0.finished == good.current->0.finished
        }),
{
}

/// While tasks are out, the step is not left: after `outcomes`, fewer than
/// are still awaited, the run waits at the same position with that many more
/// finished.
proof fn lemma_waits_for_the_rest(run: Progress, outcomes: Seq<bool>)
    requires
        run.wf(),
        run.current is Some,
        outcomes.len() < run.current->0.launched - run.current->0.finished,
    ensures
        ({
            let next = run.after_all(finishes(outcomes));
            &&& next.wf()
            &&& next.plan == run.plan
            &&& next.position == run.position
            &&& next.closed == run.closed
            &&& next.aborted == run.aborted
            &&& next.current is Some
            &&& next.current->0.launched == run.current->0.launched
            &&& next.current->0.finished == run.current->0.finished + outcomes.len()
        }),
    decreases outcomes.len(),
{
    if outcomes.len() > 0 {
        lemma_waits_for_the_rest(run, outcomes.drop_last());
        assert(finishes(outcomes).drop_last() =~= finishes(outcomes.drop_last()));
        assert(finishes(outcomes).last() == Event::Finished(outcomes.last()));
    }
}

/// The barrier. While fewer tasks have reported than were launched, the run
/// stays at the step and commands to wait, whatever the tasks reported.
pub proof fn lemma_step_waits_for_every_task(run: Progress, launched: usize, outcomes: Seq<bool>)
    requires
        run.wf(),
        run.command() is Launch,
        outcomes.len() < launched,
    ensures
        ({
            let next = run.after(Event::Launched(launched)).after_all(finishes(outcomes));
            &&& next.position == run.position
            &&& next.step() == run.step()
            &&& next.command() == Command::Wait
            &&& next.current == Some(
                Tally {
                    launched,
                    finished: outcomes.len() as usize,
                    failed: next.current->0.failed,
                },
            )
        }),
{
    let started = run.after(Event::Launched(launched));
    lemma_waits_for_the_rest(started, outcomes);
}

/// The run gets on. Once the tasks of a step are launched and each has
/// reported that it finished, whether it succeeded or not, the step is left
/// and the next one is at hand.
pub proof fn lemma_all_finished_leaves_step(run: Progress, outcomes: Seq<bool>)
    requires
        run.wf(),
        run.command() is Launch,
        outcomes.len() <= usize::MAX,
    ensures
        ({
            let next = run.after(Event::Launched(outcomes.len() as usize)).after_all(
                finishes(outcomes),
            );
            &&& next.position == run.position + 1
            &&& next.current is None
            &&& next.closed.last().launched == outcomes.len()
            &&& next.closed.last().joined()
        }),
{
    let launched = run.after(Event::Launched(outcomes.len() as usize));
    if outcomes.len() == 0 {
        assert(finishes(outcomes) =~= Seq::<Event>::empty());
    } else {
        lemma_waits_for_the_rest(launched, outcomes.drop_last());
        assert(finishes(outcomes).drop_last() =~= finishes(outcomes.drop_last()));
        assert(finishes(outcomes).last() == Event::Finished(outcomes.last()));
    }
}

} // verus!
