//! The supervisor: starting the backend once, at application start-up.
//!
//! Start-up is a state machine. It locates the executable, asks for it to be
//! spawned, lets a grace period pass and checks that the process is still
//! alive; only then does the process handle go into the shared slot. The
//! embedding program performs each action and reports back what came of it.
//! Whatever happens, start-up ends with a report and an initialised slot: a
//! missing or dead backend leaves the shell running without one.

use vstd::prelude::*;
use crate::liveness::ExitStatus;
use crate::liveness::QueryFailure;
use crate::liveness::WaitReport;
use crate::liveness::check_backend_alive;
use crate::liveness::liveness_of;
use crate::locator::BuildMode;
use crate::locator::candidate_paths;
use crate::locator::candidate_views;
use crate::locator::first_existing;
use crate::locator::search;
use crate::paths::BackendPath;
use crate::paths::PathView;
use crate::readiness::PollerPhase;
use crate::readiness::ReadinessPoller;
use crate::readiness::PROBE_INTERVAL_MILLIS;
use crate::readiness::READINESS_TIMEOUT_MILLIS;
use crate::slot::SlotView;
use crate::slot::SupervisionSlot;

verus! {

/// How long to wait after a spawn before the first liveness check, in
/// milliseconds: long enough for a backend that fails at once to be gone.
pub const GRACE_MILLIS: u64 = 2_000;

/// The process-creation flag that keeps a console program from opening a
/// window of its own. It means something on Windows only.
pub const CREATE_NO_WINDOW: u32 = 0x0800_0000;

/// Where a standard stream of the child goes.
#[derive(Clone, Copy, Debug, PartialEq, Eq, Structural)]
pub enum StdioMode {
    /// Shared with the shell.
    Inherit,
    /// Discarded.
    Null,
    /// Captured through a pipe, to be drained by the shell.
    Piped,
}

/// How the backend is to be spawned.
#[derive(Debug, PartialEq, Eq)]
pub struct SpawnRequest {
    /// The executable to run.
    pub executable: BackendPath,
    /// The directory to run it in, where there is one to name.
    pub working_dir: Option<BackendPath>,
    /// Where its standard output goes.
    pub stdout: StdioMode,
    /// Where its standard error goes.
    pub stderr: StdioMode,
    /// Process-creation flags to pass on platforms that know them.
    pub creation_flags: Option<u32>,
}

/// A spawn request as a mathematical value.
pub ghost struct SpawnRequestView {
    pub executable: PathView,
    pub working_dir: Option<PathView>,
    pub stdout: StdioMode,
    pub stderr: StdioMode,
    pub creation_flags: Option<u32>,
}

impl View for SpawnRequest {
    type V = SpawnRequestView;

    open spec fn view(&self) -> SpawnRequestView {
        SpawnRequestView {
            executable: self.executable@,
            working_dir: self.working_dir.deep_view(),
            stdout: self.stdout,
            stderr: self.stderr,
            creation_flags: self.creation_flags,
        }
    }
}

/// The request that spawns the executable at `executable`: it runs in the
/// directory that contains it, so that it finds what was installed beside
/// it; both output streams are piped; and a packaged build asks for no
/// console window.
pub open spec fn spawn_request_for(executable: PathView, mode: BuildMode) -> SpawnRequestView {
    SpawnRequestView {
        executable,
        working_dir: executable.parent(),
        stdout: StdioMode::Piped,
        stderr: StdioMode::Piped,
        creation_flags: match mode {
            BuildMode::Development => None,
            BuildMode::Packaged => Some(CREATE_NO_WINDOW),
        },
    }
}

/// Builds the request that spawns the executable at `executable`.
pub fn spawn_request(executable: BackendPath, mode: BuildMode) -> (request: SpawnRequest)
    ensures
        request@ == spawn_request_for(executable@, mode),
{
    let working_dir = executable.parent();
    let creation_flags = match mode {
        BuildMode::Development => None,
        BuildMode::Packaged => Some(CREATE_NO_WINDOW),
    };
    SpawnRequest {
        executable,
        working_dir,
        stdout: StdioMode::Piped,
        stderr: StdioMode::Piped,
        creation_flags,
    }
}

/// How start-up ended.
#[derive(Clone, Copy, Debug, PartialEq, Eq, Structural)]
pub enum SupervisionOutcome {
    /// No candidate location holds the executable.
    NoBackend,
    /// The operating system refused the spawn; holds its error number where
    /// there is one.
    SpawnFailed { os_code: Option<i32> },
    /// The process was spawned but was not alive when the grace period had
    /// passed.
    DiedImmediately,
    /// The process is running and its handle is in the slot.
    Running,
}

/// What start-up hands over when it ends.
#[derive(Debug, PartialEq, Eq)]
pub struct StartReport<H> {
    /// How start-up ended.
    pub outcome: SupervisionOutcome,
    /// The shared slot: it holds the process handle if and only if the
    /// outcome is `Running`.
    pub slot: SupervisionSlot<H>,
    /// The readiness poller to run in the background, when the backend is
    /// running. Start-up does not wait for it.
    pub poller: Option<ReadinessPoller>,
    /// The handle of a process that was found dead, handed back to be
    /// disposed of.
    pub dead: Option<H>,
}

/// A start report as a mathematical value.
pub ghost struct StartReportView<H> {
    pub outcome: SupervisionOutcome,
    pub slot: SlotView<H>,
    pub poller: Option<ReadinessPoller>,
    pub dead: Option<H>,
}

impl<H> View for StartReport<H> {
    type V = StartReportView<H>;

    open spec fn view(&self) -> StartReportView<H> {
        StartReportView {
            outcome: self.outcome,
            slot: self.slot@,
            poller: self.poller,
            dead: self.dead,
        }
    }
}

/// The report of a start-up that ended without a running backend and
/// without a process to dispose of.
pub open spec fn report_without_backend<H>(outcome: SupervisionOutcome) -> StartReportView<H> {
    StartReportView { outcome, slot: SlotView::Vacant, poller: None, dead: None }
}

/// The report of a start-up whose process was not alive after the grace
/// period: the slot stays empty and the handle is handed back.
pub open spec fn report_died<H>(handle: H) -> StartReportView<H> {
    StartReportView {
        outcome: SupervisionOutcome::DiedImmediately,
        slot: SlotView::Vacant,
        poller: None,
        dead: Some(handle),
    }
}

/// The report of a start-up whose process is running: the slot holds the
/// handle, and a poller with the standard settings is ready to run.
pub open spec fn report_running<H>(handle: H) -> StartReportView<H> {
    StartReportView {
        outcome: SupervisionOutcome::Running,
        slot: SlotView::Occupied(handle),
        poller: Some(
            ReadinessPoller {
                timeout_millis: READINESS_TIMEOUT_MILLIS,
                interval_millis: PROBE_INTERVAL_MILLIS,
                phase: PollerPhase::AwaitingClock,
            },
        ),
        dead: None,
    }
}

/// What the embedding program tells the supervisor.
#[derive(Debug, PartialEq, Eq)]
pub enum SupervisorEvent<H> {
    /// For each candidate location, in order, whether it exists on disk.
    Probed { exists: Vec<bool> },
    /// The spawn that was asked for succeeded.
    SpawnSucceeded,
    /// The spawn that was asked for failed, with this error number if the
    /// operating system gave one.
    SpawnFailed { os_code: Option<i32> },
    /// The grace period has passed. `handle` is the spawned process and
    /// `report` is what a non-blocking wait on it said just now.
    GraceElapsed { handle: H, report: WaitReport },
}

/// What the supervisor asks the embedding program to do next.
#[derive(Debug, PartialEq, Eq)]
pub enum SupervisorAction<H> {
    /// Spawn the backend as the request says, and report how that went.
    Spawn(SpawnRequest),
    /// Start draining both output streams of the new process, sleep for the
    /// grace period, then report a non-blocking wait on the process.
    AttachDrainsAndWait { grace_millis: u64 },
    /// Start-up has ended.
    Finish(StartReport<H>),
    /// The event does not fit the stage that start-up is in. It is handed
    /// back and nothing has changed.
    Rejected(SupervisorEvent<H>),
}

/// An action as a mathematical value.
pub ghost enum SupervisorActionView<H> {
    Spawn(SpawnRequestView),
    AttachDrainsAndWait { grace_millis: u64 },
    Finish(StartReportView<H>),
    Rejected(SupervisorEvent<H>),
}

impl<H> View for SupervisorAction<H> {
    type V = SupervisorActionView<H>;

    open spec fn view(&self) -> SupervisorActionView<H> {
        match self {
            SupervisorAction::Spawn(request) => SupervisorActionView::Spawn(request@),
            SupervisorAction::AttachDrainsAndWait { grace_millis } => {
                SupervisorActionView::AttachDrainsAndWait { grace_millis: *grace_millis }
            },
            SupervisorAction::Finish(report) => SupervisorActionView::Finish(report@),
            SupervisorAction::Rejected(event) => SupervisorActionView::Rejected(*event),
        }
    }
}

/// The stage that start-up is in.
pub ghost enum StageView {
    /// Waiting to be told which of these candidate locations exist.
    Locating(Seq<PathView>),
    /// A spawn was asked for; waiting to be told how it went.
    Spawning,
    /// The process was spawned; waiting for the check after the grace period.
    Settling,
    /// Start-up has ended and its report was handed over.
    Finished,
}

/// A supervisor as a mathematical value.
pub ghost struct SupervisorView {
    pub mode: BuildMode,
    pub stage: StageView,
}

impl SupervisorView {
    /// A supervisor that has just been created for `mode` and `base_dir`.
    pub open spec fn initial(mode: BuildMode, base_dir: Seq<char>) -> SupervisorView {
        SupervisorView { mode, stage: StageView::Locating(candidate_views(mode, base_dir)) }
    }

    /// The same supervisor in another stage.
    pub open spec fn at(self, stage: StageView) -> SupervisorView {
        SupervisorView { mode: self.mode, stage }
    }

    /// The supervisor after `event`, and what it asks for.
    ///
    /// While locating, the reports on the candidates decide: the first
    /// candidate that exists is to be spawned, and if none exists start-up
    /// ends with `NoBackend`. While spawning, success leads to the grace
    /// period and failure ends start-up with `SpawnFailed`. After the grace
    /// period the liveness check decides: a process that has not exited is
    /// stored in the slot and start-up ends with `Running`; one that has
    /// exited, or whose state could not be read, ends it with
    /// `DiedImmediately` and an empty slot. An event that does not fit the
    /// stage is rejected, and so is every event once start-up has ended:
    /// there is one attempt and no retry.
    pub open spec fn step_spec<H>(self, event: SupervisorEvent<H>) -> (
        SupervisorView,
        SupervisorActionView<H>,
    ) {
        match (self.stage, event) {
            (StageView::Locating(candidates), SupervisorEvent::Probed { exists }) => {
                match search(candidates, exists@) {
                    Ok(executable) => (
                        self.at(StageView::Spawning),
                        SupervisorActionView::Spawn(spawn_request_for(executable, self.mode)),
                    ),
                    Err(_) => (
                        self.at(StageView::Finished),
                        SupervisorActionView::Finish(
                            report_without_backend(SupervisionOutcome::NoBackend),
                        ),
                    ),
                }
            },
            (StageView::Spawning, SupervisorEvent::SpawnSucceeded) => (
                self.at(StageView::Settling),
                SupervisorActionView::AttachDrainsAndWait { grace_millis: GRACE_MILLIS },
            ),
            (StageView::Spawning, SupervisorEvent::SpawnFailed { os_code }) => (
                self.at(StageView::Finished),
                SupervisorActionView::Finish(
                    report_without_backend(SupervisionOutcome::SpawnFailed { os_code }),
                ),
            ),
            (StageView::Settling, SupervisorEvent::GraceElapsed { handle, report }) => {
                if liveness_of(report).is_running() {
                    (
                        self.at(StageView::Finished),
                        SupervisorActionView::Finish(report_running(handle)),
                    )
                } else {
                    (
                        self.at(StageView::Finished),
                        SupervisorActionView::Finish(report_died(handle)),
                    )
                }
            },
            _ => (self, SupervisorActionView::Rejected(event)),
        }
    }

    /// The supervisor after a sequence of events, handled in order.
    pub open spec fn run<H>(self, events: Seq<SupervisorEvent<H>>) -> SupervisorView
        decreases events.len(),
    {
        if events.len() == 0 {
            self
        } else {
            self.run(events.drop_last()).step_spec(events.last()).0
        }
    }

    /// What the supervisor asked for in answer to event `index` of `events`.
    pub open spec fn action_at<H>(
        self,
        events: Seq<SupervisorEvent<H>>,
        index: int,
    ) -> SupervisorActionView<H>
        recommends
            0 <= index < events.len(),
    {
        self.run(events.take(index)).step_spec(events[index]).1
    }
}

/// The report that an action hands over, if the action ends start-up.
pub open spec fn report_of<H>(action: SupervisorActionView<H>) -> Option<StartReportView<H>> {
    match action {
        SupervisorActionView::Finish(report) => Some(report),
        _ => None,
    }
}

#[derive(Debug)]
enum Stage {
    Locating(Vec<BackendPath>),
    Spawning,
    Settling,
    Finished,
}

/// The state of start-up.
#[derive(Debug)]
pub struct Supervisor {
    mode: BuildMode,
    stage: Stage,
}

impl View for Supervisor {
    type V = SupervisorView;

    closed spec fn view(&self) -> SupervisorView {
        SupervisorView {
            mode: self.mode,
            stage: match self.stage {
                Stage::Locating(candidates) => StageView::Locating(candidates.deep_view()),
                Stage::Spawning => StageView::Spawning,
                Stage::Settling => StageView::Settling,
                Stage::Finished => StageView::Finished,
            },
        }
    }
}

/// Copies a list of locations.
fn copy_paths(paths: &Vec<BackendPath>) -> (copy: Vec<BackendPath>)
    ensures
        copy.deep_view() == paths.deep_view(),
{
    let mut copy: Vec<BackendPath> = Vec::new();
    let mut i: usize = 0;
    while i < paths.len()
        invariant
            i <= paths.len(),
            copy.len() == i,
            forall|j: int| 0 <= j < i ==> copy[j]@ == paths[j]@,
        decreases paths.len() - i,
    {
        copy.push(paths[i].clone());
        i += 1;
    }
    assert(copy.deep_view() =~= paths.deep_view());
    copy
}

impl Supervisor {
    /// Begins start-up for `mode` with `base_dir` as the directory to search
    /// below. Returns the supervisor and the candidate locations, in order:
    /// the embedding program is to find out which of them exist and report
    /// that with [`SupervisorEvent::Probed`].
    pub fn new(mode: BuildMode, base_dir: &str) -> (started: (Supervisor, Vec<BackendPath>))
        ensures
            started.0@ == SupervisorView::initial(mode, base_dir@),
            started.1.deep_view() == candidate_views(mode, base_dir@),
    {
        let candidates = candidate_paths(mode, base_dir);
        let to_probe = copy_paths(&candidates);
        (Supervisor { mode, stage: Stage::Locating(candidates) }, to_probe)
    }

    /// The build mode that start-up was begun for.
    pub fn mode(&self) -> (mode: BuildMode)
        ensures
            mode == self@.mode,
    {
        self.mode
    }

    /// Whether start-up has ended.
    pub fn is_finished(&self) -> (finished: bool)
        ensures
            finished == (self@.stage is Finished),
    {
        match &self.stage {
            Stage::Finished => true,
            _ => false,
        }
    }

    /// Handles one event and says what to do next: see
    /// [`SupervisorView::step_spec`]. A rejected event comes back unchanged.
    pub fn step<H>(&mut self, event: SupervisorEvent<H>) -> (action: SupervisorAction<H>)
        ensures
            (final(self)@, action@) == old(self)@.step_spec(event),
    {
        let mut stage = Stage::Finished;
        core::mem::swap(&mut self.stage, &mut stage);
        match stage {
            Stage::Locating(candidates) => match event {
                SupervisorEvent::Probed { exists } => {
                    match first_existing(candidates, &exists) {
                        Ok(executable) => {
                            self.stage = Stage::Spawning;
                            SupervisorAction::Spawn(spawn_request(executable, self.mode))
                        },
                        Err(_) => {
                            self.stage = Stage::Finished;
                            SupervisorAction::Finish(
                                StartReport {
                                    outcome: SupervisionOutcome::NoBackend,
                                    slot: SupervisionSlot::new(),
                                    poller: None,
                                    dead: None,
                                },
                            )
                        },
                    }
                },
                other => {
                    self.stage = Stage::Locating(candidates);
                    SupervisorAction::Rejected(other)
                },
            },
            Stage::Spawning => match event {
                SupervisorEvent::SpawnSucceeded => {
                    self.stage = Stage::Settling;
                    SupervisorAction::AttachDrainsAndWait { grace_millis: GRACE_MILLIS }
                },
                SupervisorEvent::SpawnFailed { os_code } => {
                    self.stage = Stage::Finished;
                    SupervisorAction::Finish(
                        StartReport {
                            outcome: SupervisionOutcome::SpawnFailed { os_code },
                            slot: SupervisionSlot::new(),
                            poller: None,
                            dead: None,
                        },
                    )
                },
                other => {
                    self.stage = Stage::Spawning;
                    SupervisorAction::Rejected(other)
                },
            },
            Stage::Settling => match event {
                SupervisorEvent::GraceElapsed { handle, report } => {
                    self.stage = Stage::Finished;
                    SupervisorAction::Finish(settle(handle, report))
                },
                other => {
                    self.stage = Stage::Settling;
                    SupervisorAction::Rejected(other)
                },
            },
            Stage::Finished => SupervisorAction::Rejected(event),
        }
    }
}

/// Decides how start-up ends once the grace period has passed. If `report`
/// says that the process has not exited, its handle goes into a fresh slot
/// and the outcome is `Running`. If it has exited, or the query failed, the
/// slot stays empty, the outcome is `DiedImmediately` and the handle is
/// handed back.
pub fn settle<H>(handle: H, report: WaitReport) -> (ended: StartReport<H>)
    ensures
        ended@ == if liveness_of(report).is_running() {
            report_running(handle)
        } else {
            report_died(handle)
        },
{
    let mut slot: SupervisionSlot<H> = SupervisionSlot::new();
    if check_backend_alive(report) {
        let stored = slot.set_if_empty(handle);
        StartReport {
            outcome: SupervisionOutcome::Running,
            slot,
            poller: Some(ReadinessPoller::standard()),
            dead: None,
        }
    } else {
        StartReport {
            outcome: SupervisionOutcome::DiedImmediately,
            slot,
            poller: None,
            dead: Some(handle),
        }
    }
}

/// A process that is not alive when the grace period has passed, because it
/// has exited or because its state cannot be read, always ends start-up as
/// `DiedImmediately`. The slot is then empty: it never holds the handle of a
/// process that was found dead.
pub proof fn lemma_early_exit_ends_as_died_immediately<H>(
    supervisor: SupervisorView,
    handle: H,
    report: WaitReport,
)
    requires
        supervisor.stage is Settling,
        report != Ok::<Option<ExitStatus>, QueryFailure>(None),
    ensures
        supervisor.step_spec(SupervisorEvent::GraceElapsed { handle, report }) == (
            supervisor.at(StageView::Finished),
            SupervisorActionView::Finish(report_died(handle)),
        ),
        report_died(handle).outcome == SupervisionOutcome::DiedImmediately,
        report_died(handle).slot.is_empty(),
        !(report_died(handle).slot is Occupied),
{
}

/// A process that is still running when the grace period has passed always
/// ends start-up as `Running`, with its handle in the slot.
pub proof fn lemma_survivor_ends_as_running<H>(supervisor: SupervisorView, handle: H)
    requires
        supervisor.stage is Settling,
    ensures
        supervisor.step_spec(SupervisorEvent::GraceElapsed { handle, report: Ok(None) }) == (
            supervisor.at(StageView::Finished),
            SupervisorActionView::Finish(report_running(handle)),
        ),
        report_running(handle).outcome == SupervisionOutcome::Running,
        report_running(handle).slot == SlotView::Occupied(handle),
        report_running(handle).slot.content() == Some(handle),
{
}

/// Whatever the stage and the event: a step hands over a report exactly
/// when it ends start-up; the slot in the report is occupied exactly if the
/// outcome is `Running` and is vacant otherwise; a poller is handed over
/// exactly with a running backend, and a dead process exactly when one was
/// found.
pub proof fn lemma_slot_is_occupied_exactly_when_running<H>(
    supervisor: SupervisorView,
    event: SupervisorEvent<H>,
)
    ensures
        report_of(supervisor.step_spec(event).1) is Some <==> supervisor.step_spec(
            event,
        ).0.stage is Finished && !(supervisor.stage is Finished),
        report_of(supervisor.step_spec(event).1) matches Some(report) ==> {
            &&& report.slot is Occupied <==> report.outcome == SupervisionOutcome::Running
            &&& report.outcome != SupervisionOutcome::Running ==> report.slot is Vacant
            &&& report.poller is Some <==> report.outcome == SupervisionOutcome::Running
            &&& report.dead is Some <==> report.outcome == SupervisionOutcome::DiedImmediately
        },
{
}

/// There is one attempt per launch: once start-up has ended, every event is
/// rejected and nothing is spawned again.
pub proof fn lemma_finished_supervisor_rejects_everything<H>(
    supervisor: SupervisorView,
    events: Seq<SupervisorEvent<H>>,
)
    requires
        supervisor.stage is Finished,
    ensures
        supervisor.run(events) == supervisor,
        forall|index: int|
            0 <= index < events.len() ==> #[trigger] supervisor.action_at(events, index)
                == SupervisorActionView::Rejected(events[index]),
    decreases events.len(),
{
    if events.len() > 0 {
        lemma_finished_supervisor_rejects_everything(supervisor, events.drop_last());
        assert forall|index: int| 0 <= index < events.len() implies #[trigger] supervisor.action_at(
            events,
            index,
        ) == SupervisorActionView::Rejected(events[index]) by {
            lemma_finished_supervisor_rejects_everything(supervisor, events.take(index));
        }
    }
}

/// A whole start-up, from the first event to the last. With the executable
/// present and the spawn successful, what the check after the grace period
/// reports decides alone: a process that has not exited gives `Running`
/// with the slot occupied, anything else gives `DiedImmediately` with the
/// slot empty.
pub proof fn lemma_start_up_with_backend_present<H>(
    mode: BuildMode,
    base_dir: Seq<char>,
    exists: Vec<bool>,
    handle: H,
    report: WaitReport,
)
    requires
        search(candidate_views(mode, base_dir), exists@) is Ok,
    ensures
        ({
            let events = seq![
                SupervisorEvent::Probed { exists },
                SupervisorEvent::SpawnSucceeded,
                SupervisorEvent::GraceElapsed { handle, report },
            ];
            let start = SupervisorView::initial(mode, base_dir);
            &&& start.run(events).stage is Finished
            &&& start.action_at(events, 2) == SupervisorActionView::Finish(
                if liveness_of(report).is_running() {
                    report_running(handle)
                } else {
                    report_died(handle)
                },
            )
        }),
{
    let events = seq![
        SupervisorEvent::Probed { exists },
        SupervisorEvent::SpawnSucceeded,
        SupervisorEvent::GraceElapsed { handle, report },
    ];
    let start = SupervisorView::initial(mode, base_dir);
    let none = Seq::<SupervisorEvent<H>>::empty();
    let one = seq![SupervisorEvent::<H>::Probed { exists }];
    let two = seq![SupervisorEvent::<H>::Probed { exists }, SupervisorEvent::SpawnSucceeded];
    assert(events.take(2) =~= two);
    assert(events.drop_last() =~= two);
    assert(two.drop_last() =~= one);
    assert(one.drop_last() =~= none);
    assert(start.run(none) == start);
    assert(start.run(one).stage is Spawning);
    assert(start.run(two).stage is Settling);
}

/// A whole start-up with the executable absent: if no candidate exists,
/// start-up ends at once with `NoBackend` and an empty slot, and nothing is
/// spawned.
pub proof fn lemma_start_up_with_backend_absent<H>(
    mode: BuildMode,
    base_dir: Seq<char>,
    exists: Vec<bool>,
)
    requires
        search(candidate_views(mode, base_dir), exists@) is Err,
    ensures
        SupervisorView::initial(mode, base_dir).step_spec(SupervisorEvent::<H>::Probed { exists })
            == (
            SupervisorView::initial(mode, base_dir).at(StageView::Finished),
            SupervisorActionView::<H>::Finish(
                report_without_backend(SupervisionOutcome::NoBackend),
            ),
        ),
        report_without_backend::<H>(SupervisionOutcome::NoBackend).slot.is_empty(),
{
}

} // verus!
