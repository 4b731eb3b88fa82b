//! High-level task runner and status management.
//!
//! A [`Runner`] holds the status of one task and tells every change of it
//! to its reporter. A [`TaskRun`] drives a runner through a planned task:
//! it is told what happened outside (the assets were prepared, an image was
//! built, a container exited) and answers with what is to be done next.

use vstd::prelude::*;
use crate::error::{Error, ErrorView};
use crate::permission::Permissions;
use crate::reporter::{now, Reporter, Timestamp};
use crate::sandbox::{RunOptions, RunOptionsView};
use crate::task::{or_empty, planned_stages, Plan, Task};
use crate::text::{copy_pairs, copy_str, copy_strings};

verus! {

/// The status of a task.
#[derive(Debug)]
pub enum Status {
    Start,
    PrepareAssets,
    BuildStageScript(String),
    RunStage(String),
    FinishStage(String),
    Success,
    Error(String),
}

/// What a [`Status`] holds, with texts as sequences of characters.
pub enum StatusView {
    Start,
    PrepareAssets,
    BuildStageScript(Seq<char>),
    RunStage(Seq<char>),
    FinishStage(Seq<char>),
    Success,
    Error(Seq<char>),
}

impl StatusView {
    /// Whether the status ends a task: `Success`, or an error.
    pub open spec fn is_terminal(self) -> bool {
        self is Success || self is Error
    }
}

impl View for Status {
    type V = StatusView;

    open spec fn view(&self) -> StatusView {
        match self {
            Status::Start => StatusView::Start,
            Status::PrepareAssets => StatusView::PrepareAssets,
            Status::BuildStageScript(name) => StatusView::BuildStageScript(name@),
            Status::RunStage(name) => StatusView::RunStage(name@),
            Status::FinishStage(name) => StatusView::FinishStage(name@),
            Status::Success => StatusView::Success,
            Status::Error(message) => StatusView::Error(message@),
        }
    }
}

impl Status {
    /// Whether the status is an error.
    pub fn is_error(&self) -> (r: bool)
        ensures
            r == (self@ is Error),
    {
        match self {
            Status::Error(_) => true,
            _ => false,
        }
    }
}

/// Represents an error that has been properly handled (reported) by runner.
#[derive(Debug)]
pub struct HandledError(pub Error);

impl From<HandledError> for Error {
    /// The error that was handled.
    fn from(handled: HandledError) -> (r: Error) {
        handled.0
    }
}

impl vstd::std_specs::convert::FromSpecImpl<HandledError> for Error {
    open spec fn obeys_from_spec() -> bool {
        true
    }

    open spec fn from_spec(handled: HandledError) -> Error {
        handled.0
    }
}

/// Report status.
pub trait RunnerReporter: Reporter {
    /// Reports a change of status: `report_status` gets it with the time now.
    fn emit_status(&self, status: &Status) -> (r: Result<(), Error>)
        ensures
            exists|timestamp: Timestamp| #[trigger]
                call_ensures(Self::report_status, (self, status, timestamp), r),
    {
        self.report_status(status, now())
    }

    /// Takes a change of status and the time at which it happened.
    fn report_status(&self, status: &Status, timestamp: Timestamp) -> (r: Result<(), Error>);
}

/// Marks a failure as handled without reporting it: `Ok` stays, and an
/// error becomes a handled error.
pub fn ignore<T>(result: Result<T, Error>) -> (r: Result<T, HandledError>)
    ensures
        match result {
            Ok(v) => r == Ok::<T, HandledError>(v),
            Err(e) => r == Err::<T, HandledError>(HandledError(e)),
        },
{
    match result {
        Ok(v) => Ok(v),
        Err(e) => Err(HandledError(e)),
    }
}

/// The handled error for the failure `cause`, given how reporting it went:
/// `cause` itself where it was reported, and the failure of the report
/// where it was not.
pub fn handled(cause: Error, reported: Result<(), HandledError>) -> (r: HandledError)
    ensures
        match reported {
            Ok(_) => r == HandledError(cause),
            Err(failure) => r == failure,
        },
{
    match reported {
        Ok(_) => HandledError(cause),
        Err(failure) => failure,
    }
}

/// Whether `r` is what became of telling `reporter` of a status that holds
/// `status`: `emit_status` was given such a status, and `r` is `Ok` where
/// it succeeded, and its failure, marked as handled, where it failed.
pub open spec fn told<R: RunnerReporter>(
    reporter: R,
    status: StatusView,
    r: Result<(), HandledError>,
) -> bool {
    exists|given: Status, answer: Result<(), Error>| #[trigger]
        call_ensures(R::emit_status, (&reporter, &given), answer) && given@ == status
            && match answer {
            Ok(_) => r == Ok::<(), HandledError>(()),
            Err(failure) => r == Err::<(), HandledError>(HandledError(failure)),
        }
}

/// Whether `handed` is the handled error for the failure `cause` after
/// `reporter` was told of it: the reporter was told of the error status
/// with the description of `cause`, and `handed` holds `cause` where that
/// succeeded and the failure of the reporter where it failed.
pub open spec fn failure_told<R: RunnerReporter>(
    reporter: R,
    cause: Error,
    handed: HandledError,
) -> bool {
    exists|reported: Result<(), HandledError>| #[trigger]
        told(reporter, StatusView::Error(cause@.debug_text()), reported) && handed
            == match reported {
            Ok(_) => HandledError(cause),
            Err(failure) => failure,
        }
}

/// Task runner that tracks the running state and reports the process.
///
/// You should always initiate a new runner for each task.
pub struct Runner<R: RunnerReporter> {
    status: Status,
    permissions: Permissions,
    reporter: R,
    trace: Ghost<Seq<StatusView>>,
}

impl<R: RunnerReporter> Runner<R> {
    /// The current status.
    pub closed spec fn current(&self) -> StatusView {
        self.status@
    }

    /// Every status that the runner has had, in order: `Start`, and then
    /// each status that was set, all of which the reporter was told.
    pub closed spec fn trace(&self) -> Seq<StatusView> {
        self.trace@
    }

    /// The permissions under which the task runs.
    pub closed spec fn rights(&self) -> Permissions {
        self.permissions
    }

    /// The reporter that is told of every change.
    pub closed spec fn sink(&self) -> R {
        self.reporter
    }

    /// The trace begins with `Start` and ends with the current status.
    pub open spec fn wf(&self) -> bool {
        &&& self.trace().len() > 0
        &&& self.trace()[0] == StatusView::Start
        &&& self.trace().last() == self.current()
    }

    /// A runner at `Start`, under `permissions`, or under the default
    /// permissions where none are given.
    pub fn new(reporter: R, permissions: Option<Permissions>) -> (r: Self)
        ensures
            r.wf(),
            r.current() == StatusView::Start,
            r.trace() == seq![StatusView::Start],
            r.sink() == reporter,
            permissions matches Some(p) ==> r.rights() == p,
            permissions is None ==> r.rights().is_default(),
    {
        let permissions = match permissions {
            Some(p) => p,
            None => Permissions::default(),
        };
        let ghost begun = Seq::<StatusView>::empty().push(StatusView::Start);
        assert(begun =~= seq![StatusView::Start]);
        Runner { status: Status::Start, permissions, reporter, trace: Ghost(begun) }
    }

    /// The current status.
    pub fn status(&self) -> (r: &Status)
        ensures
            r@ == self.current(),
    {
        &self.status
    }

    /// The permissions under which the task runs.
    pub fn permissions(&self) -> (r: &Permissions)
        ensures
            *r == self.rights(),
    {
        &self.permissions
    }

    /// The reporter.
    pub fn reporter(&self) -> (r: &R)
        ensures
            *r == self.sink(),
    {
        &self.reporter
    }

    /// Changes the status to `status` and tells the reporter. A failure of
    /// the reporter is handed back as handled: it is not reported again.
    pub fn set_status(&mut self, status: Status) -> (r: Result<(), HandledError>)
        ensures
            final(self).current() == status@,
            final(self).trace() == old(self).trace().push(status@),
            final(self).rights() == old(self).rights(),
            final(self).sink() == old(self).sink(),
            old(self).wf() ==> final(self).wf(),
            told(final(self).sink(), status@, r),
    {
        self.status = status;
        self.trace = Ghost(self.trace@.push(self.status@));
        let answer = self.reporter.emit_status(&self.status);
        assert(call_ensures(R::emit_status, (&self.reporter, &self.status), answer));
        ignore(answer)
    }

    /// Takes the result of outside work. A success is handed on. A failure
    /// changes the status to the error with the failure's description, and
    /// is handed back as handled.
    pub fn handle<T>(&mut self, result: Result<T, Error>) -> (r: Result<T, HandledError>)
        ensures
            final(self).rights() == old(self).rights(),
            final(self).sink() == old(self).sink(),
            old(self).wf() ==> final(self).wf(),
            match result {
                Ok(v) => {
                    &&& r == Ok::<T, HandledError>(v)
                    &&& final(self).current() == old(self).current()
                    &&& final(self).trace() == old(self).trace()
                },
                Err(e) => {
                    &&& r matches Err(handed) && failure_told(final(self).sink(), e, handed)
                    &&& final(self).current() == StatusView::Error(e@.debug_text())
                    &&& final(self).trace() == old(self).trace().push(
                        StatusView::Error(e@.debug_text()),
                    )
                },
            },
    {
        match result {
            Ok(v) => Ok(v),
            Err(e) => {
                let reported = self.set_status(Status::Error(e.debug_text()));
                assert(told(self.sink(), StatusView::Error(e@.debug_text()), reported));
                Err(handled(e, reported))
            },
        }
    }

    /// Enters the preparation of the assets.
    pub fn prepare_assets(&mut self) -> (r: Result<(), HandledError>)
        ensures
            final(self).current() == StatusView::PrepareAssets,
            final(self).trace() == old(self).trace().push(StatusView::PrepareAssets),
            final(self).rights() == old(self).rights(),
            final(self).sink() == old(self).sink(),
            old(self).wf() ==> final(self).wf(),
            told(final(self).sink(), StatusView::PrepareAssets, r),
    {
        self.set_status(Status::PrepareAssets)
    }

    /// Enters the build of the image for the stage `name`.
    pub fn build_stage(&mut self, name: &str) -> (r: Result<(), HandledError>)
        ensures
            final(self).current() == StatusView::BuildStageScript(name@),
            final(self).trace() == old(self).trace().push(StatusView::BuildStageScript(name@)),
            final(self).rights() == old(self).rights(),
            final(self).sink() == old(self).sink(),
            old(self).wf() ==> final(self).wf(),
            told(final(self).sink(), StatusView::BuildStageScript(name@), r),
    {
        self.set_status(Status::BuildStageScript(copy_str(name)))
    }

    /// Enters the run of the stage `name`.
    pub fn run_stage(&mut self, name: &str) -> (r: Result<(), HandledError>)
        ensures
            final(self).current() == StatusView::RunStage(name@),
            final(self).trace() == old(self).trace().push(StatusView::RunStage(name@)),
            final(self).rights() == old(self).rights(),
            final(self).sink() == old(self).sink(),
            old(self).wf() ==> final(self).wf(),
            told(final(self).sink(), StatusView::RunStage(name@), r),
    {
        self.set_status(Status::RunStage(copy_str(name)))
    }

    /// Ends the runner's life. Nothing happens where the status is an
    /// error, which was reported, or where `panicking` says that the
    /// process is unwinding; otherwise the status changes to `Success`, and
    /// the result of reporting it is handed back.
    pub fn finish(&mut self, panicking: bool) -> (r: Option<Result<(), HandledError>>)
        ensures
            final(self).rights() == old(self).rights(),
            final(self).sink() == old(self).sink(),
            old(self).wf() ==> final(self).wf(),
            r is None <==> old(self).current() is Error || panicking,
            r is None ==> final(self).current() == old(self).current() && final(self).trace()
                == old(self).trace(),
            r is Some ==> final(self).current() == StatusView::Success && final(self).trace()
                == old(self).trace().push(StatusView::Success),
            r matches Some(reported) ==> told(final(self).sink(), StatusView::Success, reported),
    {
        if self.status.is_error() {
            return None;
        }
        if panicking {
            return None;
        }
        Some(self.set_status(Status::Success))
    }
}

/// What happened outside a task run.
#[derive(Debug)]
pub enum Event {
    /// The run was invoked.
    Invoked,
    /// Preparing the assets ended.
    AssetsPrepared(Result<(), Error>),
    /// Building the image of the current stage ended; on success, with the
    /// identifier of the image.
    ImageBuilt(Result<String, Error>),
    /// Running the container of the current stage ended; `Ok` where it
    /// exited with code 0.
    ContainerExited(Result<(), Error>),
    /// The run is given up or over. `panicking` says whether the process is
    /// unwinding.
    Dropped { panicking: bool },
}

/// What is to be done next outside a task run.
#[derive(Debug)]
pub enum Action {
    /// Nothing: the event was not awaited.
    Nothing,
    /// Prepare these assets.
    PrepareAssets(Vec<(String, String)>),
    /// Build an image from `image` by the commands of `extend`.
    Build { image: String, extend: Vec<String> },
    /// Run a container with these options.
    Run(RunOptions),
    /// Hand this back to the caller.
    Return(Result<(), HandledError>),
}

/// How far a task run has come on the way of a task that does not fail.
#[derive(Clone, Copy, Debug, PartialEq, Eq, Structural)]
pub enum Position {
    /// Not invoked yet.
    Created,
    /// At the preparation of the assets.
    Assets,
    /// At the build of the image of the stage with this index.
    Building(usize),
    /// At the run of the stage with this index.
    Running(usize),
}

/// Whether a task run goes on.
#[derive(Clone, Copy, Debug, PartialEq, Eq, Structural)]
pub enum Phase {
    /// It awaits an event.
    Waiting,
    /// It has handed its result back.
    Returned,
    /// It is over.
    Closed,
}

/// The number of statuses that a task run has had once it is at
/// `position`, failures aside.
pub open spec fn entered(position: Position) -> nat {
    match position {
        Position::Created => 1,
        Position::Assets => 2,
        Position::Building(i) => (3 + 2 * i) as nat,
        Position::Running(i) => (4 + 2 * i) as nat,
    }
}

/// The position that follows `position` in a task of `count` stages, or
/// `None` where the last stage has run.
pub open spec fn following(position: Position, count: nat) -> Option<Position> {
    match position {
        Position::Created => Some(Position::Assets),
        Position::Assets => if count > 0 {
            Some(Position::Building(0))
        } else {
            None
        },
        Position::Building(i) => Some(Position::Running(i)),
        Position::Running(i) => if i + 1 < count {
            Some(Position::Building((i + 1) as usize))
        } else {
            None
        },
    }
}

/// The status of a task run at `position`, for stages with the names
/// `names`.
pub open spec fn status_at(position: Position, names: Seq<Seq<char>>) -> StatusView {
    match position {
        Position::Created => StatusView::Start,
        Position::Assets => StatusView::PrepareAssets,
        Position::Building(i) => StatusView::BuildStageScript(names[i as int]),
        Position::Running(i) => StatusView::RunStage(names[i as int]),
    }
}

/// The status with the index `j` on the way of a task that does not fail.
pub open spec fn way_at(names: Seq<Seq<char>>, j: int) -> StatusView {
    if j == 0 {
        StatusView::Start
    } else if j == 1 {
        StatusView::PrepareAssets
    } else if (j - 2) % 2 == 0 {
        StatusView::BuildStageScript(names[(j - 2) / 2])
    } else {
        StatusView::RunStage(names[(j - 2) / 2])
    }
}

/// The statuses of a task that does not fail, up to its end: `Start`,
/// `PrepareAssets`, and for each stage in order `BuildStageScript` and
/// `RunStage` with its name.
pub open spec fn way(names: Seq<Seq<char>>) -> Seq<StatusView> {
    Seq::new(2 + 2 * names.len(), |j: int| way_at(names, j))
}

/// The status as a trace's end: itself where it ends a task, nothing
/// otherwise.
pub open spec fn ending(current: StatusView) -> Seq<StatusView> {
    if current.is_terminal() {
        seq![current]
    } else {
        Seq::empty()
    }
}

/// Whether `event` is the one that a task run at `position` awaits.
pub open spec fn awaited(position: Position, event: Event) -> bool {
    match position {
        Position::Created => event is Invoked,
        Position::Assets => event is AssetsPrepared,
        Position::Building(_) => event is ImageBuilt,
        Position::Running(_) => event is ContainerExited,
    }
}

/// The failure that `event` tells of, if it tells of one.
pub open spec fn cause_of(event: Event) -> Option<Error> {
    match event {
        Event::AssetsPrepared(Err(e)) => Some(e),
        Event::ImageBuilt(Err(e)) => Some(e),
        Event::ContainerExited(Err(e)) => Some(e),
        _ => None,
    }
}

/// The number of statuses in `trace` that end a task.
pub open spec fn terminal_count(trace: Seq<StatusView>) -> nat
    decreases trace.len(),
{
    if trace.len() == 0 {
        0
    } else {
        terminal_count(trace.drop_last()) + if trace.last().is_terminal() {
            1nat
        } else {
            0nat
        }
    }
}

/// The run of one task: a runner, the plan of the task, and how far the
/// run has come.
pub struct TaskRun<R: RunnerReporter> {
    runner: Runner<R>,
    plan: Plan,
    position: Position,
    phase: Phase,
    ok: bool,
    unwound: bool,
}

impl<R: RunnerReporter> TaskRun<R> {
    /// The planned stages, each with its name.
    pub closed spec fn stages(&self) -> Seq<(Seq<char>, RunOptionsView)> {
        self.plan.stages.deep_view()
    }

    /// The planned assets.
    pub closed spec fn assets(&self) -> Seq<(Seq<char>, Seq<char>)> {
        self.plan.assets.deep_view()
    }

    /// The names of the planned stages, in order.
    pub open spec fn names(&self) -> Seq<Seq<char>> {
        Seq::new(self.stages().len(), |i: int| self.stages()[i].0)
    }

    /// Every status that the run has had, in order.
    pub closed spec fn trace(&self) -> Seq<StatusView> {
        self.runner.trace()
    }

    /// The current status.
    pub closed spec fn current(&self) -> StatusView {
        self.runner.current()
    }

    /// The permissions under which the task runs.
    pub closed spec fn rights(&self) -> Permissions {
        self.runner.rights()
    }

    /// The reporter that is told of every change.
    pub closed spec fn sink(&self) -> R {
        self.runner.sink()
    }

    /// How far the run has come.
    pub closed spec fn position(&self) -> Position {
        self.position
    }

    /// Whether the run goes on.
    pub closed spec fn phase(&self) -> Phase {
        self.phase
    }

    /// Whether the run handed back a success.
    pub closed spec fn succeeded(&self) -> bool {
        self.ok
    }

    /// Whether the run was closed while the process was unwinding, so that
    /// no end was reported.
    pub closed spec fn unwound(&self) -> bool {
        self.unwound
    }

    /// The trace is the way of a task that does not fail, as far as the run
    /// has come, followed by the status that ended it, if one did.
    pub open spec fn wf(&self) -> bool {
        let count = self.stages().len();
        &&& self.stages().len() <= usize::MAX
        &&& self.position() matches Position::Building(i) ==> i < count
        &&& self.position() matches Position::Running(i) ==> i < count
        &&& self.trace() == way(self.names()).take(entered(self.position()) as int) + ending(
            self.current(),
        )
        &&& match self.phase() {
            Phase::Waiting => !self.current().is_terminal() && !self.succeeded()
                && !self.unwound(),
            Phase::Returned => !(self.current() is Success) && !self.unwound(),
            Phase::Closed => {
                &&& !self.unwound() ==> self.current().is_terminal()
                &&& self.unwound() ==> !self.current().is_terminal()
            },
        }
        &&& self.succeeded() ==> !(self.current() is Error) && entered(self.position()) == 2 + 2
            * count
    }

    /// Nothing of the run has changed from `before` to `self`.
    pub open spec fn same_as(&self, before: &Self) -> bool {
        &&& self.position() == before.position()
        &&& self.phase() == before.phase()
        &&& self.succeeded() == before.succeeded()
        &&& self.unwound() == before.unwound()
        &&& self.trace() == before.trace()
        &&& self.current() == before.current()
    }

    /// What the work at `position` is: `action` asks for it, with what the
    /// plan holds for it; a container runs in the image that `event` tells
    /// of.
    pub open spec fn asks_for(&self, position: Position, event: Event, action: Action) -> bool {
        match position {
            Position::Created => false,
            Position::Assets => action matches Action::PrepareAssets(assets) && assets.deep_view()
                == self.assets(),
            Position::Building(i) => action matches Action::Build { image, extend } && image@
                == self.stages()[i as int].1.image && extend.deep_view()
                == self.stages()[i as int].1.extend,
            Position::Running(i) => event matches Event::ImageBuilt(Ok(id)) && action matches Action::Run(
                options,
            ) && options@ == (RunOptionsView { image: id@, ..self.stages()[i as int].1 }),
        }
    }

    /// What entering `next` answers with: the reporter was told of the
    /// status of `next`; where that succeeded the run goes on and asks for
    /// the work of `next`, and where it failed the run hands the failure
    /// back.
    pub open spec fn entered_with(&self, next: Position, event: Event, action: Action) -> bool {
        exists|reported: Result<(), HandledError>| #[trigger]
            told(self.sink(), status_at(next, self.names()), reported) && match reported {
                Ok(_) => self.phase() is Waiting && self.asks_for(next, event, action),
                Err(failure) => self.phase() is Returned && action == Action::Return(
                    Err(failure),
                ),
            }
    }

    /// What an awaited event does to the run `before`, which becomes
    /// `self` and answers with `action`.
    ///
    /// A failure is reported as an error and handed back. Otherwise the
    /// run enters the position that follows, reports its status and asks
    /// for its work; it hands back the failure of the reporter where that
    /// failed. After the last position it hands back success.
    pub open spec fn advanced_from(&self, before: &Self, event: Event, action: Action) -> bool {
        &&& !self.unwound()
        &&& match cause_of(event) {
            Some(cause) => {
                &&& self.position() == before.position()
                &&& self.phase() is Returned
                &&& !self.succeeded()
                &&& self.trace() == before.trace().push(StatusView::Error(cause@.debug_text()))
                &&& action matches Action::Return(Err(handed)) && failure_told(
                    self.sink(),
                    cause,
                    handed,
                )
            },
            None => match following(before.position(), before.stages().len()) {
                None => {
                    &&& self.position() == before.position()
                    &&& self.phase() is Returned
                    &&& self.succeeded()
                    &&& self.trace() == before.trace()
                    &&& action matches Action::Return(Ok(_))
                },
                Some(next) => {
                    &&& self.position() == next
                    &&& !self.succeeded()
                    &&& self.trace() == before.trace().push(status_at(next, before.names()))
                    &&& self.entered_with(next, event, action)
                },
            },
        }
    }

    /// What closing does to the run `before`, which becomes `self` and
    /// answers with `action`.
    ///
    /// A run that is not closed yet is closed. Where its status is an
    /// error, or the process is unwinding, nothing is reported; otherwise
    /// `Success` is, and the result of reporting it is handed back.
    pub open spec fn closed_from(&self, before: &Self, panicking: bool, action: Action) -> bool {
        if before.phase() is Closed {
            self.same_as(before) && action is Nothing
        } else {
            &&& self.phase() is Closed
            &&& self.position() == before.position()
            &&& self.succeeded() == before.succeeded()
            &&& if before.current() is Error {
                &&& self.trace() == before.trace()
                &&& !self.unwound()
                &&& action is Nothing
            } else if panicking {
                &&& self.trace() == before.trace()
                &&& self.unwound()
                &&& action is Nothing
            } else {
                &&& self.trace() == before.trace().push(StatusView::Success)
                &&& !self.unwound()
                &&& action matches Action::Return(reported) && told(
                    self.sink(),
                    StatusView::Success,
                    reported,
                )
            }
        }
    }

    /// What `event` does to the run `before`, which becomes `self` and
    /// answers with `action`: an event that is not awaited changes
    /// nothing.
    pub open spec fn stepped_from(&self, before: &Self, event: Event, action: Action) -> bool {
        &&& self.stages() == before.stages()
        &&& self.assets() == before.assets()
        &&& self.rights() == before.rights()
        &&& self.sink() == before.sink()
        &&& match event {
            Event::Dropped { panicking } => self.closed_from(before, panicking, action),
            _ => if before.phase() is Waiting && awaited(before.position(), event) {
                self.advanced_from(before, event, action)
            } else {
                self.same_as(before) && action is Nothing
            },
        }
    }

    /// The run of `task`, not invoked yet, with a runner under
    /// `permissions`.
    pub fn new(task: &Task, reporter: R, permissions: Option<Permissions>) -> (r: Self)
        ensures
            r.wf(),
            r.position() == Position::Created,
            r.phase() == Phase::Waiting,
            r.trace() == seq![StatusView::Start],
            r.stages() == planned_stages(task@),
            r.assets() == or_empty(task@.assets),
            r.sink() == reporter,
            permissions matches Some(p) ==> r.rights() == p,
            permissions is None ==> r.rights().is_default(),
    {
        let r = TaskRun {
            runner: Runner::new(reporter, permissions),
            plan: task.plan(),
            position: Position::Created,
            phase: Phase::Waiting,
            ok: false,
            unwound: false,
        };
        proof {
            assert(r.stages().len() == r.plan.stages.len());
            assert(way(r.names()).take(1) =~= seq![StatusView::Start]);
            assert(r.trace() =~= way(r.names()).take(1) + ending(r.current()));
        }
        r
    }

    /// The runner of the task.
    pub fn runner(&self) -> (r: &Runner<R>)
        ensures
            r.trace() == self.trace(),
            r.current() == self.current(),
            r.rights() == self.rights(),
            r.sink() == self.sink(),
    {
        &self.runner
    }

    /// Whether the run handed back a success.
    pub fn has_succeeded(&self) -> (r: bool)
        ensures
            r == self.succeeded(),
    {
        self.ok
    }

    /// Whether the run is over.
    pub fn is_closed(&self) -> (r: bool)
        ensures
            r == (self.phase() is Closed),
    {
        self.phase == Phase::Closed
    }

    /// Hands a failure back: the run goes on no further.
    fn give_up(&mut self, failure: HandledError) -> (r: Action)
        ensures
            final(self).runner == old(self).runner,
            final(self).plan == old(self).plan,
            final(self).position == old(self).position,
            final(self).phase == Phase::Returned,
            !final(self).ok,
            final(self).unwound == old(self).unwound,
            r == Action::Return(Err(failure)),
    {
        self.phase = Phase::Returned;
        self.ok = false;
        Action::Return(Err(failure))
    }

    /// Enters the preparation of the assets.
    fn enter_assets(&mut self) -> (r: Action)
        requires
            old(self).wf(),
            old(self).phase() is Waiting,
            old(self).position() is Created,
        ensures
            final(self).wf(),
            final(self).stepped_from(old(self), Event::Invoked, r),
    {
        let ghost names = self.names();
        let reported = self.runner.prepare_assets();
        self.position = Position::Assets;
        proof {
            assert(way(names).take(2) =~= way(names).take(1).push(StatusView::PrepareAssets));
            assert(way(names).take(1) + Seq::<StatusView>::empty() =~= way(names).take(1));
            assert(way(names).take(2) + Seq::<StatusView>::empty() =~= way(names).take(2));
        }
        match reported {
            Ok(_) => Action::PrepareAssets(copy_pairs(&self.plan.assets)),
            Err(failure) => self.give_up(failure),
        }
    }

    /// Enters the build of the stage `index`.
    fn enter_build(&mut self, index: usize, Ghost(event): Ghost<Event>) -> (r: Action)
        requires
            old(self).wf(),
            old(self).phase() is Waiting,
            index < old(self).stages().len(),
            cause_of(event) is None,
            awaited(old(self).position(), event),
            following(old(self).position(), old(self).stages().len()) == Some(
                Position::Building(index),
            ),
        ensures
            final(self).wf(),
            final(self).stepped_from(old(self), event, r),
    {
        let ghost names = self.names();
        let ghost k = entered(self.position) as int;
        assert(self.plan.stages.deep_view()[index as int].0 == self.plan.stages[index as int].0@);
        assert(self.plan.stages.deep_view()[index as int].1 == self.plan.stages[index as int].1@);
        let reported = self.runner.build_stage(self.plan.stages[index].0.as_str());
        self.position = Position::Building(index);
        proof {
            assert(k + 1 == entered(self.position));
            assert(way(names)[k] == StatusView::BuildStageScript(names[index as int]));
            assert(way(names).take(k + 1) =~= way(names).take(k).push(way(names)[k]));
            assert(way(names).take(k) + Seq::<StatusView>::empty() =~= way(names).take(k));
            assert(way(names).take(k + 1) + Seq::<StatusView>::empty() =~= way(names).take(k + 1));
        }
        match reported {
            Ok(_) => Action::Build {
                image: self.plan.stages[index].1.image.clone(),
                extend: copy_strings(&self.plan.stages[index].1.extend),
            },
            Err(failure) => self.give_up(failure),
        }
    }

    /// Enters the run of the stage `index` in the image `image`.
    fn enter_run(&mut self, index: usize, image: String) -> (r: Action)
        requires
            old(self).wf(),
            old(self).phase() is Waiting,
            old(self).position() == Position::Building(index),
        ensures
            final(self).wf(),
            final(self).stepped_from(old(self), Event::ImageBuilt(Ok(image)), r),
    {
        let ghost names = self.names();
        let ghost k = entered(self.position) as int;
        assert(self.plan.stages.deep_view()[index as int].0 == self.plan.stages[index as int].0@);
        assert(self.plan.stages.deep_view()[index as int].1 == self.plan.stages[index as int].1@);
        let reported = self.runner.run_stage(self.plan.stages[index].0.as_str());
        self.position = Position::Running(index);
        proof {
            assert(k + 1 == entered(self.position));
            assert(way(names)[k] == StatusView::RunStage(names[index as int]));
            assert(way(names).take(k + 1) =~= way(names).take(k).push(way(names)[k]));
            assert(way(names).take(k) + Seq::<StatusView>::empty() =~= way(names).take(k));
            assert(way(names).take(k + 1) + Seq::<StatusView>::empty() =~= way(names).take(k + 1));
        }
        match reported {
            Ok(_) => {
                let stage = &self.plan.stages[index].1;
                Action::Run(
                    RunOptions {
                        image,
                        extend: copy_strings(&stage.extend),
                        workdir: stage.workdir.clone(),
                        script: copy_strings(&stage.script),
                        envs: copy_pairs(&stage.envs),
                        mounts: copy_pairs(&stage.mounts),
                    },
                )
            },
            Err(failure) => self.give_up(failure),
        }
    }

    /// Reports the failure `cause` of outside work and hands it back.
    fn fail(&mut self, cause: Error, Ghost(event): Ghost<Event>) -> (r: Action)
        requires
            old(self).wf(),
            old(self).phase() is Waiting,
            awaited(old(self).position(), event),
            cause_of(event) == Some(cause),
        ensures
            final(self).wf(),
            final(self).stepped_from(old(self), event, r),
    {
        let ghost names = self.names();
        let ghost k = entered(self.position) as int;
        let handled: Result<(), HandledError> = self.runner.handle(Err(cause));
        proof {
            let error = StatusView::Error(cause@.debug_text());
            assert(way(names).take(k) + Seq::<StatusView>::empty() =~= way(names).take(k));
            assert(way(names).take(k).push(error) =~= way(names).take(k) + seq![error]);
        }
        match handled {
            Err(failure) => self.give_up(failure),
            Ok(_) => Action::Nothing,
        }
    }

    /// Goes on after the work at the current position succeeded: enters the
    /// next stage, or hands back success after the last.
    fn next_stage(&mut self, index: usize, Ghost(event): Ghost<Event>) -> (r: Action)
        requires
            old(self).wf(),
            old(self).phase() is Waiting,
            cause_of(event) is None,
            awaited(old(self).position(), event),
            index <= old(self).stages().len(),
            following(old(self).position(), old(self).stages().len()) == if index < old(
                self,
            ).stages().len() {
                Some(Position::Building(index))
            } else {
                None::<Position>
            },
        ensures
            final(self).wf(),
            final(self).stepped_from(old(self), event, r),
    {
        assert(self.plan.stages.deep_view().len() == self.plan.stages.len());
        if index < self.plan.stages.len() {
            self.enter_build(index, Ghost(event))
        } else {
            self.phase = Phase::Returned;
            self.ok = true;
            Action::Return(Ok(()))
        }
    }

    /// Closes the run.
    fn close(&mut self, panicking: bool) -> (r: Action)
        requires
            old(self).wf(),
        ensures
            final(self).wf(),
            final(self).stepped_from(old(self), Event::Dropped { panicking }, r),
    {
        if self.phase == Phase::Closed {
            return Action::Nothing;
        }
        let ghost names = self.names();
        let ghost k = entered(self.position) as int;
        self.phase = Phase::Closed;
        match self.runner.finish(panicking) {
            Some(reported) => {
                proof {
                    assert(way(names).take(k) + Seq::<StatusView>::empty() =~= way(names).take(k));
                    assert(way(names).take(k).push(StatusView::Success) =~= way(names).take(k)
                        + seq![StatusView::Success]);
                }
                Action::Return(reported)
            },
            None => {
                self.unwound = !self.runner.status().is_error();
                Action::Nothing
            },
        }
    }

    /// Takes what happened outside and answers with what is to be done
    /// next.
    pub fn step(&mut self, event: Event) -> (r: Action)
        requires
            old(self).wf(),
        ensures
            final(self).wf(),
            final(self).stepped_from(old(self), event, r),
    {
        if let Event::Dropped { panicking } = event {
            return self.close(panicking);
        }
        if self.phase != Phase::Waiting {
            return Action::Nothing;
        }
        match (self.position, event) {
            (Position::Created, Event::Invoked) => self.enter_assets(),
            (Position::Assets, Event::AssetsPrepared(result)) => match result {
                Ok(_) => self.next_stage(0, Ghost(event)),
                Err(cause) => self.fail(cause, Ghost(event)),
            },
            (Position::Building(index), Event::ImageBuilt(result)) => match result {
                Ok(image) => self.enter_run(index, image),
                Err(cause) => self.fail(cause, Ghost(event)),
            },
            (Position::Running(index), Event::ContainerExited(result)) => match result {
                Ok(_) => self.next_stage(index + 1, Ghost(event)),
                Err(cause) => self.fail(cause, Ghost(event)),
            },
            _ => Action::Nothing,
        }
    }
}

/// No status on the way of a task that does not fail ends a task.
pub proof fn lemma_way_has_no_end(names: Seq<Seq<char>>, k: int)
    requires
        0 <= k <= way(names).len(),
    ensures
        terminal_count(way(names).take(k)) == 0,
    decreases k,
{
    if k > 0 {
        lemma_way_has_no_end(names, k - 1);
        assert(way(names).take(k).drop_last() =~= way(names).take(k - 1));
        assert(way(names).take(k).last() == way_at(names, k - 1));
    }
}

/// A run that handed back success, and was closed while the process was
/// not unwinding, has had these statuses in this order and no others:
/// `Start`, `PrepareAssets`, for each stage in order `BuildStageScript` and
/// `RunStage` with its name, and `Success`.
pub proof fn lemma_success_trace<R: RunnerReporter>(run: TaskRun<R>)
    requires
        run.wf(),
        run.phase() is Closed,
        run.succeeded(),
        !run.unwound(),
    ensures
        run.trace() == way(run.names()).push(StatusView::Success),
{
    let names = run.names();
    assert(way(names).take(way(names).len() as int) =~= way(names));
    assert(way(names) + seq![StatusView::Success] =~= way(names).push(StatusView::Success));
}

/// At most one status of a run ends a task, and nothing follows it. A run
/// that was closed while the process was not unwinding has exactly one:
/// `Success` or an error.
pub proof fn lemma_one_end<R: RunnerReporter>(run: TaskRun<R>)
    requires
        run.wf(),
    ensures
        terminal_count(run.trace()) <= 1,
        terminal_count(run.trace()) == 1 <==> run.trace().last().is_terminal(),
        run.phase() is Closed && !run.unwound() ==> terminal_count(run.trace()) == 1,
{
    let names = run.names();
    let k = entered(run.position()) as int;
    let base = way(names).take(k);
    lemma_way_has_no_end(names, k);
    if run.current().is_terminal() {
        assert(run.trace() =~= base.push(run.current()));
        assert(run.trace().drop_last() =~= base);
    } else {
        assert(run.trace() =~= base);
        assert(base.last() == way_at(names, k - 1));
    }
}

} // verus!
