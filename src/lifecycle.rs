//! The lifecycle controller: the state machine that orders startup, reload
//! and shutdown of the daemon.
//!
//! The controller makes decisions only. Its caller performs each returned
//! action (loading the configuration, starting or stopping a service
//! generation, ...) and reports the outcome back as the next event, while
//! holding the lock that guards the controller, so that concurrent requests
//! are handled one at a time in the order in which they take the lock.
//!
//! Reload policy: a new generation is started before the old one is stopped,
//! and only once the new configuration has loaded and validated. A failed
//! reload leaves the old generation serving.

use vstd::prelude::*;

verus! {

/// The phase of the daemon's life.
#[derive(Clone, Copy, Debug, PartialEq, Eq, Structural)]
pub enum LifecycleState {
    Starting,
    Running,
    Reloading,
    ShuttingDown,
    Stopped,
    Failed,
}

/// The startup step that is awaited while the daemon is `Starting`.
#[derive(Clone, Copy, Debug, PartialEq, Eq, Structural)]
pub enum StartStage {
    Config,
    Logger,
    Service,
}

/// Why a configuration could not be loaded.
#[derive(Clone, Debug)]
pub enum ConfigError {
    /// The source cannot be read.
    NotFound,
    /// The source was read but did not parse or validate.
    Invalid(String),
}

/// Why the logger could not be set up.
#[derive(Clone, Copy, Debug, PartialEq, Eq, Structural)]
pub enum LoggerError {
    IoFailure,
}

/// Why a service generation could not start.
#[derive(Clone, Copy, Debug, PartialEq, Eq, Structural)]
pub enum StartError {
    ResourceUnavailable,
    InvalidConfig,
}

/// An error that the controller reports.
#[derive(Clone, Debug)]
pub enum LifecycleError {
    Config(ConfigError),
    Logger(LoggerError),
    Start(StartError),
    /// The logger became unusable while the daemon ran.
    LoggerLost,
}

/// What the controller is told: the outcome of an action, or a request.
#[derive(Debug)]
pub enum Event {
    /// The outcome of `LoadConfig`.
    ConfigLoaded(Result<(), ConfigError>),
    /// The outcome of `InitLogger`.
    LoggerReady(Result<(), LoggerError>),
    /// The outcome of `StartService` for the given generation.
    ServiceStarted(u64, Result<(), StartError>),
    /// A `StopService` has completed.
    ServiceStopped,
    ShutdownRequested,
    ReloadRequested,
    LoggerLost,
}

/// What the controller asks its caller to do next.
#[derive(Clone, Debug)]
pub enum Action {
    /// Load and validate the configuration.
    LoadConfig,
    /// Set up the logger from the loaded configuration.
    InitLogger,
    /// Start the given generation from the loaded configuration.
    StartService(u64),
    /// Stop accepting on the given generation, drain it and release its resources.
    StopService(u64),
    /// Log that a reload failed; the serving generation is unchanged.
    ReportReloadFailure(LifecycleError),
    /// Report the error, stop the generation if one is given, and exit with failure.
    Abort(LifecycleError, Option<u64>),
    /// Everything has stopped: exit with success.
    Exit,
    /// Nothing to do.
    Idle,
}

/// The controller's state as plain values.
pub struct ControllerModel {
    pub state: LifecycleState,
    pub stage: StartStage,
    /// The generation that serves.
    pub live: Option<u64>,
    /// The generation whose start is awaited.
    pub pending: Option<u64>,
    /// Stops issued during shutdown that have not completed.
    pub draining: u64,
    /// The number the next generation gets.
    pub next_generation: u64,
}

/// The lifecycle controller. Its invariant is `Controller::wf`.
pub struct Controller {
    state: LifecycleState,
    stage: StartStage,
    live: Option<u64>,
    pending: Option<u64>,
    draining: u64,
    next_generation: u64,
}

impl View for Controller {
    type V = ControllerModel;

    closed spec fn view(&self) -> ControllerModel {
        ControllerModel {
            state: self.state,
            stage: self.stage,
            live: self.live,
            pending: self.pending,
            draining: self.draining,
            next_generation: self.next_generation,
        }
    }
}

/// Whether a generation number is below a bound.
pub open spec fn below(g: Option<u64>, bound: u64) -> bool {
    g matches Some(x) ==> x < bound
}

/// The invariant of the controller, by state.
pub open spec fn wf(c: ControllerModel) -> bool {
    &&& below(c.live, c.next_generation)
    &&& below(c.pending, c.next_generation)
    &&& match c.state {
        LifecycleState::Starting => {
            &&& c.live is None
            &&& c.draining == 0
            &&& c.next_generation == if c.stage == StartStage::Service { 1u64 } else { 0u64 }
            &&& (c.pending is Some <==> c.stage == StartStage::Service)
        },
        LifecycleState::Running => c.live is Some && c.pending is None && c.draining == 0,
        LifecycleState::Reloading => c.live is Some && c.draining == 0,
        LifecycleState::ShuttingDown => {
            &&& c.live is None
            &&& 0 < outstanding(c) <= 3
        },
        LifecycleState::Stopped => c.live is None && c.pending is None && c.draining == 0,
        LifecycleState::Failed => c.live is None && c.pending is None && c.draining == 0,
    }
}

/// The work that shutdown still waits for: each drain counts once, and a
/// generation whose start is awaited twice (its start, then its stop).
pub open spec fn outstanding(c: ControllerModel) -> nat {
    c.draining as nat + if c.pending is Some { 2nat } else { 0nat }
}

/// A controller that has not yet done anything.
pub open spec fn initial() -> ControllerModel {
    ControllerModel {
        state: LifecycleState::Starting,
        stage: StartStage::Config,
        live: None,
        pending: None,
        draining: 0,
        next_generation: 0,
    }
}

/// The terminal failure state.
pub open spec fn failed(c: ControllerModel) -> ControllerModel {
    ControllerModel { state: LifecycleState::Failed, live: None, pending: None, draining: 0, ..c }
}

/// The terminal stopped state.
pub open spec fn stopped(c: ControllerModel) -> ControllerModel {
    ControllerModel { state: LifecycleState::Stopped, live: None, pending: None, draining: 0, ..c }
}

/// Shutdown begins: the serving generation is stopped at once.
pub open spec fn begin_shutdown(c: ControllerModel) -> (ControllerModel, Action) {
    (
        ControllerModel { state: LifecycleState::ShuttingDown, live: None, draining: 1, ..c },
        Action::StopService(c.live->0),
    )
}

/// A new generation is asked for, with the next number.
pub open spec fn start_generation(c: ControllerModel) -> (ControllerModel, Action) {
    (
        ControllerModel {
            pending: Some(c.next_generation),
            next_generation: (c.next_generation + 1) as u64,
            ..c
        },
        Action::StartService(c.next_generation),
    )
}

/// Whether `g` is the generation whose start is awaited.
pub open spec fn awaited(c: ControllerModel, g: u64) -> bool {
    c.pending == Some(g)
}

/// The controller's decision on an event: its next state and the action to
/// perform. Events that do not apply to the current state change nothing.
pub open spec fn next(c: ControllerModel, e: Event) -> (ControllerModel, Action) {
    let idle = (c, Action::Idle);
    match c.state {
        LifecycleState::Starting => match e {
            Event::ConfigLoaded(r) => if c.stage != StartStage::Config {
                idle
            } else {
                match r {
                    Ok(_) => (ControllerModel { stage: StartStage::Logger, ..c }, Action::InitLogger),
                    Err(x) => (failed(c), Action::Abort(LifecycleError::Config(x), None)),
                }
            },
            Event::LoggerReady(r) => if c.stage != StartStage::Logger {
                idle
            } else {
                match r {
                    Ok(_) => {
                        let (s, a) = start_generation(c);
                        (ControllerModel { stage: StartStage::Service, ..s }, a)
                    },
                    Err(x) => (failed(c), Action::Abort(LifecycleError::Logger(x), None)),
                }
            },
            Event::ServiceStarted(g, r) => if c.stage != StartStage::Service || !awaited(c, g) {
                idle
            } else {
                match r {
                    Ok(_) => (
                        ControllerModel {
                            state: LifecycleState::Running,
                            live: Some(g),
                            pending: None,
                            ..c
                        },
                        Action::Idle,
                    ),
                    Err(x) => (failed(c), Action::Abort(LifecycleError::Start(x), None)),
                }
            },
            Event::LoggerLost => (failed(c), Action::Abort(LifecycleError::LoggerLost, None)),
            _ => idle,
        },
        LifecycleState::Running => match e {
            Event::ReloadRequested => (
                ControllerModel { state: LifecycleState::Reloading, ..c },
                Action::LoadConfig,
            ),
            Event::ShutdownRequested => begin_shutdown(c),
            Event::LoggerLost => (failed(c), Action::Abort(LifecycleError::LoggerLost, c.live)),
            _ => idle,
        },
        LifecycleState::Reloading => match e {
            Event::ConfigLoaded(r) => if c.pending is Some {
                idle
            } else {
                match r {
                    Ok(_) => if c.next_generation < u64::MAX {
                        start_generation(c)
                    } else {
                        (
                            ControllerModel { state: LifecycleState::Running, ..c },
                            Action::ReportReloadFailure(
                                LifecycleError::Start(StartError::ResourceUnavailable),
                            ),
                        )
                    },
                    Err(x) => (
                        ControllerModel { state: LifecycleState::Running, ..c },
                        Action::ReportReloadFailure(LifecycleError::Config(x)),
                    ),
                }
            },
            Event::ServiceStarted(g, r) => if !awaited(c, g) {
                idle
            } else {
                match r {
                    Ok(_) => (
                        ControllerModel {
                            state: LifecycleState::Running,
                            live: Some(g),
                            pending: None,
                            ..c
                        },
                        Action::StopService(c.live->0),
                    ),
                    Err(x) => (
                        ControllerModel { state: LifecycleState::Running, pending: None, ..c },
                        Action::ReportReloadFailure(LifecycleError::Start(x)),
                    ),
                }
            },
            Event::ShutdownRequested => begin_shutdown(c),
            Event::LoggerLost => (failed(c), Action::Abort(LifecycleError::LoggerLost, c.live)),
            _ => idle,
        },
        LifecycleState::ShuttingDown => match e {
            Event::ServiceStarted(g, r) => if !awaited(c, g) {
                idle
            } else {
                match r {
                    Ok(_) => (
                        ControllerModel { pending: None, draining: (c.draining + 1) as u64, ..c },
                        Action::StopService(g),
                    ),
                    Err(_) => if c.draining == 0 {
                        (stopped(c), Action::Exit)
                    } else {
                        (ControllerModel { pending: None, ..c }, Action::Idle)
                    },
                }
            },
            Event::ServiceStopped => if c.draining == 0 {
                idle
            } else if c.draining == 1 && c.pending is None {
                (stopped(c), Action::Exit)
            } else {
                (ControllerModel { draining: (c.draining - 1) as u64, ..c }, Action::Idle)
            },
            _ => idle,
        },
        LifecycleState::Stopped => idle,
        LifecycleState::Failed => idle,
    }
}

/// Every decision keeps the invariant.
pub proof fn lemma_next_wf(c: ControllerModel, e: Event)
    requires
        wf(c),
    ensures
        wf(next(c, e).0),
{
}

/// The state after a sequence of events.
pub open spec fn run(c: ControllerModel, es: Seq<Event>) -> ControllerModel
    decreases es.len(),
{
    if es.len() == 0 {
        c
    } else {
        run(next(c, es[0]).0, es.drop_first())
    }
}

/// The actions decided along a sequence of events.
pub open spec fn actions(c: ControllerModel, es: Seq<Event>) -> Seq<Action>
    decreases es.len(),
{
    if es.len() == 0 {
        Seq::empty()
    } else {
        seq![next(c, es[0]).1] + actions(next(c, es[0]).0, es.drop_first())
    }
}

proof fn lemma_unfold(c: ControllerModel, es: Seq<Event>)
    ensures
        es.len() == 0 ==> run(c, es) == c && actions(c, es) == Seq::<Action>::empty(),
        es.len() > 0 ==> run(c, es) == run(next(c, es[0]).0, es.drop_first()),
        es.len() > 0 ==> actions(c, es) == seq![next(c, es[0]).1] + actions(
            next(c, es[0]).0,
            es.drop_first(),
        ),
{
}

/// Startup goes configuration, then logger, then service, one step per
/// successful outcome; a failed step ends in `Failed` with that step's error,
/// and no later step is asked for.
pub proof fn lemma_start_order(c: ControllerModel, e: Event)
    requires
        wf(c),
        c.state == LifecycleState::Starting,
    ensures
        next(c, e).1 is InitLogger ==> c.stage == StartStage::Config && e matches Event::ConfigLoaded(
            Ok(_),
        ),
        next(c, e).1 is StartService ==> c.stage == StartStage::Logger && e matches Event::LoggerReady(
            Ok(_),
        ),
        next(c, e).0.state == LifecycleState::Running ==> c.stage == StartStage::Service
            && e matches Event::ServiceStarted(_, Ok(_)),
        next(c, e).0.state == LifecycleState::Starting ==> {
            ||| next(c, e).0.stage == c.stage
            ||| (c.stage == StartStage::Config && next(c, e).0.stage == StartStage::Logger)
            ||| (c.stage == StartStage::Logger && next(c, e).0.stage == StartStage::Service)
        },
        next(c, e).0.state == LifecycleState::Failed ==> next(c, e).1 matches Action::Abort(_, None),
        next(c, e).0.state != LifecycleState::Starting ==> next(c, e).0.state
            == LifecycleState::Running || next(c, e).0.state == LifecycleState::Failed,
        c.stage == StartStage::Config ==> (e matches Event::ConfigLoaded(Err(x)) ==> next(c, e)
            == (failed(c), Action::Abort(LifecycleError::Config(x), None))),
        c.stage == StartStage::Logger ==> (e matches Event::LoggerReady(Err(x)) ==> next(c, e)
            == (failed(c), Action::Abort(LifecycleError::Logger(x), None))),
        c.stage == StartStage::Service ==> (e matches Event::ServiceStarted(g, Err(x)) ==> (awaited(
            c,
            g,
        ) ==> next(c, e) == (failed(c), Action::Abort(LifecycleError::Start(x), None)))),
{
}

/// A reload with a configuration that loads and validates ends in `Running`
/// with the new generation alone serving, and the old one is stopped.
pub proof fn lemma_reload_valid(c: ControllerModel)
    requires
        wf(c),
        c.state == LifecycleState::Running,
        c.next_generation < u64::MAX,
    ensures
        ({
            let g = c.next_generation;
            let old_live = c.live->0;
            let es = seq![
                Event::ReloadRequested,
                Event::ConfigLoaded(Ok(())),
                Event::ServiceStarted(g, Ok(())),
            ];
            let d = run(c, es);
            &&& actions(c, es) == seq![
                Action::LoadConfig,
                Action::StartService(g),
                Action::StopService(old_live),
            ]
            &&& d.state == LifecycleState::Running
            &&& d.live == Some(g)
            &&& g != old_live
            &&& d.pending is None
            &&& wf(d)
        }),
{
    let g = c.next_generation;
    let es = seq![
        Event::ReloadRequested,
        Event::ConfigLoaded(Ok(())),
        Event::ServiceStarted(g, Ok(())),
    ];
    let c1 = next(c, es[0]).0;
    let c2 = next(c1, es[1]).0;
    let c3 = next(c2, es[2]).0;
    let t1 = es.drop_first();
    let t2 = t1.drop_first();
    let t3 = t2.drop_first();
    assert(t1 =~= seq![es[1], es[2]]);
    assert(t2 =~= seq![es[2]]);
    assert(t3 =~= Seq::<Event>::empty());
    lemma_unfold(c, es);
    lemma_unfold(c1, t1);
    lemma_unfold(c2, t2);
    lemma_unfold(c3, t3);
    assert(actions(c, es) =~= seq![next(c, es[0]).1, next(c1, es[1]).1, next(c2, es[2]).1]);
    lemma_next_wf(c, es[0]);
    lemma_next_wf(c1, es[1]);
    lemma_next_wf(c2, es[2]);
}

/// A reload whose configuration fails to load or validate returns to
/// `Running` with the same generation serving, and the error is reported.
pub proof fn lemma_reload_invalid(c: ControllerModel, x: ConfigError)
    requires
        wf(c),
        c.state == LifecycleState::Running,
    ensures
        ({
            let es = seq![Event::ReloadRequested, Event::ConfigLoaded(Err(x))];
            let d = run(c, es);
            &&& actions(c, es) == seq![
                Action::LoadConfig,
                Action::ReportReloadFailure(LifecycleError::Config(x)),
            ]
            &&& d.state == LifecycleState::Running
            &&& d.live == c.live
            &&& d.pending is None
        }),
{
    let es = seq![Event::ReloadRequested, Event::ConfigLoaded(Err(x))];
    let c1 = next(c, es[0]).0;
    let c2 = next(c1, es[1]).0;
    let t1 = es.drop_first();
    let t2 = t1.drop_first();
    assert(t1 =~= seq![es[1]]);
    assert(t2 =~= Seq::<Event>::empty());
    lemma_unfold(c, es);
    lemma_unfold(c1, t1);
    lemma_unfold(c2, t2);
    assert(actions(c, es) =~= seq![next(c, es[0]).1, next(c1, es[1]).1]);
}

/// A shutdown request while running or reloading moves to `ShuttingDown`
/// and at once stops the serving generation, whether or not a reload is
/// under way.
pub proof fn lemma_shutdown_preempts(c: ControllerModel)
    requires
        wf(c),
        c.state == LifecycleState::Running || c.state == LifecycleState::Reloading,
    ensures
        next(c, Event::ShutdownRequested).0.state == LifecycleState::ShuttingDown,
        next(c, Event::ShutdownRequested).0.live is None,
        next(c, Event::ShutdownRequested).1 == Action::StopService(c.live->0),
{
}

/// A shutdown and a reload that reach a running daemon in either order both
/// lead to `ShuttingDown`, with the serving generation stopped; once that
/// stop completes the daemon is `Stopped`.
pub proof fn lemma_shutdown_reload_race(c: ControllerModel)
    requires
        wf(c),
        c.state == LifecycleState::Running,
    ensures
        run(c, seq![Event::ShutdownRequested, Event::ReloadRequested]).state
            == LifecycleState::ShuttingDown,
        run(c, seq![Event::ReloadRequested, Event::ShutdownRequested]).state
            == LifecycleState::ShuttingDown,
        run(c, seq![Event::ShutdownRequested, Event::ReloadRequested, Event::ServiceStopped]).state
            == LifecycleState::Stopped,
        run(c, seq![Event::ReloadRequested, Event::ShutdownRequested, Event::ServiceStopped]).state
            == LifecycleState::Stopped,
{
    lemma_run_three(c, Event::ShutdownRequested, Event::ReloadRequested, Event::ServiceStopped);
    lemma_run_three(c, Event::ReloadRequested, Event::ShutdownRequested, Event::ServiceStopped);
}

proof fn lemma_run_three(c: ControllerModel, e1: Event, e2: Event, e3: Event)
    ensures
        run(c, seq![e1, e2]) == next(next(c, e1).0, e2).0,
        run(c, seq![e1, e2, e3]) == next(next(next(c, e1).0, e2).0, e3).0,
{
    let c1 = next(c, e1).0;
    let c2 = next(c1, e2).0;
    let c3 = next(c2, e3).0;
    let two = seq![e1, e2];
    let three = seq![e1, e2, e3];
    assert(two.drop_first() =~= seq![e2]);
    assert(seq![e2].drop_first() =~= Seq::<Event>::empty());
    assert(three.drop_first() =~= seq![e2, e3]);
    assert(seq![e2, e3].drop_first() =~= seq![e3]);
    assert(seq![e3].drop_first() =~= Seq::<Event>::empty());
    lemma_unfold(c, two);
    lemma_unfold(c1, seq![e2]);
    lemma_unfold(c2, Seq::<Event>::empty());
    lemma_unfold(c, three);
    lemma_unfold(c1, seq![e2, e3]);
    lemma_unfold(c2, seq![e3]);
    lemma_unfold(c3, Seq::<Event>::empty());
}

/// Once shutdown has begun, no event starts or installs a generation: the
/// daemon stays `ShuttingDown` until it is `Stopped`, nothing serves, and no
/// configuration load or service start is asked for.
pub proof fn lemma_no_install_after_shutdown(c: ControllerModel, es: Seq<Event>)
    requires
        wf(c),
        c.state == LifecycleState::ShuttingDown,
    ensures
        run(c, es).state == LifecycleState::ShuttingDown || run(c, es).state
            == LifecycleState::Stopped,
        run(c, es).live is None,
        forall|i: int|
            0 <= i < actions(c, es).len() ==> !(#[trigger] actions(c, es)[i] is StartService)
                && !(actions(c, es)[i] is LoadConfig),
    decreases es.len(),
{
    if es.len() > 0 {
        let d = next(c, es[0]).0;
        lemma_next_wf(c, es[0]);
        if d.state == LifecycleState::ShuttingDown {
            lemma_no_install_after_shutdown(d, es.drop_first());
        } else {
            lemma_terminal_stays(d, es.drop_first());
        }
        let rest = actions(d, es.drop_first());
        assert(actions(c, es) == seq![next(c, es[0]).1] + rest);
        assert forall|i: int| 0 <= i < actions(c, es).len() implies !(#[trigger] actions(
            c,
            es,
        )[i] is StartService) && !(actions(c, es)[i] is LoadConfig) by {
            if i > 0 {
                assert(actions(c, es)[i] == rest[i - 1]);
            }
        }
    }
}

/// `Stopped` and `Failed` are terminal: every later event leaves the
/// controller as it is, and nothing more is asked for.
pub proof fn lemma_terminal_stays(c: ControllerModel, es: Seq<Event>)
    requires
        c.state == LifecycleState::Stopped || c.state == LifecycleState::Failed,
    ensures
        run(c, es) == c,
        forall|i: int| 0 <= i < actions(c, es).len() ==> #[trigger] actions(c, es)[i] is Idle,
    decreases es.len(),
{
    if es.len() > 0 {
        lemma_terminal_stays(c, es.drop_first());
        let rest = actions(c, es.drop_first());
        assert forall|i: int| 0 <= i < actions(c, es).len() implies #[trigger] actions(
            c,
            es,
        )[i] is Idle by {
            if i > 0 {
                assert(actions(c, es)[i] == rest[i - 1]);
            }
        }
    }
}

/// During shutdown each completed start or stop that the controller waits
/// for brings it closer to `Stopped`: it is reached, or less work remains.
pub proof fn lemma_shutdown_progress(c: ControllerModel, e: Event)
    requires
        wf(c),
        c.state == LifecycleState::ShuttingDown,
        (e is ServiceStopped && c.draining > 0) || (e matches Event::ServiceStarted(g, _)
            && awaited(c, g)),
    ensures
        next(c, e).0.state == LifecycleState::Stopped || (next(c, e).0.state
            == LifecycleState::ShuttingDown && outstanding(next(c, e).0) < outstanding(c)),
        next(c, e).0.state == LifecycleState::Stopped ==> next(c, e).1 is Exit,
{
}

impl Controller {
    /// The invariant.
    pub closed spec fn wf(&self) -> bool {
        wf(self@)
    }

    /// A controller at the start of startup, which awaits the configuration.
    pub fn new() -> (r: Controller)
        ensures
            r@ == initial(),
            r.wf(),
    {
        Controller {
            state: LifecycleState::Starting,
            stage: StartStage::Config,
            live: None,
            pending: None,
            draining: 0,
            next_generation: 0,
        }
    }

    /// The first action of startup: load the configuration.
    pub fn first_action(&self) -> (r: Action)
        ensures
            r == Action::LoadConfig,
    {
        Action::LoadConfig
    }

    /// The current phase.
    pub fn state(&self) -> (r: LifecycleState)
        ensures
            r == self@.state,
    {
        self.state
    }

    /// The generation that serves, if any.
    pub fn live_generation(&self) -> (r: Option<u64>)
        ensures
            r == self@.live,
    {
        self.live
    }

    /// The generation whose start is awaited, if any.
    pub fn pending_generation(&self) -> (r: Option<u64>)
        ensures
            r == self@.pending,
    {
        self.pending
    }

    /// Whether the daemon has reached `Stopped` or `Failed`.
    pub fn is_terminal(&self) -> (r: bool)
        ensures
            r == (self@.state == LifecycleState::Stopped || self@.state == LifecycleState::Failed),
    {
        match self.state {
            LifecycleState::Stopped | LifecycleState::Failed => true,
            _ => false,
        }
    }

    fn fail(&mut self)
        ensures
            final(self)@ == failed(old(self)@),
    {
        self.state = LifecycleState::Failed;
        self.live = None;
        self.pending = None;
        self.draining = 0;
    }

    fn stop_all(&mut self)
        ensures
            final(self)@ == stopped(old(self)@),
    {
        self.state = LifecycleState::Stopped;
        self.live = None;
        self.pending = None;
        self.draining = 0;
    }

    fn shut_down(&mut self) -> (r: Action)
        requires
            old(self)@.live is Some,
        ensures
            (final(self)@, r) == begin_shutdown(old(self)@),
    {
        let g = match self.live {
            Some(g) => g,
            None => 0,
        };
        self.state = LifecycleState::ShuttingDown;
        self.live = None;
        self.draining = 1;
        Action::StopService(g)
    }

    fn start_next(&mut self) -> (r: Action)
        requires
            old(self)@.next_generation < u64::MAX,
        ensures
            (final(self)@, r) == start_generation(old(self)@),
    {
        let g = self.next_generation;
        self.pending = Some(g);
        self.next_generation = g + 1;
        Action::StartService(g)
    }

    fn is_awaited(&self, g: u64) -> (r: bool)
        ensures
            r == awaited(self@, g),
    {
        match self.pending {
            Some(p) => p == g,
            None => false,
        }
    }

    /// Decides on an event: moves to the next state and returns the action to
    /// perform, as `next` states. The invariant is kept.
    pub fn step(&mut self, e: Event) -> (r: Action)
        requires
            old(self).wf(),
        ensures
            final(self).wf(),
            (final(self)@, r) == next(old(self)@, e),
    {
        match self.state {
            LifecycleState::Starting => match e {
                Event::ConfigLoaded(r) => if self.stage != StartStage::Config {
                    Action::Idle
                } else {
                    match r {
                        Ok(_) => {
                            self.stage = StartStage::Logger;
                            Action::InitLogger
                        },
                        Err(x) => {
                            self.fail();
                            Action::Abort(LifecycleError::Config(x), None)
                        },
                    }
                },
                Event::LoggerReady(r) => if self.stage != StartStage::Logger {
                    Action::Idle
                } else {
                    match r {
                        Ok(_) => {
                            let a = self.start_next();
                            self.stage = StartStage::Service;
                            a
                        },
                        Err(x) => {
                            self.fail();
                            Action::Abort(LifecycleError::Logger(x), None)
                        },
                    }
                },
                Event::ServiceStarted(g, r) => if self.stage != StartStage::Service
                    || !self.is_awaited(g) {
                    Action::Idle
                } else {
                    match r {
                        Ok(_) => {
                            self.state = LifecycleState::Running;
                            self.live = Some(g);
                            self.pending = None;
                            Action::Idle
                        },
                        Err(x) => {
                            self.fail();
                            Action::Abort(LifecycleError::Start(x), None)
                        },
                    }
                },
                Event::LoggerLost => {
                    self.fail();
                    Action::Abort(LifecycleError::LoggerLost, None)
                },
                _ => Action::Idle,
            },
            LifecycleState::Running => match e {
                Event::ReloadRequested => {
                    self.state = LifecycleState::Reloading;
                    Action::LoadConfig
                },
                Event::ShutdownRequested => self.shut_down(),
                Event::LoggerLost => {
                    let live = self.live;
                    self.fail();
                    Action::Abort(LifecycleError::LoggerLost, live)
                },
                _ => Action::Idle,
            },
            LifecycleState::Reloading => match e {
                Event::ConfigLoaded(r) => if self.pending.is_some() {
                    Action::Idle
                } else {
                    match r {
                        Ok(_) => if self.next_generation < u64::MAX {
                            self.start_next()
                        } else {
                            self.state = LifecycleState::Running;
                            Action::ReportReloadFailure(
                                LifecycleError::Start(StartError::ResourceUnavailable),
                            )
                        },
                        Err(x) => {
                            self.state = LifecycleState::Running;
                            Action::ReportReloadFailure(LifecycleError::Config(x))
                        },
                    }
                },
                Event::ServiceStarted(g, r) => if !self.is_awaited(g) {
                    Action::Idle
                } else {
                    match r {
                        Ok(_) => {
                            let old_live = match self.live {
                                Some(o) => o,
                                None => 0,
                            };
                            self.state = LifecycleState::Running;
                            self.live = Some(g);
                            self.pending = None;
                            Action::StopService(old_live)
                        },
                        Err(x) => {
                            self.state = LifecycleState::Running;
                            self.pending = None;
                            Action::ReportReloadFailure(LifecycleError::Start(x))
                        },
                    }
                },
                Event::ShutdownRequested => self.shut_down(),
                Event::LoggerLost => {
                    let live = self.live;
                    self.fail();
                    Action::Abort(LifecycleError::LoggerLost, live)
                },
                _ => Action::Idle,
            },
            LifecycleState::ShuttingDown => match e {
                Event::ServiceStarted(g, r) => if !self.is_awaited(g) {
                    Action::Idle
                } else {
                    match r {
                        Ok(_) => {
                            self.pending = None;
                            self.draining = self.draining + 1;
                            Action::StopService(g)
                        },
                        Err(_) => if self.draining == 0 {
                            self.stop_all();
                            Action::Exit
                        } else {
                            self.pending = None;
                            Action::Idle
                        },
                    }
                },
                Event::ServiceStopped => if self.draining == 0 {
                    Action::Idle
                } else if self.draining == 1 && self.pending.is_none() {
                    self.stop_all();
                    Action::Exit
                } else {
                    self.draining = self.draining - 1;
                    Action::Idle
                },
                _ => Action::Idle,
            },
            LifecycleState::Stopped => Action::Idle,
            LifecycleState::Failed => Action::Idle,
        }
    }
}

/// The process's exit status in a terminal state: success when `Stopped`,
/// failure when `Failed`; none while the daemon runs.
pub open spec fn exit_status(s: LifecycleState) -> Option<i32> {
    match s {
        LifecycleState::Stopped => Some(0),
        LifecycleState::Failed => Some(1),
        _ => None,
    }
}

/// The exit status for a state, as `exit_status` states.
pub fn exit_code(s: LifecycleState) -> (r: Option<i32>)
    ensures
        r == exit_status(s),
{
    match s {
        LifecycleState::Stopped => Some(0),
        LifecycleState::Failed => Some(1),
        _ => None,
    }
}

} // verus!
