//! The reconciliation loop as a state machine.
//!
//! The program that drives the loop does what a [`Request`] names and hands
//! back what came of it as an [`Event`]. Every decision lies in
//! [`State::step`]: the next state, what the user is told, the theme to
//! apply, and the next request. A state has exactly one outstanding request;
//! an event that does not answer it changes nothing and has the request
//! issued again.

use vstd::prelude::*;
use crate::clock::CivilDate;
use crate::clock::ClockReading;
use crate::config::Config;
use crate::config::ConfigDocument;
use crate::config::ConfigError;
use crate::config::Location;
use crate::notification::Notice;
use crate::schedule::effective_variant;
use crate::schedule::plan_today;
use crate::schedule::plan_tomorrow;
use crate::schedule::resolve_variant;
use crate::schedule::today_plan;
use crate::schedule::tomorrow_plan;
use crate::schedule::Plan;
use crate::theme::ThemeVariant;

verus! {

/// What the watcher of the configuration file sends.
#[derive(Debug, Clone, Copy, PartialEq, Eq, Structural)]
pub enum SignalEvent {
    /// The file was written.
    ConfigChanged,
    /// The watcher is gone and will send nothing more.
    WatcherClosed,
}

/// What the outside world reports to the loop.
#[derive(Debug, Clone, PartialEq, Eq)]
pub enum Event {
    /// At startup the configuration file is there.
    ConfigFound,
    /// At startup there is no configuration file.
    ConfigMissing,
    /// The file was read and parsed into a document.
    Loaded(ConfigDocument),
    /// The file could not be read or parsed; the text says why.
    LoadFailed(String),
    /// The clock was read.
    Clock(ClockReading),
    /// The solar clock gave sunrise and sunset of the date asked for.
    SolarTimes { sunrise: i64, sunset: i64 },
    /// The wait ended with no signal.
    TimedOut,
    /// The wait ended with a signal.
    Signal(SignalEvent),
}

/// What the loop asks of the outside world next.
#[derive(Debug, Clone, Copy, PartialEq, Eq, Structural)]
pub enum Request {
    /// Tell whether the configuration file exists.
    ProbeConfig,
    /// Read and parse the configuration file.
    LoadConfig,
    /// Read the clock.
    ReadClock,
    /// Compute sunrise and sunset of a date at a location.
    SolarTimes { location: Location, date: CivilDate },
    /// Wait for a signal, for so many seconds at most.
    Wait { seconds: u64 },
    /// Wait for a signal, however long it takes.
    AwaitSignal,
    /// End the process with this exit code.
    Exit { code: i32 },
}

/// Where a running loop stands within one cycle.
#[derive(Debug, Clone, Copy, PartialEq, Eq, Structural)]
pub enum Stage {
    /// The cycle begins: the clock is to be read.
    Clock,
    /// Today's sunrise and sunset are asked for.
    Today(ClockReading),
    /// The sun has set; tomorrow's sunrise is asked for.
    Tomorrow(ClockReading),
    /// The theme is applied; the loop sleeps for so many seconds at most.
    Sleeping(u64),
}

/// The state of the loop.
#[derive(Debug, Clone, Copy, PartialEq, Eq, Structural)]
pub enum State {
    /// The process has started and looks for its configuration file.
    Starting,
    /// The configuration is to be loaded.
    Load,
    /// The configuration is in force.
    Running { config: Config, stage: Stage },
    /// The last load failed; the loop waits for the file to change.
    ConfigInvalid,
    /// The configuration switches the feature off. Final.
    Disabled,
    /// The watcher is gone. Final.
    Terminated,
    /// There was no configuration file at startup. Final.
    ConfigNotFound,
}

/// What one step orders: a notification, a theme to apply, and then the
/// next request. The theme is written before the request is served.
#[derive(Debug, Clone, PartialEq, Eq)]
pub struct Directive {
    pub notice: Option<Notice>,
    pub apply: Option<ThemeVariant>,
    pub request: Request,
}

/// The exit code of an orderly end.
pub const EXIT_SUCCESS: i32 = 0;

/// The exit code where the configuration file is missing at startup.
pub const EXIT_CONFIG_MISSING: i32 = 1;

impl State {
    /// The state of a process that has just started.
    pub fn initial() -> (state: State)
        ensures
            state == State::Starting,
            state.well_formed(),
    {
        State::Starting
    }

    /// The invariant of the loop: a sleep is never longer than the refresh
    /// period of the configuration in force. The initial state has it and
    /// every step keeps it.
    pub open spec fn well_formed(self) -> bool {
        self matches State::Running { config, stage: Stage::Sleeping(seconds) } ==> seconds
            <= config.refresh_period_seconds
    }

    /// No event leaves this state.
    pub open spec fn is_final(self) -> bool {
        self is Disabled || self is Terminated || self is ConfigNotFound
    }

    /// The one request that is outstanding in this state.
    pub open spec fn request(self) -> Request {
        match self {
            State::Starting => Request::ProbeConfig,
            State::Load => Request::LoadConfig,
            State::Running { config, stage } => match stage {
                Stage::Clock => Request::ReadClock,
                Stage::Today(clock) => Request::SolarTimes {
                    location: config.location,
                    date: clock.today,
                },
                Stage::Tomorrow(clock) => Request::SolarTimes {
                    location: config.location,
                    date: clock.tomorrow,
                },
                Stage::Sleeping(seconds) => Request::Wait { seconds },
            },
            State::ConfigInvalid => Request::AwaitSignal,
            State::Disabled => Request::Exit { code: EXIT_SUCCESS },
            State::Terminated => Request::Exit { code: EXIT_SUCCESS },
            State::ConfigNotFound => Request::Exit { code: EXIT_CONFIG_MISSING },
        }
    }

    /// Entering a state with nothing to tell and nothing to apply.
    pub open spec fn entered(self) -> (State, Directive) {
        (self, Directive { notice: None, apply: None, request: self.request() })
    }

    /// Entering a state with a notification.
    pub open spec fn announced(self, notice: Notice) -> (State, Directive) {
        (self, Directive { notice: Some(notice), apply: None, request: self.request() })
    }

    /// Going to sleep on a plan: the theme it names is applied, inverted
    /// where the configuration says so.
    pub open spec fn asleep(config: Config, plan: Plan) -> (State, Directive) {
        let state = State::Running { config, stage: Stage::Sleeping(plan.wait_seconds) };
        (
            state,
            Directive {
                notice: None,
                apply: Some(effective_variant(plan.variant, config.invert)),
                request: state.request(),
            },
        )
    }

    /// What a document that was just loaded leads to.
    pub open spec fn after_load(document: ConfigDocument) -> (State, Directive) {
        match document.resolved() {
            Err(error) => State::ConfigInvalid.announced(Notice::InvalidConfig(error)),
            Ok(config) => if config.disabled {
                if config.notifications_enabled {
                    State::Disabled.announced(Notice::Disabled)
                } else {
                    State::Disabled.entered()
                }
            } else {
                (State::Running { config, stage: Stage::Clock }).entered()
            },
        }
    }

    /// What a signal leads to, in any state that waits for one.
    pub open spec fn after_signal(signal: SignalEvent) -> (State, Directive) {
        match signal {
            SignalEvent::ConfigChanged => State::Load.entered(),
            SignalEvent::WatcherClosed => State::Terminated.entered(),
        }
    }

    /// What an event leads to while a configuration is in force.
    pub open spec fn after_running(config: Config, stage: Stage, event: Event) -> (State, Directive) {
        let stay = (State::Running { config, stage }).entered();
        match stage {
            Stage::Clock => match event {
                Event::Clock(clock) => (State::Running { config, stage: Stage::Today(clock) }).entered(),
                _ => stay,
            },
            Stage::Today(clock) => match event {
                Event::SolarTimes { sunrise, sunset } => match today_plan(
                    clock.now as int,
                    sunrise as int,
                    sunset as int,
                    config.refresh_period_seconds as int,
                ) {
                    Some(plan) => Self::asleep(config, plan),
                    None => (State::Running { config, stage: Stage::Tomorrow(clock) }).entered(),
                },
                _ => stay,
            },
            Stage::Tomorrow(clock) => match event {
                Event::SolarTimes { sunrise, sunset: _ } => Self::asleep(
                    config,
                    tomorrow_plan(
                        clock.now as int,
                        sunrise as int,
                        config.refresh_period_seconds as int,
                    ),
                ),
                _ => stay,
            },
            Stage::Sleeping(_) => match event {
                Event::TimedOut => (State::Running { config, stage: Stage::Clock }).entered(),
                Event::Signal(signal) => Self::after_signal(signal),
                _ => stay,
            },
        }
    }

    /// The transition relation of the loop, as a function: the state that
    /// follows `self` on `event`, and what the step orders.
    pub open spec fn next(self, event: Event) -> (State, Directive) {
        match self {
            State::Starting => match event {
                Event::ConfigFound => State::Load.entered(),
                Event::ConfigMissing => State::ConfigNotFound.announced(Notice::ConfigMissing),
                _ => self.entered(),
            },
            State::Load => match event {
                Event::Loaded(document) => Self::after_load(document),
                Event::LoadFailed(details) => State::ConfigInvalid.announced(
                    Notice::InvalidConfig(ConfigError::Unreadable(details)),
                ),
                _ => self.entered(),
            },
            State::Running { config, stage } => Self::after_running(config, stage, event),
            State::ConfigInvalid => match event {
                Event::Signal(signal) => Self::after_signal(signal),
                _ => self.entered(),
            },
            State::Disabled => self.entered(),
            State::Terminated => self.entered(),
            State::ConfigNotFound => self.entered(),
        }
    }

    /// Tells the outstanding request of this state.
    pub fn outstanding(&self) -> (request: Request)
        ensures
            request == self.request(),
    {
        match self {
            State::Starting => Request::ProbeConfig,
            State::Load => Request::LoadConfig,
            State::Running { config, stage } => match stage {
                Stage::Clock => Request::ReadClock,
                Stage::Today(clock) => Request::SolarTimes {
                    location: config.location,
                    date: clock.today,
                },
                Stage::Tomorrow(clock) => Request::SolarTimes {
                    location: config.location,
                    date: clock.tomorrow,
                },
                Stage::Sleeping(seconds) => Request::Wait { seconds: *seconds },
            },
            State::ConfigInvalid => Request::AwaitSignal,
            State::Disabled => Request::Exit { code: EXIT_SUCCESS },
            State::Terminated => Request::Exit { code: EXIT_SUCCESS },
            State::ConfigNotFound => Request::Exit { code: EXIT_CONFIG_MISSING },
        }
    }

    /// Tells whether the loop has ended.
    pub fn has_ended(&self) -> (ended: bool)
        ensures
            ended == self.is_final(),
    {
        match self {
            State::Disabled => true,
            State::Terminated => true,
            State::ConfigNotFound => true,
            _ => false,
        }
    }

    fn enter(self) -> (result: (State, Directive))
        ensures
            result == self.entered(),
    {
        let request = self.outstanding();
        (self, Directive { notice: None, apply: None, request })
    }

    fn announce(self, notice: Notice) -> (result: (State, Directive))
        ensures
            result == self.announced(notice),
    {
        let request = self.outstanding();
        (self, Directive { notice: Some(notice), apply: None, request })
    }

    fn sleep_on(config: Config, plan: Plan) -> (result: (State, Directive))
        ensures
            result == Self::asleep(config, plan),
    {
        let state = State::Running { config, stage: Stage::Sleeping(plan.wait_seconds) };
        let apply = resolve_variant(plan.variant, config.invert);
        (state, Directive { notice: None, apply: Some(apply), request: state.outstanding() })
    }

    fn on_load(document: ConfigDocument) -> (result: (State, Directive))
        ensures
            result == Self::after_load(document),
    {
        match Config::from_document(document) {
            Err(error) => State::ConfigInvalid.announce(Notice::InvalidConfig(error)),
            Ok(config) => {
                if config.disabled {
                    if config.notifications_enabled {
                        State::Disabled.announce(Notice::Disabled)
                    } else {
                        State::Disabled.enter()
                    }
                } else {
                    (State::Running { config, stage: Stage::Clock }).enter()
                }
            },
        }
    }

    fn on_signal(signal: SignalEvent) -> (result: (State, Directive))
        ensures
            result == Self::after_signal(signal),
    {
        match signal {
            SignalEvent::ConfigChanged => State::Load.enter(),
            SignalEvent::WatcherClosed => State::Terminated.enter(),
        }
    }

    fn on_running(config: Config, stage: Stage, event: Event) -> (result: (State, Directive))
        ensures
            result == Self::after_running(config, stage, event),
    {
        match stage {
            Stage::Clock => match event {
                Event::Clock(clock) => (State::Running { config, stage: Stage::Today(clock) }).enter(),
                _ => (State::Running { config, stage }).enter(),
            },
            Stage::Today(clock) => match event {
                Event::SolarTimes { sunrise, sunset } => {
                    match plan_today(clock.now, sunrise, sunset, config.refresh_period_seconds) {
                        Some(plan) => Self::sleep_on(config, plan),
                        None => (State::Running { config, stage: Stage::Tomorrow(clock) }).enter(),
                    }
                },
                _ => (State::Running { config, stage }).enter(),
            },
            Stage::Tomorrow(clock) => match event {
                Event::SolarTimes { sunrise, sunset: _ } => Self::sleep_on(
                    config,
                    plan_tomorrow(clock.now, sunrise, config.refresh_period_seconds),
                ),
                _ => (State::Running { config, stage }).enter(),
            },
            Stage::Sleeping(_) => match event {
                Event::TimedOut => (State::Running { config, stage: Stage::Clock }).enter(),
                Event::Signal(signal) => Self::on_signal(signal),
                _ => (State::Running { config, stage }).enter(),
            },
        }
    }

    /// Takes one step of the loop: from this state and an event to the next
    /// state and the directive for the driver.
    ///
    /// A load that fails, or gives a document without a location, leads to
    /// `ConfigInvalid` with a notification. A configuration that is disabled
    /// ends the loop with exit code 0, after a notification if notifications
    /// are enabled. Otherwise a cycle runs: clock, solar times, theme, sleep.
    /// While asleep or invalid, a changed file leads back to `Load` and a
    /// closed watcher to `Terminated`.
    pub fn step(self, event: Event) -> (result: (State, Directive))
        ensures
            result == self.next(event),
            self.well_formed() ==> result.0.well_formed(),
            result.1.request == result.0.request(),
            result.1.apply is Some ==> self is Running && result.0 is Running,
            self.is_final() ==> result.0 == self,
    {
        match self {
            State::Starting => match event {
                Event::ConfigFound => State::Load.enter(),
                Event::ConfigMissing => State::ConfigNotFound.announce(Notice::ConfigMissing),
                _ => self.enter(),
            },
            State::Load => match event {
                Event::Loaded(document) => Self::on_load(document),
                Event::LoadFailed(details) => State::ConfigInvalid.announce(
                    Notice::InvalidConfig(ConfigError::Unreadable(details)),
                ),
                _ => self.enter(),
            },
            State::Running { config, stage } => Self::on_running(config, stage, event),
            State::ConfigInvalid => match event {
                Event::Signal(signal) => Self::on_signal(signal),
                _ => self.enter(),
            },
            State::Disabled => self.enter(),
            State::Terminated => self.enter(),
            State::ConfigNotFound => self.enter(),
        }
    }
}

/// A reload that is triggered while the loop sleeps takes effect at once.
/// The change of the file leads to a load; the configuration that the load
/// gives is then the only one in force: the solar times are asked for at its
/// location, the theme is inverted as it says, and the sleep is bounded by
/// its refresh period. Nothing of the old configuration is used again.
pub proof fn lemma_reload_takes_effect_at_once(
    old_config: Config,
    seconds: u64,
    document: ConfigDocument,
    config: Config,
    clock: ClockReading,
    sunrise: i64,
    sunset: i64,
    tomorrow_sunrise: i64,
    tomorrow_sunset: i64,
)
    requires
        document.resolved() == Ok::<Config, ConfigError>(config),
        !config.disabled,
    ensures
        ({
            let asleep = State::Running { config: old_config, stage: Stage::Sleeping(seconds) };
            let (reloading, reload) = asleep.next(Event::Signal(SignalEvent::ConfigChanged));
            let (started, start) = reloading.next(Event::Loaded(document));
            let (asking, ask) = started.next(Event::Clock(clock));
            let (decided, decision) = asking.next(Event::SolarTimes { sunrise, sunset });
            let (late, late_decision) = decided.next(
                Event::SolarTimes { sunrise: tomorrow_sunrise, sunset: tomorrow_sunset },
            );
            &&& reloading == State::Load
            &&& reload.request == Request::LoadConfig
            &&& reload.apply is None
            &&& started == (State::Running { config, stage: Stage::Clock })
            &&& start.request == Request::ReadClock
            &&& start.apply is None
            &&& ask.request == (Request::SolarTimes { location: config.location, date: clock.today })
            &&& ask.apply is None
            &&& match today_plan(
                clock.now as int,
                sunrise as int,
                sunset as int,
                config.refresh_period_seconds as int,
            ) {
                Some(plan) => {
                    &&& decision.apply == Some(effective_variant(plan.variant, config.invert))
                    &&& decision.request == (Request::Wait { seconds: plan.wait_seconds })
                    &&& plan.wait_seconds <= config.refresh_period_seconds
                },
                None => {
                    let plan = tomorrow_plan(
                        clock.now as int,
                        tomorrow_sunrise as int,
                        config.refresh_period_seconds as int,
                    );
                    &&& decision.apply is None
                    &&& decision.request == (Request::SolarTimes {
                        location: config.location,
                        date: clock.tomorrow,
                    })
                    &&& late_decision.apply == Some(effective_variant(plan.variant, config.invert))
                    &&& late_decision.request == (Request::Wait { seconds: plan.wait_seconds })
                    &&& plan.wait_seconds <= config.refresh_period_seconds
                },
            }
        }),
{
}

/// While a configuration is in force, every step goes by that
/// configuration: the state keeps it for as long as the loop runs, solar
/// times are asked for at its location, and no sleep is longer than its
/// refresh period.
pub proof fn lemma_running_goes_by_its_configuration(config: Config, stage: Stage, event: Event)
    requires
        (State::Running { config, stage }).well_formed(),
    ensures
        ({
            let (state, directive) = (State::Running { config, stage }).next(event);
            &&& state.well_formed()
            &&& state matches State::Running { config: kept, .. } ==> kept == config
            &&& directive.request matches Request::SolarTimes { location, .. } ==> location
                == config.location
            &&& directive.request matches Request::Wait { seconds } ==> seconds
                <= config.refresh_period_seconds
            &&& directive.apply matches Some(variant) ==> directive.request is Wait && (variant
                == effective_variant(ThemeVariant::Dark, config.invert) || variant
                == effective_variant(ThemeVariant::Light, config.invert))
        }),
{
}

/// A document that switches the feature off and names a location ends the
/// loop at once, with exit code 0: no step from the start of the process to
/// that end applies a theme. The user is told if notifications are enabled,
/// and then only.
pub proof fn lemma_disabled_ends_before_any_write(document: ConfigDocument)
    requires
        document.disabled == Some(true),
        document.location is Some,
    ensures
        ({
            let (probing, probe) = State::Starting.next(Event::ConfigFound);
            let (ended, end) = probing.next(Event::Loaded(document));
            &&& probing == State::Load
            &&& probe.apply is None
            &&& ended == State::Disabled
            &&& ended.is_final()
            &&& end.apply is None
            &&& end.request == (Request::Exit { code: EXIT_SUCCESS })
            &&& end.notice == if document.notifications_enabled == Some(false) {
                None
            } else {
                Some(Notice::Disabled)
            }
        }),
{
}

/// A theme is applied only by a step that starts and ends with a
/// configuration in force. In particular neither a load nor a final state
/// writes a theme, whatever the document holds.
pub proof fn lemma_only_a_running_loop_applies(state: State, event: Event)
    ensures
        state.next(event).1.apply is Some ==> state is Running && state.next(event).0 is Running,
        state.next(event).1.request == state.next(event).0.request(),
        state.well_formed() ==> state.next(event).0.well_formed(),
{
}

/// A document without a location is rejected, whatever else it holds: the
/// load leads to `ConfigInvalid`, the user is told why, no default stands in
/// for the location, and the loop waits for the file to change.
pub proof fn lemma_missing_location_is_invalid(document: ConfigDocument)
    requires
        document.location is None,
    ensures
        document.resolved() == Err::<Config, ConfigError>(ConfigError::MissingLocation),
        State::Load.next(Event::Loaded(document)) == (
            State::ConfigInvalid,
            Directive {
                notice: Some(Notice::InvalidConfig(ConfigError::MissingLocation)),
                apply: None,
                request: Request::AwaitSignal,
            },
        ),
{
}

/// While the loop sleeps or waits on an invalid configuration, a changed
/// file leads to a load and a closed watcher ends the loop with exit code 0.
pub proof fn lemma_signals_end_every_wait(state: State, signal: SignalEvent)
    requires
        state is ConfigInvalid || (state matches State::Running { stage, .. } && stage is Sleeping),
    ensures
        state.next(Event::Signal(signal)) == match signal {
            SignalEvent::ConfigChanged => State::Load.entered(),
            SignalEvent::WatcherClosed => State::Terminated.entered(),
        },
        State::Terminated.request() == (Request::Exit { code: EXIT_SUCCESS }),
{
}

/// A final state is left by no event, and the step orders the exit again.
pub proof fn lemma_final_states_absorb(state: State, event: Event)
    requires
        state.is_final(),
    ensures
        state.next(event) == state.entered(),
        state.request() is Exit,
{
}

} // verus!
