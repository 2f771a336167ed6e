use autolight::clock::CivilDate;
use autolight::clock::ClockReading;
use autolight::config::Config;
use autolight::config::ConfigDocument;
use autolight::config::ConfigError;
use autolight::config::Location;
use autolight::notification::Notice;
use autolight::reconcile::Directive;
use autolight::reconcile::Event;
use autolight::reconcile::Request;
use autolight::reconcile::SignalEvent;
use autolight::reconcile::Stage;
use autolight::reconcile::State;
use autolight::reconcile::EXIT_CONFIG_MISSING;
use autolight::reconcile::EXIT_SUCCESS;
use autolight::theme::ThemeVariant;

const SUNRISE: i64 = 1_700_000_000;
const SUNSET: i64 = 1_700_030_000;

fn place(latitude: f64, longitude: f64) -> Location {
    Location { latitude_bits: latitude.to_bits(), longitude_bits: longitude.to_bits() }
}

fn config_at(location: Location) -> Config {
    Config {
        disabled: false,
        notifications_enabled: true,
        invert: false,
        refresh_period_seconds: 60,
        location,
    }
}

fn document_at(location: Location) -> ConfigDocument {
    let mut document = ConfigDocument::empty();
    document.location = Some(location);
    document
}

fn reading(now: i64) -> ClockReading {
    ClockReading {
        now,
        today: CivilDate { year: 2023, month: 11, day: 14 },
        tomorrow: CivilDate { year: 2023, month: 11, day: 15 },
    }
}

fn quiet(request: Request) -> Directive {
    Directive { notice: None, apply: None, request }
}

fn sleeping(config: Config, seconds: u64) -> State {
    State::Running { config, stage: Stage::Sleeping(seconds) }
}

#[test]
fn the_loop_starts_by_looking_for_its_file() {
    assert_eq!(State::initial(), State::Starting);
    assert_eq!(State::initial().outstanding(), Request::ProbeConfig);
    assert!(!State::initial().has_ended());
}

#[test]
fn a_missing_file_at_startup_is_fatal() {
    let (state, directive) = State::initial().step(Event::ConfigMissing);
    assert_eq!(state, State::ConfigNotFound);
    assert_eq!(
        directive,
        Directive {
            notice: Some(Notice::ConfigMissing),
            apply: None,
            request: Request::Exit { code: 1 },
        }
    );
    assert!(state.has_ended());
    assert_eq!(EXIT_CONFIG_MISSING, 1);
}

#[test]
fn a_file_at_startup_is_loaded() {
    let (state, directive) = State::initial().step(Event::ConfigFound);
    assert_eq!(state, State::Load);
    assert_eq!(directive, quiet(Request::LoadConfig));
}

#[test]
fn a_valid_document_starts_a_cycle() {
    let berlin = place(52.52, 13.405);
    let (state, directive) = State::Load.step(Event::Loaded(document_at(berlin)));
    assert_eq!(state, State::Running { config: config_at(berlin), stage: Stage::Clock });
    assert_eq!(directive, quiet(Request::ReadClock));
}

#[test]
fn a_failed_load_is_invalid_and_told_once() {
    let (state, directive) = State::Load.step(Event::LoadFailed(String::from("unexpected eof")));
    assert_eq!(state, State::ConfigInvalid);
    assert_eq!(
        directive,
        Directive {
            notice: Some(Notice::InvalidConfig(ConfigError::Unreadable(String::from(
                "unexpected eof"
            )))),
            apply: None,
            request: Request::AwaitSignal,
        }
    );
    let (state, directive) = state.step(Event::TimedOut);
    assert_eq!(state, State::ConfigInvalid);
    assert_eq!(directive, quiet(Request::AwaitSignal));
}

#[test]
fn a_document_without_location_is_invalid() {
    let mut document = ConfigDocument::empty();
    document.invert = Some(true);
    document.refresh_period_seconds = Some(30);
    let (state, directive) = State::Load.step(Event::Loaded(document));
    assert_eq!(state, State::ConfigInvalid);
    assert_eq!(
        directive,
        Directive {
            notice: Some(Notice::InvalidConfig(ConfigError::MissingLocation)),
            apply: None,
            request: Request::AwaitSignal,
        }
    );
}

#[test]
fn a_disabled_document_ends_the_process_with_a_notice() {
    let mut document = document_at(place(1.0, 2.0));
    document.disabled = Some(true);
    let (state, directive) = State::Load.step(Event::Loaded(document));
    assert_eq!(state, State::Disabled);
    assert_eq!(
        directive,
        Directive {
            notice: Some(Notice::Disabled),
            apply: None,
            request: Request::Exit { code: 0 },
        }
    );
    assert!(state.has_ended());
    assert_eq!(EXIT_SUCCESS, 0);
}

#[test]
fn a_disabled_document_without_notifications_ends_quietly() {
    let mut document = document_at(place(1.0, 2.0));
    document.disabled = Some(true);
    document.notifications_enabled = Some(false);
    let (state, directive) = State::Load.step(Event::Loaded(document));
    assert_eq!(state, State::Disabled);
    assert_eq!(directive, quiet(Request::Exit { code: 0 }));
}

#[test]
fn a_disabled_document_without_location_is_invalid() {
    let mut document = ConfigDocument::empty();
    document.disabled = Some(true);
    let (state, directive) = State::Load.step(Event::Loaded(document));
    assert_eq!(state, State::ConfigInvalid);
    assert_eq!(directive.apply, None);
    assert_eq!(directive.request, Request::AwaitSignal);
}

#[test]
fn watcher_closed_while_invalid_terminates() {
    let (state, directive) = State::ConfigInvalid.step(Event::Signal(SignalEvent::WatcherClosed));
    assert_eq!(state, State::Terminated);
    assert_eq!(directive, quiet(Request::Exit { code: 0 }));
    assert!(state.has_ended());
}

#[test]
fn config_changed_while_invalid_loads_again() {
    let (state, directive) = State::ConfigInvalid.step(Event::Signal(SignalEvent::ConfigChanged));
    assert_eq!(state, State::Load);
    assert_eq!(directive, quiet(Request::LoadConfig));
}

#[test]
fn a_cycle_in_daylight() {
    let oslo = place(59.9139, 10.7522);
    let config = config_at(oslo);
    let state = State::Running { config, stage: Stage::Clock };
    let clock = reading(SUNRISE + 100);

    let (state, directive) = state.step(Event::Clock(clock));
    assert_eq!(state, State::Running { config, stage: Stage::Today(clock) });
    assert_eq!(
        directive,
        quiet(Request::SolarTimes { location: oslo, date: CivilDate { year: 2023, month: 11, day: 14 } })
    );

    let (state, directive) = state.step(Event::SolarTimes { sunrise: SUNRISE, sunset: SUNSET });
    assert_eq!(state, sleeping(config, 60));
    assert_eq!(
        directive,
        Directive {
            notice: None,
            apply: Some(ThemeVariant::Light),
            request: Request::Wait { seconds: 60 },
        }
    );

    let (state, directive) = state.step(Event::TimedOut);
    assert_eq!(state, State::Running { config, stage: Stage::Clock });
    assert_eq!(directive, quiet(Request::ReadClock));
}

#[test]
fn a_cycle_before_sunrise() {
    let config = config_at(place(0.0, 0.0));
    let state = State::Running { config, stage: Stage::Today(reading(SUNRISE - 20)) };
    let (state, directive) = state.step(Event::SolarTimes { sunrise: SUNRISE, sunset: SUNSET });
    assert_eq!(state, sleeping(config, 20));
    assert_eq!(directive.apply, Some(ThemeVariant::Dark));
    assert_eq!(directive.request, Request::Wait { seconds: 20 });
}

#[test]
fn a_cycle_exactly_at_sunrise_is_light() {
    let config = config_at(place(0.0, 0.0));
    let state = State::Running { config, stage: Stage::Today(reading(SUNRISE)) };
    let (_, directive) = state.step(Event::SolarTimes { sunrise: SUNRISE, sunset: SUNSET });
    assert_eq!(directive.apply, Some(ThemeVariant::Light));
}

#[test]
fn a_cycle_after_sunset_asks_for_tomorrow() {
    let cairo = place(30.0444, 31.2357);
    let config = config_at(cairo);
    let clock = reading(SUNSET + 5);
    let state = State::Running { config, stage: Stage::Today(clock) };

    let (state, directive) = state.step(Event::SolarTimes { sunrise: SUNRISE, sunset: SUNSET });
    assert_eq!(state, State::Running { config, stage: Stage::Tomorrow(clock) });
    assert_eq!(
        directive,
        quiet(Request::SolarTimes { location: cairo, date: CivilDate { year: 2023, month: 11, day: 15 } })
    );

    let (state, directive) =
        state.step(Event::SolarTimes { sunrise: SUNSET + 35, sunset: SUNSET + 40_000 });
    assert_eq!(state, sleeping(config, 30));
    assert_eq!(
        directive,
        Directive {
            notice: None,
            apply: Some(ThemeVariant::Dark),
            request: Request::Wait { seconds: 30 },
        }
    );
}

#[test]
fn inversion_turns_daylight_dark() {
    let mut config = config_at(place(0.0, 0.0));
    config.invert = true;
    let state = State::Running { config, stage: Stage::Today(reading(SUNRISE + 1)) };
    let (_, directive) = state.step(Event::SolarTimes { sunrise: SUNRISE, sunset: SUNSET });
    assert_eq!(directive.apply, Some(ThemeVariant::Dark));
    let state = State::Running { config, stage: Stage::Today(reading(SUNRISE - 1)) };
    let (_, directive) = state.step(Event::SolarTimes { sunrise: SUNRISE, sunset: SUNSET });
    assert_eq!(directive.apply, Some(ThemeVariant::Light));
}

#[test]
fn every_cycle_applies_the_theme_again() {
    let config = config_at(place(0.0, 0.0));
    let mut state = State::Running { config, stage: Stage::Clock };
    for round in 0..3 {
        let (next, _) = state.step(Event::Clock(reading(SUNRISE + 100 + 60 * round)));
        let (next, directive) = next.step(Event::SolarTimes { sunrise: SUNRISE, sunset: SUNSET });
        assert_eq!(directive.apply, Some(ThemeVariant::Light));
        let (next, _) = next.step(Event::TimedOut);
        state = next;
    }
}

#[test]
fn a_reload_while_asleep_uses_the_new_configuration() {
    let old = config_at(place(10.0, 10.0));
    let state = sleeping(old, 60);

    let (state, directive) = state.step(Event::Signal(SignalEvent::ConfigChanged));
    assert_eq!(state, State::Load);
    assert_eq!(directive, quiet(Request::LoadConfig));

    let rome = place(41.9028, 12.4964);
    let mut document = document_at(rome);
    document.invert = Some(true);
    document.refresh_period_seconds = Some(15);
    let (state, _) = state.step(Event::Loaded(document));

    let (state, directive) = state.step(Event::Clock(reading(SUNRISE + 100)));
    assert_eq!(
        directive.request,
        Request::SolarTimes { location: rome, date: CivilDate { year: 2023, month: 11, day: 14 } }
    );

    let (_, directive) = state.step(Event::SolarTimes { sunrise: SUNRISE, sunset: SUNSET });
    assert_eq!(directive.apply, Some(ThemeVariant::Dark));
    assert_eq!(directive.request, Request::Wait { seconds: 15 });
}

#[test]
fn watcher_closed_while_asleep_terminates() {
    let state = sleeping(config_at(place(0.0, 0.0)), 60);
    let (state, directive) = state.step(Event::Signal(SignalEvent::WatcherClosed));
    assert_eq!(state, State::Terminated);
    assert_eq!(directive, quiet(Request::Exit { code: 0 }));
}

#[test]
fn final_states_stay() {
    for state in [State::Disabled, State::Terminated, State::ConfigNotFound] {
        let (after, directive) = state.step(Event::Signal(SignalEvent::ConfigChanged));
        assert_eq!(after, state);
        assert_eq!(directive, quiet(state.outstanding()));
        let (after, _) = state.step(Event::Loaded(document_at(place(0.0, 0.0))));
        assert_eq!(after, state);
    }
    assert_eq!(State::ConfigNotFound.outstanding(), Request::Exit { code: 1 });
    assert_eq!(State::Disabled.outstanding(), Request::Exit { code: 0 });
}

#[test]
fn an_event_that_answers_nothing_changes_nothing() {
    let config = config_at(place(0.0, 0.0));
    let states = [
        State::Starting,
        State::Load,
        State::ConfigInvalid,
        State::Running { config, stage: Stage::Clock },
        State::Running { config, stage: Stage::Today(reading(5)) },
        State::Running { config, stage: Stage::Tomorrow(reading(5)) },
    ];
    for state in states {
        let (after, directive) = state.step(Event::TimedOut);
        assert_eq!(after, state);
        assert_eq!(directive, quiet(state.outstanding()));
    }
    let asleep = sleeping(config, 12);
    let (after, directive) = asleep.step(Event::ConfigFound);
    assert_eq!(after, asleep);
    assert_eq!(directive, quiet(Request::Wait { seconds: 12 }));
}

#[test]
fn a_signal_is_not_taken_in_the_middle_of_a_cycle() {
    let config = config_at(place(0.0, 0.0));
    let state = State::Running { config, stage: Stage::Today(reading(5)) };
    let (after, _) = state.step(Event::Signal(SignalEvent::WatcherClosed));
    assert_eq!(after, state);
}
