//! Installation of the one active sink.
//!
//! A `Registry` is the slot that holds the active sink. A process keeps one
//! registry for its whole life; the functions here say what an attempt to
//! install does to it.

use crate::config::{read_settings, settings_of, value_text};
use crate::environment::FiaasEnv;
use crate::level::{Level, LevelFilter};
use crate::logger::{FiaasLogger, LoggerView};
use vstd::prelude::*;

verus! {

/// An attempt to install a sink where one is installed already.
#[derive(Clone, Copy, PartialEq, Eq, Structural, Debug)]
pub struct SetLoggerError;

/// The slot for the active sink. It starts empty, is filled at most once
/// and is never emptied or refilled.
#[derive(Debug)]
pub struct Registry {
    active: Option<FiaasLogger>,
}

/// What a registry holds: the configuration of the installed sink, if any.
pub struct RegistryView {
    pub active: Option<LoggerView>,
}

impl RegistryView {
    /// Whether an attempt to install succeeds: only while nothing is
    /// installed.
    pub open spec fn accepts(self) -> bool {
        self.active is None
    }

    /// The registry after an attempt to install `config`: holding it if
    /// nothing was installed, unchanged otherwise.
    pub open spec fn try_init(self, config: LoggerView) -> RegistryView {
        if self.accepts() {
            RegistryView { active: Some(config) }
        } else {
            self
        }
    }

    /// The process-wide threshold: the minimum severity of the installed
    /// sink, `Off` while there is none.
    pub open spec fn max_level(self) -> LevelFilter {
        match self.active {
            Some(config) => config.level.filter(),
            None => LevelFilter::Off,
        }
    }
}

impl View for Registry {
    type V = RegistryView;

    closed spec fn view(&self) -> RegistryView {
        RegistryView {
            active: match self.active {
                Some(logger) => Some(logger@),
                None => None,
            },
        }
    }
}

impl SetLoggerError {
    /// The diagnostic for this error.
    pub open spec fn text(self) -> Seq<char> {
        "attempted to set a logger after the logging system was already initialized"@
    }

    pub fn message(self) -> (r: &'static str)
        ensures
            r@ == self.text(),
    {
        "attempted to set a logger after the logging system was already initialized"
    }
}

/// Installs a sink configured by the values of the two variables, `None`
/// standing for a variable that is not set. The values must give a
/// configuration and the registry must hold no sink.
pub fn init_env(
    registry: &mut Registry,
    finn_app: &'static str,
    level_value: Option<&str>,
    env_value: Option<&str>,
)
    requires
        settings_of(value_text(level_value), value_text(env_value)) is Ok,
        old(registry)@.accepts(),
    ensures
        settings_of(value_text(level_value), value_text(env_value)) matches Ok(settings)
            && final(registry)@.active == Some(
            LoggerView { finn_app: finn_app@, env: settings.env, level: settings.level },
        ) && final(registry)@.max_level() == settings.level.filter(),
{
    let settings = read_settings(level_value, env_value).unwrap();
    init(registry, finn_app, settings.env, settings.level)
}

/// Installs a sink with the given configuration, unless one is installed.
/// On success the threshold becomes the sink's minimum severity; on failure
/// nothing changes.
pub fn try_init(
    registry: &mut Registry,
    finn_app: &'static str,
    env: FiaasEnv,
    level: Level,
) -> (r: Result<(), SetLoggerError>)
    ensures
        r is Ok <==> old(registry)@.accepts(),
        final(registry)@ == old(registry)@.try_init(LoggerView { finn_app: finn_app@, env, level }),
        r is Ok ==> final(registry)@.max_level() == level.filter(),
{
    if registry.active.is_some() {
        return Err(SetLoggerError);
    }
    registry.active = Some(FiaasLogger::new(finn_app, env, level));
    Ok(())
}

/// Installs a sink into a registry that holds none.
pub fn init(registry: &mut Registry, finn_app: &'static str, env: FiaasEnv, level: Level)
    requires
        old(registry)@.accepts(),
    ensures
        final(registry)@.active == Some(LoggerView { finn_app: finn_app@, env, level }),
        final(registry)@.max_level() == level.filter(),
{
    let installed = try_init(registry, finn_app, env, level);
    installed.unwrap()
}

/// After one attempt to install, successful or not, a second attempt is
/// refused and leaves the registry as the first left it. Where the first
/// attempt found nothing installed, its configuration is the one that
/// stays, and so does its threshold.
pub proof fn lemma_second_init_changes_nothing(
    registry: RegistryView,
    first: LoggerView,
    second: LoggerView,
)
    ensures
        !registry.try_init(first).accepts(),
        registry.try_init(first).try_init(second) == registry.try_init(first),
        registry.accepts() ==> registry.try_init(first).try_init(second).active == Some(first),
        registry.accepts() ==> registry.try_init(first).try_init(second).max_level()
            == first.level.filter(),
{
}

/// Once a sink is installed, no attempt to install changes the registry.
pub proof fn lemma_installed_sink_stays(registry: RegistryView, config: LoggerView)
    requires
        !registry.accepts(),
    ensures
        registry.try_init(config) == registry,
{
}

/// The threshold of a registry with a sink lets through exactly the levels
/// that the sink lets through.
pub proof fn lemma_threshold_agrees_with_sink(registry: RegistryView, level: Level)
    requires
        registry.active is Some,
    ensures
        registry.max_level().admits(level) == registry.active->0.admits(level),
{
}

impl Registry {
    pub fn new() -> (r: Registry)
        ensures
            r@ == (RegistryView { active: None }),
    {
        Registry { active: None }
    }

    pub fn logger(&self) -> (r: Option<FiaasLogger>)
        ensures
            r is Some <==> self@.active is Some,
            r matches Some(logger) ==> self@.active == Some(logger@),
    {
        self.active
    }

    pub fn max_level(&self) -> (r: LevelFilter)
        ensures
            r == self@.max_level(),
    {
        match self.active {
            Some(logger) => logger.level().to_level_filter(),
            None => LevelFilter::Off,
        }
    }
}

} // verus!
