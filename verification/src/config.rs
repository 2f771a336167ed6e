//! The configuration: what a document may hold and what it comes to.
//!
//! A document names any of five fields. Four of them have defaults; the
//! location has none, and a document without it is rejected.

use vstd::prelude::*;

verus! {

/// A place on earth. Each coordinate is kept as the bit pattern of its
/// IEEE 754 double, in degrees: the library carries a location from the
/// configuration to the solar clock and never computes with it.
#[derive(Debug, Clone, Copy, PartialEq, Eq, Structural)]
pub struct Location {
    pub latitude_bits: u64,
    pub longitude_bits: u64,
}

/// A configuration document as it was written: every field may be absent.
#[derive(Debug, Clone, Copy, PartialEq, Eq, Structural)]
pub struct ConfigDocument {
    pub disabled: Option<bool>,
    pub notifications_enabled: Option<bool>,
    pub invert: Option<bool>,
    pub refresh_period_seconds: Option<u64>,
    pub location: Option<Location>,
}

/// A complete configuration. A reload makes a new value; none is changed in
/// place.
#[derive(Debug, Clone, Copy, PartialEq, Eq, Structural)]
pub struct Config {
    pub disabled: bool,
    pub notifications_enabled: bool,
    pub invert: bool,
    pub refresh_period_seconds: u64,
    pub location: Location,
}

/// Why there is no configuration.
#[derive(Debug, Clone, PartialEq, Eq)]
pub enum ConfigError {
    /// The file could not be read, or what it holds is no document. The
    /// text says what the reader or the parser found.
    Unreadable(String),
    /// The document names no location.
    MissingLocation,
}

/// Whether notifications are shown where the document does not say.
pub const DEFAULT_NOTIFICATIONS: bool = true;

/// The refresh period, in seconds, where the document does not say.
pub const DEFAULT_REFRESH_PERIOD: u64 = 60;

/// Notifications are shown unless the document switches them off.
pub fn default_notifications() -> (enabled: bool)
    ensures
        enabled == DEFAULT_NOTIFICATIONS,
        enabled,
{
    DEFAULT_NOTIFICATIONS
}

/// The loop looks at the sun again after a minute, unless the document
/// names another period.
pub fn default_refresh_period() -> (seconds: u64)
    ensures
        seconds == DEFAULT_REFRESH_PERIOD,
        seconds == 60,
{
    DEFAULT_REFRESH_PERIOD
}

impl ConfigDocument {
    /// The configuration that this document comes to: absent fields take
    /// their defaults, and an absent location is an error.
    pub open spec fn resolved(self) -> Result<Config, ConfigError> {
        match self.location {
            None => Err(ConfigError::MissingLocation),
            Some(location) => Ok(
                Config {
                    disabled: match self.disabled {
                        Some(disabled) => disabled,
                        None => false,
                    },
                    notifications_enabled: match self.notifications_enabled {
                        Some(enabled) => enabled,
                        None => DEFAULT_NOTIFICATIONS,
                    },
                    invert: match self.invert {
                        Some(invert) => invert,
                        None => false,
                    },
                    refresh_period_seconds: match self.refresh_period_seconds {
                        Some(seconds) => seconds,
                        None => DEFAULT_REFRESH_PERIOD,
                    },
                    location,
                },
            ),
        }
    }

    /// A document that names nothing.
    pub fn empty() -> (document: ConfigDocument)
        ensures
            document == (ConfigDocument {
                disabled: None,
                notifications_enabled: None,
                invert: None,
                refresh_period_seconds: None,
                location: None,
            }),
    {
        ConfigDocument {
            disabled: None,
            notifications_enabled: None,
            invert: None,
            refresh_period_seconds: None,
            location: None,
        }
    }
}

impl Config {
    /// Makes the configuration of a document. It fails on a document without
    /// a location and on no other; each field that the document names is
    /// taken as it is, each other one from its default.
    pub fn from_document(document: ConfigDocument) -> (config: Result<Config, ConfigError>)
        ensures
            config == document.resolved(),
            config is Err <==> document.location is None,
            config matches Ok(c) ==> document.location == Some(c.location),
    {
        let location = match document.location {
            Some(location) => location,
            None => {
                return Err(ConfigError::MissingLocation);
            },
        };
        let disabled = match document.disabled {
            Some(disabled) => disabled,
            None => false,
        };
        let notifications_enabled = match document.notifications_enabled {
            Some(enabled) => enabled,
            None => default_notifications(),
        };
        let invert = match document.invert {
            Some(invert) => invert,
            None => false,
        };
        let refresh_period_seconds: u64 = match document.refresh_period_seconds {
            Some(seconds) => seconds,
            None => default_refresh_period(),
        };
        Ok(Config { disabled, notifications_enabled, invert, refresh_period_seconds, location })
    }
}

} // verus!
