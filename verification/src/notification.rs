//! What the user is told, and in which words.

use vstd::prelude::*;
use crate::config::ConfigError;

verus! {

/// A notification for the user. It is shown once and not waited for.
#[derive(Debug, Clone, PartialEq, Eq)]
pub enum Notice {
    /// At startup there is no configuration file.
    ConfigMissing,
    /// The configuration switches the feature off.
    Disabled,
    /// The configuration could not be loaded.
    InvalidConfig(ConfigError),
}

impl ConfigError {
    /// The details of the error, as the user reads them.
    pub open spec fn details(self) -> Seq<char> {
        match self {
            ConfigError::Unreadable(text) => text@,
            ConfigError::MissingLocation => "missing field `location`"@,
        }
    }

    /// Writes the details of the error out.
    pub fn describe(&self) -> (text: String)
        ensures
            text@ == self.details(),
    {
        match self {
            ConfigError::Unreadable(text) => text.clone(),
            ConfigError::MissingLocation => "missing field `location`".to_owned(),
        }
    }
}

impl Notice {
    /// The title of the notification.
    pub open spec fn title_text(self) -> Seq<char> {
        match self {
            Notice::ConfigMissing => "Error"@,
            Notice::Disabled => "autolight is disabled"@,
            Notice::InvalidConfig(_) => "Invalid configuration"@,
        }
    }

    /// The body of the notification.
    pub open spec fn body_text(self) -> Seq<char> {
        match self {
            Notice::ConfigMissing => "Couldn't find the configuration file. Exiting..."@,
            Notice::Disabled => "Enable it in the configuration file"@,
            Notice::InvalidConfig(error) => error.details(),
        }
    }

    /// Writes the title out.
    pub fn title(&self) -> (text: String)
        ensures
            text@ == self.title_text(),
    {
        match self {
            Notice::ConfigMissing => "Error".to_owned(),
            Notice::Disabled => "autolight is disabled".to_owned(),
            Notice::InvalidConfig(_) => "Invalid configuration".to_owned(),
        }
    }

    /// Writes the body out.
    pub fn body(&self) -> (text: String)
        ensures
            text@ == self.body_text(),
    {
        match self {
            Notice::ConfigMissing => "Couldn't find the configuration file. Exiting...".to_owned(),
            Notice::Disabled => "Enable it in the configuration file".to_owned(),
            Notice::InvalidConfig(error) => error.describe(),
        }
    }
}

} // verus!
