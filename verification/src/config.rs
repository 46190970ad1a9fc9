//! The two settings a run needs, and the check that both were supplied.

use vstd::prelude::*;
use vstd::string::StringExecFns;

verus! {

/// One of the two required settings.
#[derive(Clone, Copy, Debug, PartialEq, Eq, Structural)]
pub enum Setting {
    /// The connection string of the warehouse.
    ConnectionUrl,
    /// The location of the parquet file to load.
    Source,
}

/// What is wrong with a setting that cannot be used.
#[derive(Clone, Copy, Debug, PartialEq, Eq, Structural)]
pub enum Defect {
    /// No value was given at all.
    Unset,
    /// A value was given, and it is the empty string.
    Empty,
}

/// A required setting that was not supplied.
#[derive(Clone, Copy, Debug, PartialEq, Eq, Structural)]
pub struct ConfigError {
    pub setting: Setting,
    pub defect: Defect,
}

/// The settings of one run. Both values are non-empty.
#[derive(Debug, PartialEq, Eq)]
pub struct Config {
    connection_url: String,
    source: String,
}

/// The mathematical content of a [`Config`].
pub struct ConfigView {
    pub connection_url: Seq<char>,
    pub source: Seq<char>,
}

/// The defect of a raw value, if it has one.
pub open spec fn defect_of(value: Option<Seq<char>>) -> Option<Defect> {
    match value {
        None => Some(Defect::Unset),
        Some(text) => if text.len() == 0 {
            Some(Defect::Empty)
        } else {
            None
        },
    }
}

/// The error that resolving the two raw values reports: that of the connection
/// string if it has a defect, else that of the source location, else none.
pub open spec fn first_defect(connection_url: Option<Seq<char>>, source: Option<Seq<char>>) -> Option<
    ConfigError,
> {
    match defect_of(connection_url) {
        Some(defect) => Some(ConfigError { setting: Setting::ConnectionUrl, defect }),
        None => match defect_of(source) {
            Some(defect) => Some(ConfigError { setting: Setting::Source, defect }),
            None => None,
        },
    }
}

/// The view of an optional string.
pub open spec fn text_of(value: Option<String>) -> Option<Seq<char>> {
    match value {
        Some(text) => Some(text@),
        None => None,
    }
}

impl View for Config {
    type V = ConfigView;

    closed spec fn view(&self) -> ConfigView {
        ConfigView { connection_url: self.connection_url@, source: self.source@ }
    }
}

impl ConfigView {
    /// Both values are non-empty.
    pub open spec fn wf(self) -> bool {
        self.connection_url.len() > 0 && self.source.len() > 0
    }
}

impl Setting {
    /// The name of the environment variable that carries this setting.
    pub open spec fn variable_text(self) -> Seq<char> {
        match self {
            Setting::ConnectionUrl => "DATABASE_URL"@,
            Setting::Source => "DATA_FILE"@,
        }
    }

    /// The name of the environment variable that carries this setting.
    pub fn variable(self) -> (name: &'static str)
        ensures
            name@ == self.variable_text(),
    {
        match self {
            Setting::ConnectionUrl => "DATABASE_URL",
            Setting::Source => "DATA_FILE",
        }
    }
}

impl ConfigError {
    /// The text of the message for this error.
    pub open spec fn message_text(self) -> Seq<char> {
        self.setting.variable_text() + match self.defect {
            Defect::Unset => " environment variable is not set"@,
            Defect::Empty => " environment variable is empty"@,
        }
    }

    /// A sentence that names the variable and says what is wrong with it.
    pub fn message(&self) -> (text: String)
        ensures
            text@ == self.message_text(),
    {
        let mut text = String::from_str(self.setting.variable());
        match self.defect {
            Defect::Unset => text.append(" environment variable is not set"),
            Defect::Empty => text.append(" environment variable is empty"),
        }
        text
    }
}

impl Config {
    #[verifier::type_invariant]
    spec fn nonempty(self) -> bool {
        self.connection_url@.len() > 0 && self.source@.len() > 0
    }

    /// Checks the two raw values, the connection string first, and keeps them
    /// unchanged when both are present and non-empty.
    pub fn resolve(connection_url: Option<String>, source: Option<String>) -> (resolved: Result<
        Config,
        ConfigError,
    >)
        ensures
            match resolved {
                Ok(config) => {
                    &&& first_defect(text_of(connection_url), text_of(source)) is None
                    &&& Some(config@.connection_url) == text_of(connection_url)
                    &&& Some(config@.source) == text_of(source)
                },
                Err(error) => first_defect(text_of(connection_url), text_of(source)) == Some(error),
            },
    {
        let connection_url = match connection_url {
            None => {
                return Err(ConfigError { setting: Setting::ConnectionUrl, defect: Defect::Unset });
            },
            Some(text) => text,
        };
        if connection_url.as_str().is_empty() {
            return Err(ConfigError { setting: Setting::ConnectionUrl, defect: Defect::Empty });
        }
        let source = match source {
            None => {
                return Err(ConfigError { setting: Setting::Source, defect: Defect::Unset });
            },
            Some(text) => text,
        };
        if source.as_str().is_empty() {
            return Err(ConfigError { setting: Setting::Source, defect: Defect::Empty });
        }
        Ok(Config { connection_url, source })
    }

    /// The connection string of the warehouse.
    pub fn connection_url(&self) -> (text: &str)
        ensures
            text@ == self@.connection_url,
            self@.wf(),
    {
        proof {
            use_type_invariant(self);
        }
        self.connection_url.as_str()
    }

    /// The location of the parquet file.
    pub fn source(&self) -> (text: &str)
        ensures
            text@ == self@.source,
            self@.wf(),
    {
        proof {
            use_type_invariant(self);
        }
        self.source.as_str()
    }
}

} // verus!
