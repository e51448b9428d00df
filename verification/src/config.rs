use vstd::prelude::*;

use vstd::string::StringExecFns;

use crate::text::str_eq;
use crate::types::LogLevel;

verus! {

/// The settings the application runs under. The loader validates the two
/// numeric fields; the rest of the crate reads them as they are.
pub struct Config {
    pub db_conn_string: String,
    pub log_level: LogLevel,
    pub log_dir_uri: Option<String>,
    pub input_box_width: usize,
    pub phrases_per_round: usize,
}

/// Why loading or validating a configuration failed.
#[derive(Debug, Clone, Copy, PartialEq, Eq, Structural)]
pub enum ConfigError {
    /// The file could not be read or parsed at all.
    Build,
    /// The file lacks a required field or a field has the wrong shape.
    Deserialize,
    /// The configured round size is zero.
    InvalidRoundSize,
    /// The configured input box width is below the minimum.
    InvalidBoxWidth,
}

impl ConfigError {
    /// A human-readable account of the failure.
    pub fn message(&self) -> (r: String)
        ensures
            *self == ConfigError::Build ==> r@ == "Failed to build configuration"@,
            *self == ConfigError::Deserialize ==> r@ == "Failed to deserialize configuration"@,
            *self == ConfigError::InvalidRoundSize ==> r@
                == "Phrases per round must be greater than zero."@,
            *self == ConfigError::InvalidBoxWidth ==> r@
                == "Input box width must be greater than or equal to 30."@,
    {
        match self {
            ConfigError::Build => String::from_str("Failed to build configuration"),
            ConfigError::Deserialize => String::from_str("Failed to deserialize configuration"),
            ConfigError::InvalidRoundSize => String::from_str(
                "Phrases per round must be greater than zero.",
            ),
            ConfigError::InvalidBoxWidth => String::from_str(
                "Input box width must be greater than or equal to 30.",
            ),
        }
    }
}

impl Clone for Config {
    fn clone(&self) -> (r: Self)
        ensures
            r == *self,
    {
        Config {
            db_conn_string: self.db_conn_string.clone(),
            log_level: self.log_level,
            log_dir_uri: match &self.log_dir_uri {
                Some(s) => Some(s.clone()),
                None => None,
            },
            input_box_width: self.input_box_width,
            phrases_per_round: self.phrases_per_round,
        }
    }
}

impl Config {
    /// The two numeric fields hold what the loader guarantees.
    pub open spec fn validated(&self) -> bool {
        self.phrases_per_round > 0 && self.input_box_width >= 30
    }

    /// Loads and validates a configuration file.
    pub fn load(path: &str) -> (r: Result<Config, ConfigError>)
        ensures
            r matches Ok(c) ==> c.validated(),
    {
        load(path)
    }

    /// Reads the raw fields of the file at `path`, without validating
    /// them. What comes back depends on what is on disk; whatever does,
    /// the only failures here are the build and deserialize ones.
    pub fn build(path: &str) -> (r: Result<Config, ConfigError>)
        ensures
            r matches Err(e) ==> e == ConfigError::Build || e == ConfigError::Deserialize,
    {
        let (db_conn_string, log_level_text, log_dir_uri, width_raw, count_raw) =
            read_config_file(path)?;
        let log_level = match parse_log_level(log_level_text.as_str()) {
            Some(l) => l,
            None => {
                return Err(ConfigError::Deserialize);
            },
        };
        let input_box_width = match int_to_usize(width_raw) {
            Some(u) => u,
            None => {
                return Err(ConfigError::Deserialize);
            },
        };
        let phrases_per_round = match int_to_usize(count_raw) {
            Some(u) => u,
            None => {
                return Err(ConfigError::Deserialize);
            },
        };
        Ok(
            Config {
                db_conn_string,
                log_level,
                log_dir_uri,
                input_box_width,
                phrases_per_round,
            },
        )
    }

    /// Validates the numeric fields, in the order the loader reports them.
    pub fn parse(&mut self) -> (r: Result<(), ConfigError>)
        ensures
            *final(self) == *old(self),
            r matches Ok(()) <==> old(self).validated(),
            r matches Err(e) && e == ConfigError::InvalidRoundSize
                <==> old(self).phrases_per_round == 0,
            r matches Err(e) && e == ConfigError::InvalidBoxWidth <==> old(self).phrases_per_round
                > 0 && old(self).input_box_width < 30,
    {
        self.sanitize_string_field()?;
        if self.phrases_per_round == 0 {
            return Err(ConfigError::InvalidRoundSize);
        }
        if self.input_box_width < 30 {
            return Err(ConfigError::InvalidBoxWidth);
        }
        Ok(())
    }

    fn sanitize_string_field(&self) -> (r: Result<(), ConfigError>)
        ensures
            r is Ok,
    {
        self.sanitize_string(self.db_conn_string.as_str())?;
        match &self.log_dir_uri {
            Some(uri) => self.sanitize_string(uri.as_str()),
            None => Ok(()),
        }
    }

    /// Accepts every string today; kept as the seam where stricter checks
    /// on user-supplied locations would go.
    pub fn sanitize_string(&self, value: &str) -> (r: Result<(), ConfigError>)
        ensures
            r is Ok,
    {
        let _ = value;
        Ok(())
    }
}

/// Loads and validates the configuration file at `path`. Every configuration
/// handed out has a positive round size and a workable input box width.
pub fn load(path: &str) -> (r: Result<Config, ConfigError>)
    ensures
        r matches Ok(c) ==> c.validated(),
{
    let mut config = Config::build(path)?;
    config.parse()?;
    Ok(config)
}

/// The log level a lowercase field value names, if any.
pub open spec fn log_level_of(s: Seq<char>) -> Option<LogLevel> {
    if s == "off"@ {
        Some(LogLevel::Off)
    } else if s == "error"@ {
        Some(LogLevel::Error)
    } else if s == "warn"@ {
        Some(LogLevel::Warn)
    } else if s == "info"@ {
        Some(LogLevel::Info)
    } else if s == "debug"@ {
        Some(LogLevel::Debug)
    } else if s == "trace"@ {
        Some(LogLevel::Trace)
    } else {
        None
    }
}

/// Reads a log level field exactly as the configuration format names them.
pub fn parse_log_level(s: &str) -> (r: Option<LogLevel>)
    ensures
        r == log_level_of(s@),
{
    if str_eq(s, "off") {
        Some(LogLevel::Off)
    } else if str_eq(s, "error") {
        Some(LogLevel::Error)
    } else if str_eq(s, "warn") {
        Some(LogLevel::Warn)
    } else if str_eq(s, "info") {
        Some(LogLevel::Info)
    } else if str_eq(s, "debug") {
        Some(LogLevel::Debug)
    } else if str_eq(s, "trace") {
        Some(LogLevel::Trace)
    } else {
        None
    }
}

fn int_to_usize(v: i64) -> (r: Option<usize>)
    ensures
        r matches Some(u) ==> u as int == v as int,
        r is Some <==> 0 <= v as int <= usize::MAX as int,
{
    if v < 0 {
        None
    } else if v as u64 > usize::MAX as u64 {
        None
    } else {
        Some(v as usize)
    }
}

// ----------------------------------------------------------------------
// Trusted boundary: the configuration file is read through the config
// crate; nothing is promised of what comes back, since it depends on what
// is on disk.
// ----------------------------------------------------------------------

/// Relies on the config crate: Config::builder, ConfigBuilder::add_source
/// and ConfigBuilder::build read and parse the file at `path`, and
/// Config::get_string / Config::get_int fetch its fields. Build covers a
/// file that cannot be read or parsed; Deserialize covers a required field
/// that is missing or has the wrong shape. The optional log directory comes
/// back as None when absent.
#[verifier::external_body]
fn read_config_file(path: &str) -> (r: Result<
    (String, String, Option<String>, i64, i64),
    ConfigError,
>)
    ensures
        r matches Err(e) ==> e == ConfigError::Build || e == ConfigError::Deserialize,
{
    let source = ::config::File::from(std::path::Path::new(path));
    let repo = ::config::Config::builder().add_source(source).build().map_err(
        |_| ConfigError::Build,
    )?;
    Ok((
        repo.get_string("db_conn_string").map_err(|_| ConfigError::Deserialize)?,
        repo.get_string("log_level").map_err(|_| ConfigError::Deserialize)?,
        repo.get_string("log_dir_uri").ok(),
        repo.get_int("input_box_width").map_err(|_| ConfigError::Deserialize)?,
        repo.get_int("phrases_per_round").map_err(|_| ConfigError::Deserialize)?,
    ))
}

} // verus!
