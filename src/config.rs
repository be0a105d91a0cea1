//! The service's configuration: its named fields, typed access to them, and the
//! checks that turn raw environment values into a configuration.
use vstd::prelude::*;

verus! {

/// The configuration properties, each read from the environment variable of its name.
#[derive(Clone, Copy, Debug, PartialEq, Eq, Structural)]
pub enum ConfigField {
    TestVariable,
    /// Postgres compatible connection string.
    DatabaseUrl,
    /// Absolute path to the root CA certificate.
    DatabaseCertPath,
    /// Absolute path to serve static files from.
    StaticFilesDir,
    /// Minutes that browsers cache html pages.
    CacheClientPages,
    /// Hours that browsers cache static assets.
    CacheClientStatic,
    /// Minutes that html pages stay in the in-memory cache.
    CacheMemoryPages,
    /// Seconds that the general purpose in-memory cache keeps an entry.
    CacheMemoryGeneral,
}

impl ConfigField {
    pub open spec fn spec_name(&self) -> Seq<char> {
        match self {
            ConfigField::TestVariable => "test_variable"@,
            ConfigField::DatabaseUrl => "database_url"@,
            ConfigField::DatabaseCertPath => "database_cert_path"@,
            ConfigField::StaticFilesDir => "static_files_dir"@,
            ConfigField::CacheClientPages => "cache_client_pages"@,
            ConfigField::CacheClientStatic => "cache_client_static"@,
            ConfigField::CacheMemoryPages => "cache_memory_pages"@,
            ConfigField::CacheMemoryGeneral => "cache_memory_general"@,
        }
    }

    /// Whether the field holds text; the others hold a `u8`.
    pub open spec fn holds_text(&self) -> bool {
        match self {
            ConfigField::TestVariable
            | ConfigField::DatabaseUrl
            | ConfigField::DatabaseCertPath
            | ConfigField::StaticFilesDir => true,
            _ => false,
        }
    }

    /// The field's name, which is also the name of its environment variable.
    pub fn to_str(&self) -> (r: &'static str)
        ensures
            r@ == self.spec_name(),
    {
        match self {
            ConfigField::TestVariable => "test_variable",
            ConfigField::DatabaseUrl => "database_url",
            ConfigField::DatabaseCertPath => "database_cert_path",
            ConfigField::StaticFilesDir => "static_files_dir",
            ConfigField::CacheClientPages => "cache_client_pages",
            ConfigField::CacheClientStatic => "cache_client_static",
            ConfigField::CacheMemoryPages => "cache_memory_pages",
            ConfigField::CacheMemoryGeneral => "cache_memory_general",
        }
    }
}

/// The type of value a caller asks a field for.
#[derive(Clone, Copy, Debug, PartialEq, Eq, Structural)]
pub enum ValueKind {
    Text,
    Number,
}

/// A field's value.
#[derive(Clone, Debug)]
pub enum ConfigValue {
    Text(String),
    Number(u8),
}

/// Why a configuration value could not be had.
#[derive(Clone, Copy, Debug, PartialEq, Eq, Structural)]
pub enum ConfigError {
    /// The field was asked for as a type it does not hold.
    WrongType(ConfigField),
    /// The field's environment variable is not set.
    Missing(ConfigField),
    /// The field's environment variable is not a `u8`.
    NotU8(ConfigField),
}

impl ConfigError {
    pub open spec fn spec_message(&self) -> Seq<char> {
        match self {
            ConfigError::WrongType(f) => "Failed to get config property "@ + f.spec_name(),
            ConfigError::Missing(f) => f.spec_name() + " is required config property"@,
            ConfigError::NotU8(f) => f.spec_name() + " should be type of u8"@,
        }
    }

    /// The error's text.
    pub fn message(&self) -> (r: String)
        ensures
            r@ == self.spec_message(),
    {
        match self {
            ConfigError::WrongType(f) => {
                let mut m = String::from_str("Failed to get config property ");
                m.append(f.to_str());
                m
            },
            ConfigError::Missing(f) => {
                let mut m = String::from_str(f.to_str());
                m.append(" is required config property");
                m
            },
            ConfigError::NotU8(f) => {
                let mut m = String::from_str(f.to_str());
                m.append(" should be type of u8");
                m
            },
        }
    }
}

/// The loaded configuration.
#[derive(Clone, Debug)]
pub struct Config {
    pub test_variable: String,
    pub database_url: String,
    pub database_cert_path: String,
    pub static_files_dir: String,
    pub cache_client_pages: u8,
    pub cache_client_static: u8,
    pub cache_memory_pages: u8,
    pub cache_memory_general: u8,
}

impl Config {
    /// The text a field holds; none for a numeric field.
    pub open spec fn spec_text(&self, field: ConfigField) -> Option<Seq<char>> {
        match field {
            ConfigField::TestVariable => Some(self.test_variable@),
            ConfigField::DatabaseUrl => Some(self.database_url@),
            ConfigField::DatabaseCertPath => Some(self.database_cert_path@),
            ConfigField::StaticFilesDir => Some(self.static_files_dir@),
            ConfigField::CacheClientPages
            | ConfigField::CacheClientStatic
            | ConfigField::CacheMemoryPages
            | ConfigField::CacheMemoryGeneral => None,
        }
    }

    /// The number a field holds; none for a text field.
    pub open spec fn spec_number(&self, field: ConfigField) -> Option<u8> {
        match field {
            ConfigField::CacheClientPages => Some(self.cache_client_pages),
            ConfigField::CacheClientStatic => Some(self.cache_client_static),
            ConfigField::CacheMemoryPages => Some(self.cache_memory_pages),
            ConfigField::CacheMemoryGeneral => Some(self.cache_memory_general),
            ConfigField::TestVariable
            | ConfigField::DatabaseUrl
            | ConfigField::DatabaseCertPath
            | ConfigField::StaticFilesDir => None,
        }
    }

    /// The value of `field`, asked for as `kind`; a field asked for as a type it
    /// does not hold is an error.
    pub fn get_field(&self, field: ConfigField, kind: ValueKind) -> (r: Result<ConfigValue, ConfigError>)
        ensures
            r is Ok <==> (kind == ValueKind::Text) == field.holds_text(),
            match r {
                Ok(ConfigValue::Text(s)) => kind == ValueKind::Text && self.spec_text(field) == Some(s@),
                Ok(ConfigValue::Number(n)) => kind == ValueKind::Number && self.spec_number(field) == Some(n),
                Err(e) => e == ConfigError::WrongType(field),
            },
    {
        let value = match field {
            ConfigField::TestVariable => ConfigValue::Text(self.test_variable.clone()),
            ConfigField::DatabaseUrl => ConfigValue::Text(self.database_url.clone()),
            ConfigField::DatabaseCertPath => ConfigValue::Text(self.database_cert_path.clone()),
            ConfigField::StaticFilesDir => ConfigValue::Text(self.static_files_dir.clone()),
            ConfigField::CacheClientPages => ConfigValue::Number(self.cache_client_pages),
            ConfigField::CacheClientStatic => ConfigValue::Number(self.cache_client_static),
            ConfigField::CacheMemoryPages => ConfigValue::Number(self.cache_memory_pages),
            ConfigField::CacheMemoryGeneral => ConfigValue::Number(self.cache_memory_general),
        };
        match (value, kind) {
            (ConfigValue::Text(s), ValueKind::Text) => Ok(ConfigValue::Text(s)),
            (ConfigValue::Number(n), ValueKind::Number) => Ok(ConfigValue::Number(n)),
            _ => Err(ConfigError::WrongType(field)),
        }
    }
}

/// Whether every character of `d` is an ASCII decimal digit.
pub open spec fn all_digits(d: Seq<char>) -> bool {
    forall|i: int| 0 <= i < d.len() ==> '0' <= #[trigger] d[i] <= '9'
}

/// The value of a run of decimal digits, most significant first.
pub open spec fn digits_value(d: Seq<char>) -> int
    decreases d.len(),
{
    if d.len() == 0 {
        0
    } else {
        digits_value(d.drop_last()) * 10 + (d.last() as int - '0' as int)
    }
}

/// The `u8` that `s` writes in decimal: an optional `+`, then one or more
/// digits whose value is at most 255; anything else writes none.
pub open spec fn decimal_u8(s: Seq<char>) -> Option<u8> {
    let d = if s.len() > 0 && s[0] == '+' {
        s.drop_first()
    } else {
        s
    };
    if d.len() > 0 && all_digits(d) && digits_value(d) <= 255 {
        Some(digits_value(d) as u8)
    } else {
        None
    }
}

/// Relies on `str::parse::<u8>`, that is `u8::from_str`: it accepts an optional
/// `+` followed by decimal digits whose value fits in a `u8`, and fails otherwise.
#[verifier::external_body]
fn parse_u8(s: &str) -> (r: Option<u8>)
    ensures
        r == decimal_u8(s@),
{
    s.parse::<u8>().ok()
}

/// The raw values of the configuration's environment variables; `None` where unset.
pub struct ConfigVars {
    pub database_url: Option<String>,
    pub database_cert_path: Option<String>,
    pub static_files_dir: Option<String>,
    pub cache_client_pages: Option<String>,
    pub cache_client_static: Option<String>,
    pub cache_memory_pages: Option<String>,
    pub cache_memory_general: Option<String>,
}

/// The error for a numeric field's raw value, if it has one.
pub open spec fn number_error(field: ConfigField, v: Option<String>) -> Option<ConfigError> {
    match v {
        None => Some(ConfigError::Missing(field)),
        Some(s) => if decimal_u8(s@) is None {
            Some(ConfigError::NotU8(field))
        } else {
            None
        },
    }
}

fn number_value(field: ConfigField, v: &Option<String>) -> (r: Result<u8, ConfigError>)
    ensures
        match r {
            Ok(n) => number_error(field, *v) is None && decimal_u8(v->0@) == Some(n),
            Err(e) => number_error(field, *v) == Some(e),
        },
{
    match v {
        None => Err(ConfigError::Missing(field)),
        Some(s) => match parse_u8(s.as_str()) {
            Some(n) => Ok(n),
            None => Err(ConfigError::NotU8(field)),
        },
    }
}

impl ConfigVars {
    /// The first field, in the order of the struct, whose value is missing or,
    /// for a numeric field, not a `u8`.
    pub open spec fn load_error(&self) -> Option<ConfigError> {
        if self.database_url is None {
            Some(ConfigError::Missing(ConfigField::DatabaseUrl))
        } else if self.database_cert_path is None {
            Some(ConfigError::Missing(ConfigField::DatabaseCertPath))
        } else if self.static_files_dir is None {
            Some(ConfigError::Missing(ConfigField::StaticFilesDir))
        } else if number_error(ConfigField::CacheClientPages, self.cache_client_pages) is Some {
            number_error(ConfigField::CacheClientPages, self.cache_client_pages)
        } else if number_error(ConfigField::CacheClientStatic, self.cache_client_static) is Some {
            number_error(ConfigField::CacheClientStatic, self.cache_client_static)
        } else if number_error(ConfigField::CacheMemoryPages, self.cache_memory_pages) is Some {
            number_error(ConfigField::CacheMemoryPages, self.cache_memory_pages)
        } else {
            number_error(ConfigField::CacheMemoryGeneral, self.cache_memory_general)
        }
    }
}

impl Config {
    /// Builds the configuration from the raw values of its environment variables;
    /// `test_variable` is always `test`.
    pub fn from_vars(vars: ConfigVars) -> (r: Result<Config, ConfigError>)
        ensures
            r is Ok <==> vars.load_error() is None,
            match r {
                Ok(c) => {
                    &&& c.test_variable@ == "test"@
                    &&& Some(c.database_url) == vars.database_url
                    &&& Some(c.database_cert_path) == vars.database_cert_path
                    &&& Some(c.static_files_dir) == vars.static_files_dir
                    &&& Some(c.cache_client_pages) == decimal_u8(vars.cache_client_pages->0@)
                    &&& Some(c.cache_client_static) == decimal_u8(vars.cache_client_static->0@)
                    &&& Some(c.cache_memory_pages) == decimal_u8(vars.cache_memory_pages->0@)
                    &&& Some(c.cache_memory_general) == decimal_u8(vars.cache_memory_general->0@)
                },
                Err(e) => vars.load_error() == Some(e),
            },
    {
        let database_url = match vars.database_url {
            Some(s) => s,
            None => return Err(ConfigError::Missing(ConfigField::DatabaseUrl)),
        };
        let database_cert_path = match vars.database_cert_path {
            Some(s) => s,
            None => return Err(ConfigError::Missing(ConfigField::DatabaseCertPath)),
        };
        let static_files_dir = match vars.static_files_dir {
            Some(s) => s,
            None => return Err(ConfigError::Missing(ConfigField::StaticFilesDir)),
        };
        let cache_client_pages = match number_value(ConfigField::CacheClientPages, &vars.cache_client_pages) {
            Ok(n) => n,
            Err(e) => return Err(e),
        };
        let cache_client_static = match number_value(ConfigField::CacheClientStatic, &vars.cache_client_static) {
            Ok(n) => n,
            Err(e) => return Err(e),
        };
        let cache_memory_pages = match number_value(ConfigField::CacheMemoryPages, &vars.cache_memory_pages) {
            Ok(n) => n,
            Err(e) => return Err(e),
        };
        let cache_memory_general = match number_value(ConfigField::CacheMemoryGeneral, &vars.cache_memory_general) {
            Ok(n) => n,
            Err(e) => return Err(e),
        };
        Ok(Config {
            test_variable: String::from_str("test"),
            database_url,
            database_cert_path,
            static_files_dir,
            cache_client_pages,
            cache_client_static,
            cache_memory_pages,
            cache_memory_general,
        })
    }
}

} // verus!
