//! Application configuration: how it is built from the process environment's
//! values, and the email settings derived from it.

use vstd::prelude::*;
use crate::text::{parse_unsigned, parse_unsigned_spec};

verus! {

/// Application-wide configuration.
#[derive(Debug, Clone, PartialEq, Eq)]
pub struct Config {
    pub database_url: String,
    pub max_connections: u32,
    pub acquire_timeout_seconds: u64,
    pub jwt_secret: String,
    pub jwt_expires_in_seconds: u64,
    pub server_port: u16,
    pub smtp_host: Option<String>,
    pub smtp_port: Option<u16>,
    pub smtp_username: Option<String>,
    pub smtp_password: Option<String>,
    pub from_email: Option<String>,
    pub from_name: Option<String>,
    pub base_url: String,
}

/// Email-specific configuration extracted from the main [`Config`].
#[derive(Debug, Clone, PartialEq, Eq)]
pub struct EmailConfig {
    pub smtp_host: String,
    pub smtp_port: u16,
    pub smtp_username: String,
    pub smtp_password: String,
    pub from_email: String,
    pub from_name: String,
    pub base_url: String,
}

/// The values of the environment variables that configure the application;
/// `None` where a variable is unset (or not valid Unicode).
#[derive(Debug, Clone, PartialEq, Eq)]
pub struct EnvVars {
    pub database_url: Option<String>,
    pub db_max_connections: Option<String>,
    pub db_acquire_timeout_seconds: Option<String>,
    pub jwt_secret: Option<String>,
    pub jwt_expires_in_seconds: Option<String>,
    pub server_port: Option<String>,
    pub smtp_host: Option<String>,
    pub smtp_port: Option<String>,
    pub smtp_username: Option<String>,
    pub smtp_password: Option<String>,
    pub from_email: Option<String>,
    pub from_name: Option<String>,
    pub base_url: Option<String>,
}

/// The text of an optional variable, or `default` when it is unset.
pub open spec fn text_or(v: Option<String>, default: Seq<char>) -> Seq<char> {
    match v {
        Some(s) => s@,
        None => default,
    }
}

/// The configuration error for `vars`, if any, checked in this order:
/// `DB_MAX_CONNECTIONS` (default 5) must be a `u32`,
/// `DB_ACQUIRE_TIMEOUT_SECONDS` (default 3) a `u64`, `JWT_SECRET` must be
/// set, `JWT_EXPIRES_IN_SECONDS` (default 86400) a `u64`, and `SERVER_PORT`
/// (default 3030) a `u16`.
pub open spec fn config_error(vars: EnvVars) -> Option<Seq<char>> {
    if parse_unsigned_spec(text_or(vars.db_max_connections, "5"@), 0xffff_ffff) is None {
        Some("DB_MAX_CONNECTIONS must be a valid number"@)
    } else if parse_unsigned_spec(
        text_or(vars.db_acquire_timeout_seconds, "3"@),
        0xffff_ffff_ffff_ffff,
    ) is None {
        Some("DB_ACQUIRE_TIMEOUT_SECONDS must be a valid number"@)
    } else if vars.jwt_secret is None {
        Some("JWT_SECRET not set"@)
    } else if parse_unsigned_spec(
        text_or(vars.jwt_expires_in_seconds, "86400"@),
        0xffff_ffff_ffff_ffff,
    ) is None {
        Some("JWT_EXPIRES_IN_SECONDS must be a valid number"@)
    } else if parse_unsigned_spec(text_or(vars.server_port, "3030"@), 0xffff) is None {
        Some("SERVER_PORT must be a valid number"@)
    } else {
        None
    }
}

/// The value of an optional variable parsed with the `str::parse` rules for a
/// type whose largest value is `max`; unset or unparsable gives `None`.
pub open spec fn optional_number(v: Option<String>, max: nat) -> Option<nat> {
    match v {
        Some(s) => parse_unsigned_spec(s@, max),
        None => None,
    }
}

/// The configuration built from `vars` when [`config_error`] finds nothing:
/// `DATABASE_URL` defaults to `sqlite:nodegaze.db`, `SMTP_PORT` to 587 when
/// unset (a set value that is not a `u16` leaves the port unset), and
/// `BASE_URL` to `http://localhost:3000`.
pub open spec fn config_matches(c: Config, vars: EnvVars) -> bool {
    &&& c.database_url@ == text_or(vars.database_url, "sqlite:nodegaze.db"@)
    &&& parse_unsigned_spec(text_or(vars.db_max_connections, "5"@), 0xffff_ffff) == Some(
        c.max_connections as nat,
    )
    &&& parse_unsigned_spec(
        text_or(vars.db_acquire_timeout_seconds, "3"@),
        0xffff_ffff_ffff_ffff,
    ) == Some(c.acquire_timeout_seconds as nat)
    &&& Some(c.jwt_secret) == vars.jwt_secret
    &&& parse_unsigned_spec(
        text_or(vars.jwt_expires_in_seconds, "86400"@),
        0xffff_ffff_ffff_ffff,
    ) == Some(c.jwt_expires_in_seconds as nat)
    &&& parse_unsigned_spec(text_or(vars.server_port, "3030"@), 0xffff) == Some(
        c.server_port as nat,
    )
    &&& c.smtp_host == vars.smtp_host
    &&& match vars.smtp_port {
        None => c.smtp_port == Some(587u16),
        Some(_) => match c.smtp_port {
            Some(p) => optional_number(vars.smtp_port, 0xffff) == Some(p as nat),
            None => optional_number(vars.smtp_port, 0xffff) is None,
        },
    }
    &&& c.smtp_username == vars.smtp_username
    &&& c.smtp_password == vars.smtp_password
    &&& c.from_email == vars.from_email
    &&& c.from_name == vars.from_name
    &&& c.base_url@ == text_or(vars.base_url, "http://localhost:3000"@)
}

fn number_or_default(v: &Option<String>, default: &str, max: u64) -> (r: Option<u64>)
    ensures
        r matches Some(x) ==> parse_unsigned_spec(text_or(*v, default@), max as nat) == Some(
            x as nat,
        ),
        r is None ==> parse_unsigned_spec(text_or(*v, default@), max as nat) is None,
{
    match v {
        Some(s) => parse_unsigned(s.as_str(), max),
        None => parse_unsigned(default, max),
    }
}

impl Config {
    /// Builds the configuration from the environment's values, with the
    /// defaults and error messages of [`config_error`].
    pub fn from_vars(vars: EnvVars) -> (r: Result<Config, String>)
        ensures
            match config_error(vars) {
                Some(msg) => r matches Err(m) && m@ == msg,
                None => r matches Ok(c) && config_matches(c, vars),
            },
    {
        let ghost v = vars;
        let database_url = match vars.database_url {
            Some(u) => u,
            None => String::from_str("sqlite:nodegaze.db"),
        };
        let max_connections = match number_or_default(&vars.db_max_connections, "5", 0xffff_ffff) {
            Some(x) => x as u32,
            None => {
                return Err(String::from_str("DB_MAX_CONNECTIONS must be a valid number"));
            },
        };
        let acquire_timeout_seconds = match number_or_default(
            &vars.db_acquire_timeout_seconds,
            "3",
            0xffff_ffff_ffff_ffff,
        ) {
            Some(x) => x,
            None => {
                return Err(String::from_str("DB_ACQUIRE_TIMEOUT_SECONDS must be a valid number"));
            },
        };
        let jwt_secret = match vars.jwt_secret {
            Some(s) => s,
            None => {
                return Err(String::from_str("JWT_SECRET not set"));
            },
        };
        let jwt_expires_in_seconds = match number_or_default(
            &vars.jwt_expires_in_seconds,
            "86400",
            0xffff_ffff_ffff_ffff,
        ) {
            Some(x) => x,
            None => {
                return Err(String::from_str("JWT_EXPIRES_IN_SECONDS must be a valid number"));
            },
        };
        let server_port = match number_or_default(&vars.server_port, "3030", 0xffff) {
            Some(x) => x as u16,
            None => {
                return Err(String::from_str("SERVER_PORT must be a valid number"));
            },
        };
        let smtp_port: Option<u16> = match &vars.smtp_port {
            Some(p) => match parse_unsigned(p.as_str(), 0xffff) {
                Some(x) => Some(x as u16),
                None => None,
            },
            None => Some(587),
        };
        let base_url = match vars.base_url {
            Some(u) => u,
            None => String::from_str("http://localhost:3000"),
        };
        Ok(Config {
            database_url,
            max_connections,
            acquire_timeout_seconds,
            jwt_secret,
            jwt_expires_in_seconds,
            server_port,
            smtp_host: vars.smtp_host,
            smtp_port,
            smtp_username: vars.smtp_username,
            smtp_password: vars.smtp_password,
            from_email: vars.from_email,
            from_name: vars.from_name,
            base_url,
        })
    }

    /// Returns the email configuration when the SMTP host, port, username and
    /// password are all present; the sender address defaults to the username
    /// and the sender name to `Your App`.
    pub fn email_config(&self) -> (r: Option<EmailConfig>)
        ensures
            match (self.smtp_host, self.smtp_port, self.smtp_username, self.smtp_password) {
                (Some(host), Some(port), Some(username), Some(password)) => r matches Some(e) && {
                    &&& e.smtp_host@ == host@
                    &&& e.smtp_port == port
                    &&& e.smtp_username@ == username@
                    &&& e.smtp_password@ == password@
                    &&& e.from_email@ == text_or(self.from_email, username@)
                    &&& e.from_name@ == text_or(self.from_name, "Your App"@)
                    &&& e.base_url@ == self.base_url@
                },
                _ => r is None,
            },
    {
        match (&self.smtp_host, &self.smtp_port, &self.smtp_username, &self.smtp_password) {
            (Some(host), Some(port), Some(username), Some(password)) => {
                let from_email = match &self.from_email {
                    Some(f) => f.clone(),
                    None => username.clone(),
                };
                let from_name = match &self.from_name {
                    Some(f) => f.clone(),
                    None => String::from_str("Your App"),
                };
                Some(
                    EmailConfig {
                        smtp_host: host.clone(),
                        smtp_port: *port,
                        smtp_username: username.clone(),
                        smtp_password: password.clone(),
                        from_email,
                        from_name,
                        base_url: self.base_url.clone(),
                    },
                )
            },
            _ => None,
        }
    }
}

} // verus!
