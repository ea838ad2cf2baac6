use vstd::prelude::*;

use crate::settings::{parse_port, port_value, ConfigError};
use crate::text::owned;

verus! {

/// Default upper bound (exclusive, in whole seconds) of the fastest answer tier.
pub fn default_tier1() -> (r: i32)
    ensures
        r == 10,
{
    10
}

/// Default upper bound (exclusive, in whole seconds) of the middle answer tier.
pub fn default_tier2() -> (r: i32)
    ensures
        r == 20,
{
    20
}

/// Default catch-up threshold: a player below this percentage of the leader's score catches up.
pub fn default_ct() -> (r: i32)
    ensures
        r == 50,
{
    50
}

/// Default points for a right answer.
pub fn default_bp() -> (r: i32)
    ensures
        r == 100,
{
    100
}

/// The whole-number settings of a session's score configuration: the answer-time
/// tiers, the catch-up threshold and the points for a right answer. (The
/// multipliers themselves are fractional and are applied by the caller.)
#[derive(Debug, Clone, Copy, PartialEq, Eq, Structural)]
pub struct ScoreRules {
    pub tier1_max_seconds: i32,
    pub tier2_max_seconds: i32,
    pub catchup_threshold_percent: i32,
    pub base_points: i32,
}

impl ScoreRules {
    /// The settings a session without its own configuration uses.
    pub fn defaults() -> (r: ScoreRules)
        ensures
            r == (ScoreRules {
                tier1_max_seconds: 10,
                tier2_max_seconds: 20,
                catchup_threshold_percent: 50,
                base_points: 100,
            }),
    {
        ScoreRules {
            tier1_max_seconds: default_tier1(),
            tier2_max_seconds: default_tier2(),
            catchup_threshold_percent: default_ct(),
            base_points: default_bp(),
        }
    }
}

/// Whether the score configuration falls back to its defaults, given the HTTP
/// status of the session service's answer: it does for every status but a success (2xx).
pub fn falls_back_to_defaults(status: u16) -> (r: bool)
    ensures
        r == !(200 <= status && status <= 299),
{
    status == 404 || !(200 <= status && status <= 299)
}

/// The settings of the scoring service.
#[derive(Debug)]
pub struct Config {
    pub port: u16,
    pub database_url: String,
    pub redis_url: String,
    pub engine_service_url: String,
    pub session_service_url: String,
}

impl Config {
    /// Reads the scoring service's settings from the values of `APP_PORT`,
/// `DATABASE_URL`, `REDIS_URL`, `ENGINE_SERVICE_URL` and `SESSION_SERVICE_URL`
/// (`None` where unset). The port is checked first, then the database URL, which has no default.
pub fn from_settings(
    app_port: Option<String>,
    database_url: Option<String>,
    redis_url: Option<String>,
    engine_service_url: Option<String>,
    session_service_url: Option<String>,
) -> (r: Result<Config, ConfigError>)
    ensures
        ({
            let port_text = match app_port {
                Some(p) => p@,
                None => "3004"@,
            };
            match port_value(port_text) {
                None => r == Err::<Config, ConfigError>(ConfigError::InvalidPort),
                Some(port) => match database_url {
                    None => r == Err::<Config, ConfigError>(ConfigError::MissingDatabaseUrl),
                    Some(db) => r matches Ok(c) && c.port == port && c.database_url == db
                        && c.redis_url@ == match redis_url {
                        Some(u) => u@,
                        None => "redis://localhost:6379"@,
                    } && c.engine_service_url@ == match engine_service_url {
                        Some(u) => u@,
                        None => "http://localhost:3003"@,
                    } && c.session_service_url@ == match session_service_url {
                        Some(u) => u@,
                        None => "http://localhost:3002"@,
                    },
                },
            }
        }),
{
    let port = match &app_port {
        Some(p) => parse_port(p.as_str()),
        None => parse_port("3004"),
    };
    let port = match port {
        Some(p) => p,
        None => {
            return Err(ConfigError::InvalidPort);
        },
    };
    let database_url = match database_url {
        Some(db) => db,
        None => {
            return Err(ConfigError::MissingDatabaseUrl);
        },
    };
    let redis_url = match redis_url {
        Some(u) => u,
        None => owned("redis://localhost:6379"),
    };
    let engine_service_url = match engine_service_url {
        Some(u) => u,
        None => owned("http://localhost:3003"),
    };
    let session_service_url = match session_service_url {
        Some(u) => u,
        None => owned("http://localhost:3002"),
    };
    Ok(Config { port, database_url, redis_url, engine_service_url, session_service_url })
}
}

} // verus!
