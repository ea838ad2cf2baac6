use vstd::prelude::*;

use crate::settings::{parse_port, port_value, ConfigError};
use crate::text::owned;

verus! {

/// The settings of the realtime service.
#[derive(Debug)]
pub struct Config {
    pub port: u16,
    pub redis_url: String,
}

impl Config {
    /// Reads the realtime service's settings from the values of `APP_PORT` and
    /// `REDIS_URL` (`None` where unset).
    pub fn from_settings(app_port: Option<String>, redis_url: Option<String>) -> (r: Result<
        Config,
        ConfigError,
    >)
        ensures
            ({
                let port_text = match app_port {
                    Some(p) => p@,
                    None => "3006"@,
                };
                match port_value(port_text) {
                    None => r == Err::<Config, ConfigError>(ConfigError::InvalidPort),
                    Some(port) => r matches Ok(c) && c.port == port && c.redis_url@ == match redis_url {
                        Some(u) => u@,
                        None => "redis://localhost:6379"@,
                    },
                }
            }),
    {
        let port = match &app_port {
            Some(p) => parse_port(p.as_str()),
            None => parse_port("3006"),
        };
        match port {
            None => Err(ConfigError::InvalidPort),
            Some(port) => {
                let redis_url = match redis_url {
                    Some(u) => u,
                    None => owned("redis://localhost:6379"),
                };
                Ok(Config { port, redis_url })
            },
        }
    }
}

} // verus!
