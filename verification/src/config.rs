//! Process configuration and the addresses derived from it.

use vstd::prelude::*;
use vstd::string::*;
use crate::text::{decimal, decimal_text, parse_u16, u16_value};

verus! {

/// Settings loaded once at startup and never changed afterwards.
#[derive(Debug, Clone)]
pub struct Config {
    pub port: u16,
    pub host: String,
    pub redis_host: String,
    pub redis_port: u16,
    pub redis_password: Option<String>,
    pub youtube_api_key: String,
    pub channel_id: String,
}

/// The connection string of a store at `host:port`, with an optional credential.
pub open spec fn redis_url_text(password: Option<Seq<char>>, host: Seq<char>, port: nat) -> Seq<
    char,
> {
    match password {
        Some(p) => "redis://:"@ + p + "@"@ + host + ":"@ + decimal(port),
        None => "redis://"@ + host + ":"@ + decimal(port),
    }
}

/// The listen address `host:port`.
pub open spec fn server_addr_text(host: Seq<char>, port: nat) -> Seq<char> {
    host + ":"@ + decimal(port)
}

impl Config {
    /// The credential as a plain value.
    pub open spec fn password_view(&self) -> Option<Seq<char>> {
        match self.redis_password {
            Some(p) => Some(p@),
            None => None,
        }
    }

    /// The connection string of the cache store.
    pub fn redis_url(&self) -> (url: String)
        ensures
            url@ == redis_url_text(self.password_view(), self.redis_host@, self.redis_port as nat),
    {
        let port: String = decimal_text(self.redis_port);
        match &self.redis_password {
            Some(password) => {
                let mut url: String = String::from_str("redis://:");
                url.append(password.as_str());
                url.append("@");
                url.append(self.redis_host.as_str());
                url.append(":");
                url.append(port.as_str());
                url
            },
            None => {
                let mut url: String = String::from_str("redis://");
                url.append(self.redis_host.as_str());
                url.append(":");
                url.append(port.as_str());
                url
            },
        }
    }

    /// The address the server listens on.
    pub fn server_addr(&self) -> (addr: String)
        ensures
            addr@ == server_addr_text(self.host@, self.port as nat),
    {
        let port: String = decimal_text(self.port);
        let mut addr: String = self.host.clone();
        addr.append(":");
        addr.append(port.as_str());
        addr
    }
}

/// The text of an optional string.
pub open spec fn given(s: Option<String>) -> Option<Seq<char>> {
    match s {
        Some(t) => Some(t@),
        None => None,
    }
}

/// A setting, or its default where it was not given.
pub open spec fn setting_or(s: Option<Seq<char>>, default: Seq<char>) -> Seq<char> {
    match s {
        Some(t) => t,
        None => default,
    }
}

/// A credential counts only where it is not empty.
pub open spec fn credential(s: Option<Seq<char>>) -> Option<Seq<char>> {
    match s {
        Some(t) => if t.len() > 0 {
            Some(t)
        } else {
            None
        },
        None => None,
    }
}

fn or_default(s: Option<String>, default: &str) -> (r: String)
    ensures
        r@ == setting_or(given(s), default@),
{
    match s {
        Some(t) => t,
        None => String::from_str(default),
    }
}

impl Config {
    /// Builds the configuration from the settings found in the environment,
    /// each one absent or present. Absent settings take their defaults: port
    /// 3000 on 127.0.0.1, a store at 127.0.0.1:6379 without credential. There
    /// is a configuration exactly where both ports are numbers of sixteen bits.
    pub fn from_vars(
        port: Option<String>,
        host: Option<String>,
        redis_host: Option<String>,
        redis_port: Option<String>,
        redis_password: Option<String>,
        youtube_api_key: Option<String>,
        channel_id: Option<String>,
    ) -> (r: Option<Config>)
        ensures
            r is Some <==> u16_value(setting_or(given(port), "3000"@)) is Some && u16_value(
                setting_or(given(redis_port), "6379"@),
            ) is Some,
            r matches Some(c) ==> {
                &&& Some(c.port as nat) == u16_value(setting_or(given(port), "3000"@))
                &&& Some(c.redis_port as nat) == u16_value(setting_or(given(redis_port), "6379"@))
                &&& c.host@ == setting_or(given(host), "127.0.0.1"@)
                &&& c.redis_host@ == setting_or(given(redis_host), "127.0.0.1"@)
                &&& c.password_view() == credential(given(redis_password))
                &&& c.youtube_api_key@ == setting_or(given(youtube_api_key), "key"@)
                &&& c.channel_id@ == setting_or(given(channel_id), "channelId"@)
            },
    {
        let port_text: String = or_default(port, "3000");
        let redis_port_text: String = or_default(redis_port, "6379");
        let port_number: u16 = match parse_u16(port_text.as_str()) {
            Some(n) => n,
            None => { return None; },
        };
        let redis_port_number: u16 = match parse_u16(redis_port_text.as_str()) {
            Some(n) => n,
            None => { return None; },
        };
        let password: Option<String> = match redis_password {
            Some(p) => if p.as_str().unicode_len() > 0 {
                Some(p)
            } else {
                None
            },
            None => None,
        };
        Some(
            Config {
                port: port_number,
                host: or_default(host, "127.0.0.1"),
                redis_host: or_default(redis_host, "127.0.0.1"),
                redis_port: redis_port_number,
                redis_password: password,
                youtube_api_key: or_default(youtube_api_key, "key"),
                channel_id: or_default(channel_id, "channelId"),
            },
        )
    }
}

} // verus!
