use vstd::prelude::*;

verus! {

/// Default max interval between two touches of the record: six days.
pub const DEFAULT_MAX_INTERVAL: u64 = 518400;

/// Default seconds between two address probes.
pub const DEFAULT_INTERVAL: u64 = 60;

/// The `[ddns]` table of the configuration file.
#[derive(Clone, Debug, PartialEq, Eq)]
pub struct Ddns {
    pub hostname: String,
    pub username: String,
    pub password: String,
    /// Upper bound, in seconds, between two successful updates.
    pub max_interval: u64,
}

/// The `[ip_checker]` table of the configuration file.
#[derive(Clone, Debug, PartialEq, Eq)]
pub struct IpChecker {
    /// Seconds between two address probes.
    pub interval: u64,
    pub url: String,
}

#[derive(Clone, Debug, PartialEq, Eq)]
pub struct Config {
    pub ddns: Ddns,
    pub ip_checker: IpChecker,
}

/// A configuration that the workers cannot run with.
#[derive(Clone, Copy, Debug, PartialEq, Eq, Structural)]
pub enum ConfigError {
    ZeroInterval,
    ZeroMaxInterval,
}

pub open spec fn is_default_ddns(d: Ddns) -> bool {
    &&& d.hostname@ == "<placeholder>"@
    &&& d.username@ == "<placeholder>"@
    &&& d.password@ == "hostname"@
    &&& d.max_interval == DEFAULT_MAX_INTERVAL
}

pub open spec fn is_default_ip_checker(c: IpChecker) -> bool {
    &&& c.interval == DEFAULT_INTERVAL
    &&& c.url@ == "https://ident.me"@
}

pub open spec fn is_default_config(c: Config) -> bool {
    is_default_ddns(c.ddns) && is_default_ip_checker(c.ip_checker)
}

impl Config {
    /// Both intervals are positive.
    pub open spec fn valid(&self) -> bool {
        self.ip_checker.interval > 0 && self.ddns.max_interval > 0
    }

    /// Checks that both intervals are positive.
    pub fn validate(&self) -> (r: Result<(), ConfigError>)
        ensures
            r is Ok <==> self.valid(),
            r == Err::<(), ConfigError>(ConfigError::ZeroInterval) <==> self.ip_checker.interval
                == 0,
            r == Err::<(), ConfigError>(ConfigError::ZeroMaxInterval) <==> (
            self.ip_checker.interval > 0 && self.ddns.max_interval == 0),
    {
        if self.ip_checker.interval == 0 {
            Err(ConfigError::ZeroInterval)
        } else if self.ddns.max_interval == 0 {
            Err(ConfigError::ZeroMaxInterval)
        } else {
            Ok(())
        }
    }
}

impl Default for Ddns {
    fn default() -> (r: Self)
        ensures
            is_default_ddns(r),
    {
        Ddns {
            hostname: "<placeholder>".to_owned(),
            username: "<placeholder>".to_owned(),
            password: "hostname".to_owned(),
            max_interval: DEFAULT_MAX_INTERVAL,
        }
    }
}

impl Default for IpChecker {
    fn default() -> (r: Self)
        ensures
            is_default_ip_checker(r),
    {
        IpChecker { interval: DEFAULT_INTERVAL, url: "https://ident.me".to_owned() }
    }
}

impl Default for Config {
    fn default() -> (r: Self)
        ensures
            is_default_config(r),
    {
        Config { ddns: Ddns::default(), ip_checker: IpChecker::default() }
    }
}

/// The defaults written on a clean start are a configuration the workers
/// run with.
pub proof fn lemma_defaults_valid(c: Config)
    requires
        is_default_config(c),
    ensures
        c.valid(),
{
}

/// Settles the configuration to start with. `existing` is the content of the
/// configuration file, `None` when there is no file. The result holds the
/// configuration and whether the defaults must be written out as the new
/// file.
pub fn init_config(existing: Option<Config>) -> (r: Result<(Config, bool), ConfigError>)
    ensures
        match existing {
            None => r matches Ok((c, created)) && created && is_default_config(c),
            Some(e) => match r {
                Ok((c, created)) => e.valid() && c == e && !created,
                Err(err) => !e.valid() && (err == ConfigError::ZeroInterval <==> e.ip_checker.interval == 0),
            },
        },
{
    match existing {
        None => Ok((Config::default(), true)),
        Some(e) => match e.validate() {
            Ok(()) => Ok((e, false)),
            Err(err) => Err(err),
        },
    }
}

} // verus!
