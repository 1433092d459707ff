//! Run configuration and its validation.
//!
//! A run is described once, at startup, by a [`Config`]: the registry base
//! URL, the start of the port range, the number of mock instances, and an
//! optional pair of credentials.  Validation is total and exact: `validate`
//! returns `Ok` precisely on the configurations the rest of the library
//! accepts, and names the first problem otherwise.  No network activity can
//! begin from a rejected configuration, because the scheduler refuses to be
//! constructed from one.

use vstd::prelude::*;
use vstd::string::StrSliceExecFns;

verus! {

/// A whole run's configuration.  `nacos` is the registry base URL, `port`
/// the start of the port range, `num` how many mock instances to run.
/// Credentials are optional, but must be given together.
#[derive(Clone)]
pub struct Config {
    pub nacos: String,
    pub port: u32,
    pub num: u32,
    pub username: Option<String>,
    pub password: Option<String>,
}

/// The mathematical value of a [`Config`].
#[verifier::ext_equal]
pub ghost struct ConfigV {
    pub nacos: Seq<char>,
    pub port: u32,
    pub num: u32,
    pub username: Option<Seq<char>>,
    pub password: Option<Seq<char>>,
}

impl View for Config {
    type V = ConfigV;

    open spec fn view(&self) -> ConfigV {
        ConfigV {
            nacos: self.nacos@,
            port: self.port,
            num: self.num,
            username: match self.username {
                Some(u) => Some(u@),
                None => None,
            },
            password: match self.password {
                Some(p) => Some(p@),
                None => None,
            },
        }
    }
}

/// Why a configuration was rejected.  These are the only fatal errors that
/// can occur before any network activity.
#[derive(Clone, Copy, Debug, PartialEq, Eq, Structural)]
pub enum ConfigError {
    /// Exactly one of username and password was given.
    PartialCredentials,
    /// The registry base URL is not an `http://` or `https://` origin.
    InvalidBaseUrl,
    /// The start of the port range must be positive.
    ZeroStartPort,
    /// The highest port of the range, `port + num`, does not fit in `u32`.
    PortRangeTooLarge,
}

/// Credentials are either both present or both absent.
pub open spec fn creds_ok(c: ConfigV) -> bool {
    c.username is Some <==> c.password is Some
}

/// A base URL is accepted when it is an `http://` or `https://` origin with
/// a non-empty remainder after the scheme.
pub open spec fn base_url_ok(s: Seq<char>) -> bool {
    ||| ("http://"@.is_prefix_of(s) && s.len() > "http://"@.len())
    ||| ("https://"@.is_prefix_of(s) && s.len() > "https://"@.len())
}

/// The port range `port + 1 ..= port + num` stays within `u32`.
pub open spec fn port_range_ok(c: ConfigV) -> bool {
    c.port + c.num <= u32::MAX
}

/// A configuration the scheduler accepts.
pub open spec fn spec_valid(c: ConfigV) -> bool {
    &&& creds_ok(c)
    &&& base_url_ok(c.nacos)
    &&& c.port > 0
    &&& port_range_ok(c)
}

/// The first error that validation reports, `None` on a valid configuration.
pub open spec fn first_config_error(c: ConfigV) -> Option<ConfigError> {
    if !creds_ok(c) {
        Some(ConfigError::PartialCredentials)
    } else if !base_url_ok(c.nacos) {
        Some(ConfigError::InvalidBaseUrl)
    } else if c.port == 0 {
        Some(ConfigError::ZeroStartPort)
    } else if !port_range_ok(c) {
        Some(ConfigError::PortRangeTooLarge)
    } else {
        None
    }
}

/// Whether `p` is a prefix of `s`, character by character.
fn has_prefix(s: &str, p: &str) -> (r: bool)
    ensures
        r == p@.is_prefix_of(s@),
{
    let sl = s.unicode_len();
    let pl = p.unicode_len();
    if pl > sl {
        return false;
    }
    let mut i: usize = 0;
    while i < pl
        invariant
            i <= pl,
            pl == p@.len(),
            sl == s@.len(),
            pl <= sl,
            forall|j: int| 0 <= j < i ==> p@[j] == s@[j],
        decreases pl - i,
    {
        if s.get_char(i) != p.get_char(i) {
            proof {
                assert(s@.subrange(0, pl as int)[i as int] == s@[i as int]);
            }
            return false;
        }
        i += 1;
    }
    proof {
        assert(p@ =~= s@.subrange(0, pl as int));
    }
    true
}

impl Config {
    /// Accepts exactly the configurations described by `spec_valid`, and on
    /// rejection reports the first failed check.
    pub fn validate(&self) -> (r: Result<(), ConfigError>)
        ensures
            r is Ok <==> spec_valid(self@),
            r matches Err(e) ==> Some(e) == first_config_error(self@),
    {
        if self.username.is_some() != self.password.is_some() {
            return Err(ConfigError::PartialCredentials);
        }
        let http = has_prefix(self.nacos.as_str(), "http://");
        let https = has_prefix(self.nacos.as_str(), "https://");
        let len = self.nacos.as_str().unicode_len();
        let http_ok = http && len > "http://".unicode_len();
        let https_ok = https && len > "https://".unicode_len();
        if !(http_ok || https_ok) {
            return Err(ConfigError::InvalidBaseUrl);
        }
        if self.port == 0 {
            return Err(ConfigError::ZeroStartPort);
        }
        if self.num > u32::MAX - self.port {
            return Err(ConfigError::PortRangeTooLarge);
        }
        Ok(())
    }
}

} // verus!
