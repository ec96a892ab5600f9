//! Configuration of the OSC proxy: where it listens, the targets it forwards to, and the
//! routes that decide which messages go to which targets.
//!
//! Socket addresses are kept in their text form (`"127.0.0.1:8000"`).
use vstd::prelude::*;
use crate::text::str_eq;

verus! {

/// Main configuration for the OSC proxy
pub struct ProxyConfig {
    /// Server configuration
    pub server: ServerConfig,
    /// Target configurations by name (no name occurs twice)
    pub targets: Vec<(String, TargetConfig)>,
    /// Routing rules
    pub routes: Vec<RouteConfig>,
    /// Logging configuration
    pub logging: LoggingConfig,
}

/// Server listening configuration
pub struct ServerConfig {
    /// UDP addresses to bind to
    pub udp: Vec<String>,
    /// TCP addresses to bind to (future use)
    pub tcp: Vec<String>,
}

/// Target connection configuration
pub struct TargetConfig {
    /// Transport type and address
    pub transport: TransportConfig,
    /// Reconnection interval in seconds
    pub reconnect_interval: u64,
    /// Optional description for display
    pub description: Option<String>,
}

/// Transport configuration
pub enum TransportConfig {
    Udp { to: String },
    Tcp { to: String },
}

/// Routing rule configuration
pub struct RouteConfig {
    /// OSC address pattern (regex)
    pub pattern: String,
    /// Whether to stop processing more routes after this one matches
    pub stop_propagation: bool,
    /// Targets to forward to
    pub forward: Vec<ForwardConfig>,
    /// Optional description
    pub description: Option<String>,
}

/// Forward configuration for routing
pub struct ForwardConfig {
    /// Target name to forward to
    pub to: String,
    /// Optional address rewriting pattern
    pub rewrite: Option<String>,
}

/// Logging configuration
pub struct LoggingConfig {
    /// Log level (trace, debug, info, warn, error)
    pub level: String,
    /// Whether to enable file logging
    pub file: bool,
    /// Log file path (if file logging enabled)
    pub file_path: String,
}

impl Default for LoggingConfig {
    /// Level `info`, no file logging, file `osc-proxy.log`.
    fn default() -> (r: Self)
        ensures
            r.level@ == "info"@,
            !r.file,
            r.file_path@ == "osc-proxy.log"@,
    {
        LoggingConfig { level: default_log_level(), file: false, file_path: default_log_file() }
    }
}

/// The addresses to listen on when none are given.
pub fn default_udp_addresses() -> (r: Vec<String>)
    ensures
        r@.len() == 1,
        r@[0]@ == "127.0.0.1:8000"@,
{
    let mut v = Vec::new();
    v.push("127.0.0.1:8000".to_owned());
    v
}

/// Seconds between reconnection attempts when none are given.
pub fn default_reconnect_interval() -> (r: u64)
    ensures
        r == 5,
{
    5
}

pub fn default_log_level() -> (r: String)
    ensures
        r@ == "info"@,
{
    "info".to_owned()
}

pub fn default_log_file() -> (r: String)
    ensures
        r@ == "osc-proxy.log"@,
{
    "osc-proxy.log".to_owned()
}

/// Whether `pattern` is a regular expression the `regex` crate accepts.
pub uninterp spec fn regex_compiles(pattern: Seq<char>) -> bool;

/// Compiles `pattern` with `regex::Regex::new` and tells whether it was accepted.
/// Trusted: the result is whatever the `regex` crate decides for this pattern (a function
/// of the pattern alone, under the crate's default limits); it is not restated here.
#[verifier::external_body]
pub(crate) fn pattern_compiles(pattern: &str) -> (r: bool)
    ensures
        r == regex_compiles(pattern@),
{
    regex::Regex::new(pattern).is_ok()
}

/// Why a configuration is not usable.
#[derive(Clone, Debug, PartialEq, Eq)]
pub enum ConfigError {
    /// A route forwards to a target that is not configured.
    UnknownTarget(String),
    /// A route's pattern is not a valid regular expression.
    InvalidPattern(String),
    /// No UDP or TCP server address is configured.
    NoServerAddress,
}

/// The place of the target named `name`, if any.
/// No target name occurs twice.
pub open spec fn distinct_target_names(targets: Seq<(String, TargetConfig)>) -> bool {
    forall|i: int, j: int| 0 <= i < j < targets.len() ==> (#[trigger] targets[i]).0@ != (#[trigger] targets[j]).0@
}

pub open spec fn has_target(targets: Seq<(String, TargetConfig)>, name: Seq<char>) -> bool {
    exists|k: int| 0 <= k < targets.len() && (#[trigger] targets[k]).0@ == name
}

/// Every forward of every route names a configured target.
pub open spec fn forwards_known(cfg: ProxyConfig) -> bool {
    forall|i: int, j: int|
        0 <= i < cfg.routes@.len() && 0 <= j < cfg.routes@[i].forward@.len() ==> has_target(
            cfg.targets@,
            (#[trigger] cfg.routes@[i].forward@[j]).to@,
        )
}

/// The first forward (route by route, in order) that names an unknown target.
pub open spec fn first_unknown_forward(cfg: ProxyConfig, i: int, j: int) -> bool {
    &&& 0 <= i < cfg.routes@.len()
    &&& 0 <= j < cfg.routes@[i].forward@.len()
    &&& !has_target(cfg.targets@, cfg.routes@[i].forward@[j].to@)
    &&& forall|i2: int, j2: int|
        (0 <= i2 < i && 0 <= j2 < cfg.routes@[i2].forward@.len()) || (i2 == i && 0 <= j2 < j)
            ==> has_target(cfg.targets@, (#[trigger] cfg.routes@[i2].forward@[j2]).to@)
}

/// The first route whose pattern does not compile.
pub open spec fn first_invalid_pattern(cfg: ProxyConfig, i: int) -> bool {
    &&& 0 <= i < cfg.routes@.len()
    &&& !regex_compiles(cfg.routes@[i].pattern@)
    &&& forall|i2: int| 0 <= i2 < i ==> regex_compiles((#[trigger] cfg.routes@[i2]).pattern@)
}

fn contains_target(targets: &Vec<(String, TargetConfig)>, name: &String) -> (r: bool)
    ensures
        r == has_target(targets@, name@),
{
    let mut k: usize = 0;
    while k < targets.len()
        invariant
            k <= targets@.len(),
            forall|m: int| 0 <= m < k ==> (#[trigger] targets@[m]).0@ != name@,
        decreases targets@.len() - k,
    {
        if str_eq(targets[k].0.as_str(), name.as_str()) {
            return true;
        }
        k = k + 1;
    }
    false
}

impl ProxyConfig {
    /// No target name occurs twice.
    pub open spec fn wf(&self) -> bool {
        distinct_target_names(self.targets@)
    }

    /// Checks the configuration: every route forwards to configured targets, every route
    /// pattern is a valid regular expression, and at least one server address is set.
    /// The first problem found, in that order and route by route, is reported.
    pub fn validate(&self) -> (r: Result<(), ConfigError>)
        ensures
            match r {
                Ok(()) => {
                    &&& forwards_known(*self)
                    &&& forall|i: int|
                        0 <= i < self.routes@.len() ==> regex_compiles(
                            (#[trigger] self.routes@[i]).pattern@,
                        )
                    &&& !(self.server.udp@.len() == 0 && self.server.tcp@.len() == 0)
                },
                Err(ConfigError::UnknownTarget(t)) => exists|i: int, j: int|
                    first_unknown_forward(*self, i, j) && t@ == self.routes@[i].forward@[j].to@,
                Err(ConfigError::InvalidPattern(p)) => {
                    &&& forwards_known(*self)
                    &&& exists|i: int| first_invalid_pattern(*self, i) && p@ == self.routes@[i].pattern@
                },
                Err(ConfigError::NoServerAddress) => {
                    &&& forwards_known(*self)
                    &&& forall|i: int|
                        0 <= i < self.routes@.len() ==> regex_compiles(
                            (#[trigger] self.routes@[i]).pattern@,
                        )
                    &&& self.server.udp@.len() == 0
                    &&& self.server.tcp@.len() == 0
                },
            },
    {
        // Check that all forward targets exist
        let mut i: usize = 0;
        while i < self.routes.len()
            invariant
                i <= self.routes@.len(),
                forall|i2: int, j2: int|
                    0 <= i2 < i && 0 <= j2 < self.routes@[i2].forward@.len() ==> has_target(
                        self.targets@,
                        (#[trigger] self.routes@[i2].forward@[j2]).to@,
                    ),
            decreases self.routes@.len() - i,
        {
            let forward = &self.routes[i].forward;
            let mut j: usize = 0;
            while j < forward.len()
                invariant
                    i < self.routes@.len(),
                    j <= forward@.len(),
                    forward@ == self.routes@[i as int].forward@,
                    forall|i2: int, j2: int|
                        (0 <= i2 < i && 0 <= j2 < self.routes@[i2].forward@.len()) || (i2 == i && 0
                            <= j2 < j) ==> has_target(
                            self.targets@,
                            (#[trigger] self.routes@[i2].forward@[j2]).to@,
                        ),
                decreases forward@.len() - j,
            {
                if !contains_target(&self.targets, &forward[j].to) {
                    let t = forward[j].to.clone();
                    assert(first_unknown_forward(*self, i as int, j as int));
                    return Err(ConfigError::UnknownTarget(t));
                }
                j = j + 1;
            }
            i = i + 1;
        }
        // Validate regex patterns
        let mut i: usize = 0;
        while i < self.routes.len()
            invariant
                i <= self.routes@.len(),
                forwards_known(*self),
                forall|i2: int| 0 <= i2 < i ==> regex_compiles((#[trigger] self.routes@[i2]).pattern@),
            decreases self.routes@.len() - i,
        {
            if !pattern_compiles(self.routes[i].pattern.as_str()) {
                let p = self.routes[i].pattern.clone();
                assert(first_invalid_pattern(*self, i as int));
                return Err(ConfigError::InvalidPattern(p));
            }
            i = i + 1;
        }
        // Validate server addresses
        if self.server.udp.len() == 0 && self.server.tcp.len() == 0 {
            return Err(ConfigError::NoServerAddress);
        }
        Ok(())
    }
}


/// A named target as the sample configuration writes it.
pub open spec fn sample_target(
    entry: (String, TargetConfig),
    name: Seq<char>,
    udp: bool,
    to: Seq<char>,
    reconnect_interval: u64,
    description: Seq<char>,
) -> bool {
    &&& entry.0@ == name
    &&& match entry.1.transport {
        TransportConfig::Udp { to: a } => udp && a@ == to,
        TransportConfig::Tcp { to: a } => !udp && a@ == to,
    }
    &&& entry.1.reconnect_interval == reconnect_interval
    &&& entry.1.description matches Some(d) && d@ == description
}

/// A forward as the sample configuration writes it.
pub open spec fn sample_forward(f: ForwardConfig, to: Seq<char>, rewrite: Option<Seq<char>>) -> bool {
    &&& f.to@ == to
    &&& match rewrite {
        Some(w) => f.rewrite matches Some(x) && x@ == w,
        None => f.rewrite is None,
    }
}

fn new_target(name: &str, udp: bool, to: &str, reconnect_interval: u64, description: &str) -> (r: (String, TargetConfig))
    ensures
        sample_target(r, name@, udp, to@, reconnect_interval, description@),
{
    let transport = if udp {
        TransportConfig::Udp { to: to.to_owned() }
    } else {
        TransportConfig::Tcp { to: to.to_owned() }
    };
    (name.to_owned(), TargetConfig { transport, reconnect_interval, description: Some(description.to_owned()) })
}

fn new_forward(to: &str, rewrite: Option<&str>) -> (r: ForwardConfig)
    ensures
        sample_forward(r, to@, match rewrite { Some(w) => Some(w@), None => None }),
{
    let rewrite = match rewrite {
        Some(w) => Some(w.to_owned()),
        None => None,
    };
    ForwardConfig { to: to.to_owned(), rewrite }
}

impl ProxyConfig {
    /// A sample configuration: listen on UDP `127.0.0.1:8000`; targets `vrchat` (UDP
    /// `127.0.0.1:9000`), `touchdesigner` (TCP `127.0.0.1:9001`) and `ableton` (UDP
    /// `127.0.0.1:9002`); avatar parameters go to VRChat, audio analysis to Ableton and
    /// TouchDesigner, and everything to TouchDesigner for monitoring.
    pub fn create_sample() -> (r: Self)
        ensures
            r.server.udp@.len() == 1 && r.server.udp@[0]@ == "127.0.0.1:8000"@,
            r.server.tcp@.len() == 0,
            r.targets@.len() == 3,
            r.wf(),
            sample_target(r.targets@[0], "vrchat"@, true, "127.0.0.1:9000"@, 5, "VRChat OSC input"@),
            sample_target(r.targets@[1], "touchdesigner"@, false, "127.0.0.1:9001"@, 3, "TouchDesigner visualization"@),
            sample_target(r.targets@[2], "ableton"@, true, "127.0.0.1:9002"@, 10, "Ableton Live control"@),
            r.routes@.len() == 3,
            r.routes@[0].pattern@ == "^/avatar/parameters/(?P<param>.*)$"@,
            !r.routes@[0].stop_propagation,
            r.routes@[0].forward@.len() == 1,
            sample_forward(r.routes@[0].forward@[0], "vrchat"@, Some("/avatar/parameters/$param"@)),
            r.routes@[0].description matches Some(d) && d@ == "VRChat avatar parameters"@,
            r.routes@[1].pattern@ == "^/audio/(?P<param>.*)$"@,
            !r.routes@[1].stop_propagation,
            r.routes@[1].forward@.len() == 2,
            sample_forward(r.routes@[1].forward@[0], "ableton"@, Some("/live/$param"@)),
            sample_forward(r.routes@[1].forward@[1], "touchdesigner"@, Some("/viz/$param"@)),
            r.routes@[1].description matches Some(d) && d@ == "Audio analysis data"@,
            r.routes@[2].pattern@ == "(.*)$"@,
            !r.routes@[2].stop_propagation,
            r.routes@[2].forward@.len() == 1,
            sample_forward(r.routes@[2].forward@[0], "touchdesigner"@, None),
            r.routes@[2].description matches Some(d) && d@ == "Catchall route for monitoring"@,
            r.logging.level@ == "info"@,
            !r.logging.file,
            r.logging.file_path@ == "osc-proxy.log"@,
            forwards_known(r),
    {
        let mut targets = Vec::new();
        targets.push(new_target("vrchat", true, "127.0.0.1:9000", 5, "VRChat OSC input"));
        targets.push(new_target("touchdesigner", false, "127.0.0.1:9001", 3, "TouchDesigner visualization"));
        targets.push(new_target("ableton", true, "127.0.0.1:9002", 10, "Ableton Live control"));

        let mut forward0 = Vec::new();
        forward0.push(new_forward("vrchat", Some("/avatar/parameters/$param")));
        let mut forward1 = Vec::new();
        forward1.push(new_forward("ableton", Some("/live/$param")));
        forward1.push(new_forward("touchdesigner", Some("/viz/$param")));
        let mut forward2 = Vec::new();
        forward2.push(new_forward("touchdesigner", None));

        let mut routes = Vec::new();
        routes.push(RouteConfig {
            pattern: "^/avatar/parameters/(?P<param>.*)$".to_owned(),
            stop_propagation: false,
            forward: forward0,
            description: Some("VRChat avatar parameters".to_owned()),
        });
        routes.push(RouteConfig {
            pattern: "^/audio/(?P<param>.*)$".to_owned(),
            stop_propagation: false,
            forward: forward1,
            description: Some("Audio analysis data".to_owned()),
        });
        routes.push(RouteConfig {
            pattern: "(.*)$".to_owned(),
            stop_propagation: false,
            forward: forward2,
            description: Some("Catchall route for monitoring".to_owned()),
        });

        let mut udp = Vec::new();
        udp.push("127.0.0.1:8000".to_owned());
        let r = ProxyConfig {
            server: ServerConfig { udp, tcp: Vec::new() },
            targets,
            routes,
            logging: LoggingConfig::default(),
        };
        proof {
            reveal_strlit("vrchat");
            reveal_strlit("touchdesigner");
            reveal_strlit("ableton");
        }
        assert(r.targets@[0].0@.len() == 6 && r.targets@[1].0@.len() == 13 && r.targets@[2].0@.len() == 7);
        assert(distinct_target_names(r.targets@));
        assert(has_target(r.targets@, "vrchat"@)) by {
            assert(r.targets@[0].0@ == "vrchat"@);
        }
        assert(has_target(r.targets@, "touchdesigner"@)) by {
            assert(r.targets@[1].0@ == "touchdesigner"@);
        }
        assert(has_target(r.targets@, "ableton"@)) by {
            assert(r.targets@[2].0@ == "ableton"@);
        }
        r
    }
}

} // verus!
