//! Configuration values and their defaults.
use vstd::prelude::*;

verus! {

/// Process-wide defaults that an agent sets once, at startup, before any
/// configuration is built from them.
#[derive(Clone, Debug, PartialEq, Eq)]
pub struct ApiDefaults {
    /// Override of the default API bind address.
    pub bind: Option<String>,
}

impl ApiDefaults {
    /// No override set.
    pub fn new() -> (r: ApiDefaults)
        ensures
            r.bind is None,
    {
        ApiDefaults { bind: None }
    }
}

/// Enable/disable entire API trees.
#[derive(Clone, Copy, Debug, PartialEq, Eq, Hash, Structural)]
pub struct APITrees {
    /// Enable/disable the introspection APIs.
    pub introspect: bool,
    /// Enable/disable the unstable API.
    pub unstable: bool,
}

impl APITrees {
    /// Default for each tree flag: enabled.
    pub fn default_true() -> (r: bool)
        ensures
            r,
    {
        true
    }
}

impl APITrees {
    /// Each tree's name with whether it is enabled.
    pub fn flags(&self) -> (r: Vec<(&'static str, bool)>)
        ensures
            r@.len() == 2,
            r@[0].0@ == "introspect"@ && r@[0].1 == self.introspect,
            r@[1].0@ == "unstable"@ && r@[1].1 == self.unstable,
    {
        let mut flags: Vec<(&'static str, bool)> = Vec::new();
        flags.push(("introspect", self.introspect));
        flags.push(("unstable", self.unstable));
        flags
    }
}

impl Default for APITrees {
    fn default() -> (r: APITrees)
        ensures
            r.introspect && r.unstable,
    {
        APITrees { introspect: true, unstable: true }
    }
}

/// The bind address used when nothing overrides it.
pub open spec fn standard_bind() -> Seq<char> {
    "127.0.0.1:8000"@
}

/// Web server configuration options.
#[derive(Clone, Debug, PartialEq, Eq)]
pub struct APIConfig {
    /// Local address to bind the API server to.
    pub bind: String,
    /// Enable/disable entire API trees.
    pub trees: APITrees,
}

impl APIConfig {
    /// The default bind address: the override in `defaults`, if one was set.
    pub fn default_bind(defaults: &ApiDefaults) -> (r: String)
        ensures
            r@ == match defaults.bind {
                Some(b) => b@,
                None => standard_bind(),
            },
    {
        match &defaults.bind {
            Some(b) => b.clone(),
            None => "127.0.0.1:8000".to_owned(),
        }
    }

    /// Overrides the default bind address. This is done once, at the very
    /// beginning, before any configuration is built.
    pub fn set_default_bind(defaults: &mut ApiDefaults, bind: String)
        requires
            old(defaults).bind is None,
        ensures
            final(defaults).bind == Some(bind),
    {
        defaults.bind = Some(bind);
    }

    /// The default configuration under the given defaults.
    pub fn with_defaults(defaults: &ApiDefaults) -> (r: APIConfig)
        ensures
            r.bind@ == match defaults.bind {
                Some(b) => b@,
                None => standard_bind(),
            },
            r.trees.introspect && r.trees.unstable,
    {
        APIConfig { bind: APIConfig::default_bind(defaults), trees: APITrees::default() }
    }
}

impl Default for APIConfig {
    fn default() -> (r: APIConfig)
        ensures
            r.bind@ == standard_bind(),
            r.trees.introspect && r.trees.unstable,
    {
        APIConfig::with_defaults(&ApiDefaults::new())
    }
}

/// Kafka server location.
#[derive(Clone, Debug, PartialEq, Eq)]
pub struct BrokerTarget {
    /// Address "host:port" of the broker.
    pub uri: String,
    /// Network timeout for requests to Kafka, in seconds.
    pub timeout: u64,
}

impl BrokerTarget {
    /// Default broker address.
    pub fn default_uri() -> (r: String)
        ensures
            r@ == "localhost:9092"@,
    {
        "localhost:9092".to_owned()
    }

    /// Default broker timeout.
    pub fn default_timeout() -> (r: u64)
        ensures
            r == 10,
    {
        10
    }
}

impl Default for BrokerTarget {
    fn default() -> (r: BrokerTarget)
        ensures
            r.uri@ == "localhost:9092"@,
            r.timeout == 10,
    {
        BrokerTarget { uri: BrokerTarget::default_uri(), timeout: BrokerTarget::default_timeout() }
    }
}

/// Kafka's cluster Zookeeper server location.
#[derive(Clone, Debug, PartialEq, Eq)]
pub struct ZookeeperTarget {
    /// Addresses "host:port" of the zookeeper ensemble.
    pub uri: String,
    /// Zookeeper session timeout, in seconds.
    pub timeout: u64,
}

impl ZookeeperTarget {
    /// Default ensemble address.
    pub fn default_uri() -> (r: String)
        ensures
            r@ == "localhost:2818"@,
    {
        "localhost:2818".to_owned()
    }

    /// Default session timeout.
    pub fn default_timeout() -> (r: u64)
        ensures
            r == 10,
    {
        10
    }
}

impl Default for ZookeeperTarget {
    fn default() -> (r: ZookeeperTarget)
        ensures
            r.uri@ == "localhost:2818"@,
            r.timeout == 10,
    {
        ZookeeperTarget {
            uri: ZookeeperTarget::default_uri(),
            timeout: ZookeeperTarget::default_timeout(),
        }
    }
}

/// Kafka server listening locations.
#[derive(Clone, Debug, PartialEq, Eq)]
pub struct KafkaTarget {
    /// Kafka broker configuration.
    pub broker: BrokerTarget,
    /// Address "host:port" of the JMX server.
    pub jmx: String,
    /// Zookeeper ensemble for the Kafka cluster.
    pub zookeeper: ZookeeperTarget,
}

impl KafkaTarget {
    /// Default JMX address.
    pub fn default_jmx() -> (r: String)
        ensures
            r@ == "localhost:9999"@,
    {
        "localhost:9999".to_owned()
    }
}

impl Default for KafkaTarget {
    fn default() -> (r: KafkaTarget)
        ensures
            r.broker.uri@ == "localhost:9092"@,
            r.broker.timeout == 10,
            r.jmx@ == "localhost:9999"@,
            r.zookeeper.uri@ == "localhost:2818"@,
            r.zookeeper.timeout == 10,
    {
        KafkaTarget {
            broker: BrokerTarget::default(),
            jmx: KafkaTarget::default_jmx(),
            zookeeper: ZookeeperTarget::default(),
        }
    }
}

/// Kafka related options.
#[derive(Clone, Debug, PartialEq, Eq)]
pub struct Kafka {
    /// Name of the kafka cluster.
    pub cluster: String,
    /// Addresses used to locate the kafka services.
    pub target: KafkaTarget,
}

/// Kafka agent configuration.
#[derive(Clone, Debug, PartialEq, Eq)]
pub struct Config {
    /// API server options.
    pub api: APIConfig,
    /// Kafka related options.
    pub kafka: Kafka,
}

impl Config {
    /// The bind address the Kafka agent uses unless configured otherwise.
    pub fn override_defaults(defaults: &mut ApiDefaults)
        requires
            old(defaults).bind is None,
        ensures
            final(defaults).bind is Some,
            final(defaults).bind->Some_0@ == "127.0.0.1:10092"@,
    {
        APIConfig::set_default_bind(defaults, "127.0.0.1:10092".to_owned());
    }
}

} // verus!
