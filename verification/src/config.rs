use vstd::prelude::*;

verus! {

pub const WEBSOCKET_URL_KEY: &'static str = "PYTHAGORAS_WEBSOCKET_URL";

pub const MONGODB_URL_KEY: &'static str = "PYTHAGORAS_MONGODB_URL";

pub const REDIS_URL_KEY: &'static str = "PYTHAGORAS_REDIS_URL";

pub const DEFAULT_WEBSOCKET_URL: &'static str = "wss://wspap.okex.com:8443/ws/v5/public?brokerId=9999";

pub const DEFAULT_MONGODB_URL: &'static str = "mongodb://localhost:27017/";

pub const DEFAULT_REDIS_URL: &'static str = "redis://localhost:6379/";

/// The three endpoints that the pipeline connects to.
#[derive(Debug, PartialEq, Eq)]
pub struct Config {
    pub websocket_url: String,
    pub mongodb_url: String,
    pub redis_url: String,
}

/// The value that a setting takes: the one found, or else the default.
pub open spec fn resolve(found: Option<Seq<char>>, default: Seq<char>) -> Seq<char> {
    match found {
        Some(value) => value,
        None => default,
    }
}

/// The value of the first variable of `variables` named `key`.
pub open spec fn first_value(variables: Seq<(String, String)>, key: Seq<char>) -> Option<
    Seq<char>,
>
    decreases variables.len(),
{
    if variables.len() == 0 {
        None
    } else if variables[0].0@ == key {
        Some(variables[0].1@)
    } else {
        first_value(variables.subrange(1, variables.len() as int), key)
    }
}

/// A source of settings, so that the configuration can be built from the
/// process environment or from anything that stands for it.
pub trait QueryEnvironment {
    /// What the source holds under `key`, if anything. A source states here
    /// what it holds; one that states nothing holds nothing.
    open spec fn lookup(&self, key: Seq<char>) -> Option<Seq<char>> {
        None
    }

    /// The value under `key`, or `default` where there is none.
    fn get_or_default(&self, key: &str, default: &str) -> (value: String)
        ensures
            value@ == resolve(self.lookup(key@), default@),
    ;
}

/// The variables of the process, as they were when it started.
pub struct Environment {
    pub variables: Vec<(String, String)>,
}

impl QueryEnvironment for Environment {
    open spec fn lookup(&self, key: Seq<char>) -> Option<Seq<char>> {
        first_value(self.variables@, key)
    }

    fn get_or_default(&self, key: &str, default: &str) -> (value: String) {
        let wanted = String::from_str(key);
        let count: usize = self.variables.len();
        let mut next: usize = 0;
        assert(self.variables@.subrange(0, count as int) =~= self.variables@);
        while next < count
            invariant
                next <= count,
                count == self.variables@.len(),
                wanted@ == key@,
                first_value(self.variables@, key@) == first_value(
                    self.variables@.subrange(next as int, count as int),
                    key@,
                ),
            decreases count - next,
        {
            let ghost rest = self.variables@.subrange(next as int, count as int);
            assert(rest[0] == self.variables@[next as int]);
            assert(rest.subrange(1, rest.len() as int) =~= self.variables@.subrange(
                next as int + 1,
                count as int,
            ));
            if self.variables[next].0 == wanted {
                return self.variables[next].1.clone();
            }
            next = next + 1;
        }
        String::from_str(default)
    }
}

impl Config {
    /// Reads the three endpoints from `environment`, each under its own key and
    /// with its own default.
    pub fn new<E: QueryEnvironment>(environment: Box<E>) -> (config: Config)
        ensures
            config.websocket_url@ == resolve(
                environment.lookup(WEBSOCKET_URL_KEY@),
                DEFAULT_WEBSOCKET_URL@,
            ),
            config.mongodb_url@ == resolve(
                environment.lookup(MONGODB_URL_KEY@),
                DEFAULT_MONGODB_URL@,
            ),
            config.redis_url@ == resolve(environment.lookup(REDIS_URL_KEY@), DEFAULT_REDIS_URL@),
    {
        let websocket_url = environment.get_or_default(WEBSOCKET_URL_KEY, DEFAULT_WEBSOCKET_URL);
        let mongodb_url = environment.get_or_default(MONGODB_URL_KEY, DEFAULT_MONGODB_URL);
        let redis_url = environment.get_or_default(REDIS_URL_KEY, DEFAULT_REDIS_URL);
        Config { websocket_url, mongodb_url, redis_url }
    }

    /// The configuration that the process variables `variables` give: a name
    /// and a value each. Where a name occurs twice the first one counts.
    pub fn from_env(variables: Vec<(String, String)>) -> (config: Config)
        ensures
            config.websocket_url@ == resolve(
                first_value(variables@, WEBSOCKET_URL_KEY@),
                DEFAULT_WEBSOCKET_URL@,
            ),
            config.mongodb_url@ == resolve(
                first_value(variables@, MONGODB_URL_KEY@),
                DEFAULT_MONGODB_URL@,
            ),
            config.redis_url@ == resolve(
                first_value(variables@, REDIS_URL_KEY@),
                DEFAULT_REDIS_URL@,
            ),
    {
        let environment = Box::new(Environment { variables });
        Config::new(environment)
    }
}

} // verus!
