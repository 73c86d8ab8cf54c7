//! The shared Redis client of the service, and the settings of the cache of
//! provider extensions kept in it.
use std::sync::Arc;
use vstd::prelude::*;
use crate::decimal::{parse_i64, parse_i64_spec};

verus! {

/// The Redis client type of the `redis` crate, carried through opaquely.
#[verifier::external_type_specification]
#[verifier::external_body]
pub struct ExRedisClient(redis::Client);

/// Shared handle on the Redis client of the service.
#[derive(Clone, Debug)]
pub struct AppRedis {
    client: Arc<redis::Client>,
}

/// Whether `redis` accepts a text that starts with `redis://` as the URL of a
/// server: it reads such a URL into a host, port, database and credentials,
/// from the text alone.
pub uninterp spec fn redis_tcp_url_accepted(url: Seq<char>) -> bool;

/// The client that `redis` builds from a text that starts with `redis://`:
/// it holds the connection settings read from the text, and nothing else.
pub uninterp spec fn redis_client_for(url: Seq<char>) -> redis::Client;

/// The text starts with the `redis://` scheme.
pub open spec fn is_redis_tcp_url(url: Seq<char>) -> bool {
    url.len() >= 8 && url.subrange(0, 8) == "redis://"@
}

/// `redis::Client::open` on a URL text: it reads the URL into connection
/// settings and connects to nothing. A text without `:` has no URL scheme,
/// so `url::Url::parse` refuses it and no client comes back. For a
/// `redis://` URL the outcome and the client depend on the text alone, and are named; for
/// other schemes it depends on the platform too (Unix sockets) and is left
/// unsaid. The client itself is opaque.
#[verifier::external_body]
fn open_redis_client(url: &str) -> (r: Option<redis::Client>)
    ensures
        !url@.contains(':') ==> r is None,
        is_redis_tcp_url(url@) ==> (r is Some <==> redis_tcp_url_accepted(url@)),
        is_redis_tcp_url(url@) ==> (r matches Some(c) ==> c == redis_client_for(url@)),
{
    redis::Client::open(url).ok()
}

impl AppRedis {
    /// Opens a client for the server at `redis_url`; `None` when `redis`
    /// does not accept the URL, as for any text without a URL scheme. A
    /// `redis://` URL gives a client exactly when `redis` accepts it, and
    /// then the client for that URL.
    pub fn new(redis_url: &str) -> (r: Option<AppRedis>)
        ensures
            !redis_url@.contains(':') ==> r is None,
            is_redis_tcp_url(redis_url@) ==> (r is Some <==> redis_tcp_url_accepted(redis_url@)),
            is_redis_tcp_url(redis_url@) ==> (r matches Some(a) ==> a.spec_client() == redis_client_for(
                redis_url@,
            )),
    {
        match open_redis_client(redis_url) {
            Some(client) => Some(AppRedis::from_client(client)),
            None => None,
        }
    }

    /// Wraps an already opened client.
    pub fn from_client(client: redis::Client) -> (r: AppRedis)
        ensures
            r.spec_client() == client,
    {
        AppRedis { client: Arc::new(client) }
    }

    /// The client that this handle shares.
    pub closed spec fn spec_client(&self) -> redis::Client {
        *self.client
    }

    pub fn get_client(&self) -> (c: &redis::Client)
        ensures
            *c == self.spec_client(),
    {
        &*self.client
    }
}

/// The client of the registered handle. A handle must be registered: there
/// is no client before.
pub fn get_redis_client(registered: Option<&AppRedis>) -> (r: &redis::Client)
    requires
        registered is Some,
    ensures
        *r == registered->0.spec_client(),
{
    registered.unwrap().get_client()
}

/// The cache key under which the provider's extensions of an eSIM are kept.
pub fn extension_cache_key(v_iccid: &str) -> (key: String)
    ensures
        key@ == "extension-"@ + v_iccid@,
{
    let mut key = "extension-".to_owned();
    key.append(v_iccid);
    key
}

/// How long, in seconds, cached balances live: the setting read as an `i64`,
/// 60 when there is no setting. `None` when the setting is not an integer.
pub fn balance_cache_seconds(setting: Option<&str>) -> (r: Option<i64>)
    ensures
        r == parse_i64_spec(
            match setting {
                Some(s) => s@,
                None => "60"@,
            },
        ),
{
    match setting {
        Some(s) => parse_i64(s),
        None => parse_i64("60"),
    }
}

} // verus!
