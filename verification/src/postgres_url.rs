//! The PostgreSQL connection-URL configuration.
//!
//! The URL itself is parsed by the `url` crate; this module interprets the
//! parsed pieces: the query parameters that configure the connection, the
//! host and database-name fallbacks, and where the schema search path may be
//! supplied. When one parameter is given twice, the last occurrence wins.

use vstd::prelude::*;
use crate::cache::StatementCache;
use crate::connection::ConnectionSettings;
use crate::error::ErrorKind;
use crate::isolation::Dialect;
use crate::ident::{search_path_param, safe_identifier_spec, PostgresFlavour};
use crate::strutil::{all_dec_digits, dec_value, parse_usize, str_eq};

verus! {

broadcast use vstd::string::group_string_axioms;

#[verifier::external_type_specification]
#[verifier::external_body]
pub struct ExUrl(url::Url);

/// The pieces of a parsed URL that the configuration reads, as plain values.
#[derive(Debug)]
pub struct UrlParts {
    /// The URL's host text, if it has a host.
    pub host_str: Option<String>,
    /// True when the host is a domain name rather than an IP address.
    pub host_is_domain: bool,
    /// The URL's path.
    pub path: String,
    /// The decoded query pairs, in order.
    pub pairs: Vec<(String, String)>,
}

/// Relies on url::Url::host_str: the URL's host text, when it has one.
#[verifier::external_body]
fn url_host_str(u: &url::Url) -> Option<String> {
    u.host_str().map(|h| h.to_string())
}

/// Relies on url::Url::domain: whether the host is a domain name rather than
/// an IP address.
#[verifier::external_body]
fn url_host_is_domain(u: &url::Url) -> bool {
    u.domain().is_some()
}

/// Relies on url::Url::path: the URL's path text.
#[verifier::external_body]
fn url_path(u: &url::Url) -> String {
    u.path().to_string()
}

/// Relies on url::Url::query_pairs: the URL's percent-decoded query pairs in
/// order.
#[verifier::external_body]
fn url_query_pairs(u: &url::Url) -> Vec<(String, String)> {
    u.query_pairs().map(|(k, v)| (k.into_owned(), v.into_owned())).collect()
}

/// How the client authenticates the channel it talks over.
#[derive(Debug, Clone, Copy, PartialEq, Eq, Structural)]
pub enum ChannelBinding {
    /// Never use channel binding.
    Disable,
    /// Use it when the server supports it.
    Prefer,
    /// Demand it.
    Require,
}

/// The value of the last query pair with the given key, if any.
pub open spec fn last_param(pairs: Seq<(String, String)>, key: Seq<char>) -> Option<Seq<char>>
    decreases pairs.len(),
{
    if pairs.len() == 0 {
        None
    } else if pairs.last().0@ == key {
        Some(pairs.last().1@)
    } else {
        last_param(pairs.drop_last(), key)
    }
}

/// The number a parameter denotes, or the default when it is absent, not a
/// number, or out of range.
pub open spec fn numeric_param(v: Option<Seq<char>>, default: nat) -> nat {
    match v {
        None => default,
        Some(t) => if t.len() > 0 && all_dec_digits(t) && dec_value(t) <= usize::MAX as nat {
            dec_value(t)
        } else {
            default
        },
    }
}

/// The seconds a timeout parameter denotes: absent or unparsable means the
/// given fallback.
pub open spec fn timeout_param(v: Option<Seq<char>>, fallback: Option<nat>) -> Option<nat> {
    match v {
        None => fallback,
        Some(t) => if t.len() > 0 && all_dec_digits(t) && dec_value(t) <= usize::MAX as nat {
            Some(dec_value(t))
        } else {
            None
        },
    }
}

/// The channel binding a parameter denotes; anything unrecognized falls back
/// to the default.
pub open spec fn channel_binding_param(v: Option<Seq<char>>) -> ChannelBinding {
    match v {
        None => ChannelBinding::Prefer,
        Some(t) => if t == "require"@ {
            ChannelBinding::Require
        } else if t == "disable"@ {
            ChannelBinding::Disable
        } else {
            ChannelBinding::Prefer
        },
    }
}

/// The configuration carried by a URL's query parameters.
#[derive(Debug)]
pub struct PostgresUrlQueryParams {
    /// An explicit host, overriding the URL's own host part.
    pub host: Option<String>,
    /// The schema to put on the search path.
    pub schema: Option<String>,
    /// The application name announced to the server.
    pub application_name: Option<String>,
    /// Extra command-line options passed to the server.
    pub options: Option<String>,
    /// The channel binding demanded of the TLS layer.
    pub channel_binding: ChannelBinding,
    /// The statement-cache bound.
    pub statement_cache_size: usize,
    /// True when the connection runs through a multiplexer that may swap
    /// backend sockets.
    pub pg_bouncer: bool,
    /// The per-call socket deadline, in seconds; absent means unbounded.
    pub socket_timeout_secs: Option<usize>,
    /// The connect deadline, in seconds; absent means unbounded.
    pub connect_timeout_secs: Option<usize>,
}

/// A PostgreSQL connection URL, interpreted.
#[derive(Debug)]
pub struct PostgresUrl {
    /// The configuration from the query parameters.
    pub query_params: PostgresUrlQueryParams,
    /// The URL's own host text.
    pub host_str: Option<String>,
    /// True when the URL's host is a domain name.
    pub host_is_domain: bool,
    /// The URL's path.
    pub path: String,
    /// The server family the URL points at.
    pub flavour: PostgresFlavour,
}

/// An optional machine word holds exactly a spec-level optional number.
pub open spec fn opt_secs_matches(o: Option<usize>, v: Option<nat>) -> bool {
    match v {
        None => o is None,
        Some(secs) => o matches Some(x) && x as nat == secs,
    }
}

/// An option holds exactly the text of a spec-level option.
pub open spec fn opt_text_matches(o: Option<String>, v: Option<Seq<char>>) -> bool {
    match v {
        None => o is None,
        Some(t) => o matches Some(s) && s@ == t,
    }
}

/// `seg` is the first path segment: the text between the leading slash and
/// the next slash or the path's end.
pub open spec fn is_first_path_segment(path: Seq<char>, seg: Seq<char>) -> bool {
    exists|e: int|
        {
            &&& 1 <= e <= path.len()
            &&& seg == #[trigger] path.subrange(1, e)
            &&& (e == path.len() || path[e] == '/')
            &&& (forall|k: int| 1 <= k < e ==> path[k] != '/')
        }
}

/// The host text with one pair of surrounding square brackets removed, as an
/// IP-literal host carries them.
pub open spec fn stripped_brackets(s: Seq<char>) -> Seq<char> {
    if s.len() >= 2 && s[0] == '[' && s[s.len() - 1] == ']' {
        s.subrange(1, s.len() - 1)
    } else {
        s
    }
}

/// Removes one pair of surrounding square brackets, if present.
fn strip_ipv6_brackets(h: &str) -> (r: String)
    ensures
        r@ == stripped_brackets(h@),
{
    let n = h.unicode_len();
    if n >= 2 && h.get_char(0) == '[' && h.get_char(n - 1) == ']' {
        h.substring_char(1, n - 1).to_owned()
    } else {
        h.to_owned()
    }
}

/// The first path segment, when the path starts with a slash.
fn first_path_segment(path: &str) -> (r: Option<String>)
    ensures
        match r {
            Some(seg) => path@.len() > 0 && path@[0] == '/' && is_first_path_segment(path@, seg@),
            None => path@.len() == 0 || path@[0] != '/',
        },
{
    let n = path.unicode_len();
    if n == 0 {
        return None;
    }
    if path.get_char(0) != '/' {
        return None;
    }
    let mut e: usize = 1;
    while e < n && path.get_char(e) != '/'
        invariant
            1 <= e <= n,
            n == path@.len(),
            path@[0] == '/',
            forall|k: int| 1 <= k < e ==> path@[k] != '/',
        decreases n - e,
    {
        e += 1;
    }
    let seg = path.substring_char(1, e).to_owned();
    proof {
        assert(1 <= e as int <= path@.len() && seg@ == path@.subrange(1, e as int) && (e as int
            == path@.len() || path@[e as int] == '/') && (forall|k: int|
            1 <= k < e as int ==> path@[k] != '/'));
    }
    Some(seg)
}

/// Seconds as milliseconds, saturating at the largest representable deadline.
fn secs_to_millis(secs: usize) -> (r: u64)
    ensures
        r == secs as u64 * 1000 || r == u64::MAX,
{
    let wide = secs as u64;
    if wide > u64::MAX / 1000 {
        u64::MAX
    } else {
        wide * 1000
    }
}

impl PostgresUrl {
    /// Interprets a parsed URL. The URL's own text never makes this fail.
    pub fn new(url: url::Url) -> (r: Result<PostgresUrl, ErrorKind>)
        ensures
            r is Ok,
    {
        let parts = UrlParts {
            host_str: url_host_str(&url),
            host_is_domain: url_host_is_domain(&url),
            path: url_path(&url),
            pairs: url_query_pairs(&url),
        };
        Ok(Self::from_parts(parts))
    }

    /// Interprets the pieces of a parsed URL: each recognized query parameter
    /// configures its field, the last occurrence winning, and everything else
    /// keeps its default.
    #[verifier::rlimit(60)]
    pub fn from_parts(parts: UrlParts) -> (r: PostgresUrl)
        ensures
            opt_text_matches(r.query_params.host, last_param(parts.pairs@, "host"@)),
            opt_text_matches(r.query_params.schema, last_param(parts.pairs@, "schema"@)),
            opt_text_matches(
                r.query_params.application_name,
                last_param(parts.pairs@, "application_name"@),
            ),
            opt_text_matches(r.query_params.options, last_param(parts.pairs@, "options"@)),
            r.query_params.pg_bouncer == (last_param(parts.pairs@, "pgbouncer"@) == Some(
                "true"@,
            )),
            r.query_params.statement_cache_size as nat == numeric_param(
                last_param(parts.pairs@, "statement_cache_size"@),
                100,
            ),
            r.query_params.channel_binding == channel_binding_param(
                last_param(parts.pairs@, "channel_binding"@),
            ),
            opt_secs_matches(
                r.query_params.socket_timeout_secs,
                timeout_param(last_param(parts.pairs@, "socket_timeout"@), None),
            ),
            opt_secs_matches(
                r.query_params.connect_timeout_secs,
                timeout_param(last_param(parts.pairs@, "connect_timeout"@), Some(5)),
            ),
            r.host_str == parts.host_str,
            r.host_is_domain == parts.host_is_domain,
            r.path == parts.path,
            r.flavour is Unknown,
    {
        let UrlParts { host_str, host_is_domain, path, pairs } = parts;
        let mut host: Option<String> = None;
        let mut schema: Option<String> = None;
        let mut application_name: Option<String> = None;
        let mut options: Option<String> = None;
        let mut channel_binding = ChannelBinding::Prefer;
        let mut statement_cache_size: usize = 100;
        let mut pg_bouncer = false;
        let mut socket_timeout_secs: Option<usize> = None;
        let mut connect_timeout_secs: Option<usize> = Some(5);
        let n = pairs.len();
        let mut i: usize = 0;
        while i < n
            invariant
                i <= n,
                n == pairs@.len(),
                opt_text_matches(host, last_param(pairs@.subrange(0, i as int), "host"@)),
                opt_text_matches(schema, last_param(pairs@.subrange(0, i as int), "schema"@)),
                opt_text_matches(
                    application_name,
                    last_param(pairs@.subrange(0, i as int), "application_name"@),
                ),
                opt_text_matches(options, last_param(pairs@.subrange(0, i as int), "options"@)),
                pg_bouncer == (last_param(pairs@.subrange(0, i as int), "pgbouncer"@) == Some(
                    "true"@,
                )),
                statement_cache_size as nat == numeric_param(
                    last_param(pairs@.subrange(0, i as int), "statement_cache_size"@),
                    100,
                ),
                channel_binding == channel_binding_param(
                    last_param(pairs@.subrange(0, i as int), "channel_binding"@),
                ),
                opt_secs_matches(
                    socket_timeout_secs,
                    timeout_param(
                        last_param(pairs@.subrange(0, i as int), "socket_timeout"@),
                        None,
                    ),
                ),
                opt_secs_matches(
                    connect_timeout_secs,
                    timeout_param(
                        last_param(pairs@.subrange(0, i as int), "connect_timeout"@),
                        Some(5),
                    ),
                ),
            decreases n - i,
        {
            proof {
                reveal_strlit("host");
                reveal_strlit("schema");
                reveal_strlit("application_name");
                reveal_strlit("options");
                reveal_strlit("pgbouncer");
                reveal_strlit("statement_cache_size");
                reveal_strlit("channel_binding");
                reveal_strlit("socket_timeout");
                reveal_strlit("connect_timeout");
                assert("socket_timeout"@.len() == 14);
                assert("connect_timeout"@.len() == 15);
                assert("connect_timeout"@[0] == 'c' && "channel_binding"@[0] == 'c');
                assert("connect_timeout"@[1] == 'o' && "channel_binding"@[1] == 'h');
                assert("host"@.len() == 4);
                assert("schema"@.len() == 6);
                assert("options"@.len() == 7);
                assert("pgbouncer"@.len() == 9);
                assert("channel_binding"@.len() == 15);
                assert("application_name"@.len() == 16);
                assert("statement_cache_size"@.len() == 20);
            }
            let pair = &pairs[i];
            let key = &pair.0;
            let value = &pair.1;
            if str_eq(key.as_str(), "host") {
                host = Some(value.clone());
            } else if str_eq(key.as_str(), "schema") {
                schema = Some(value.clone());
            } else if str_eq(key.as_str(), "application_name") {
                application_name = Some(value.clone());
            } else if str_eq(key.as_str(), "options") {
                options = Some(value.clone());
            } else if str_eq(key.as_str(), "pgbouncer") {
                pg_bouncer = str_eq(value.as_str(), "true");
            } else if str_eq(key.as_str(), "statement_cache_size") {
                statement_cache_size = match parse_usize(value.as_str()) {
                    Some(size) => size,
                    None => 100,
                };
            } else if str_eq(key.as_str(), "channel_binding") {
                channel_binding = if str_eq(value.as_str(), "require") {
                    ChannelBinding::Require
                } else if str_eq(value.as_str(), "disable") {
                    ChannelBinding::Disable
                } else {
                    ChannelBinding::Prefer
                };
            } else if str_eq(key.as_str(), "socket_timeout") {
                socket_timeout_secs = parse_usize(value.as_str());
            } else if str_eq(key.as_str(), "connect_timeout") {
                connect_timeout_secs = parse_usize(value.as_str());
            }
            i += 1;
            proof {
                assert(pairs@.subrange(0, i as int).drop_last() =~= pairs@.subrange(
                    0,
                    i as int - 1,
                ));
                assert(pairs@.subrange(0, i as int).last() == pairs@[i - 1]);
            }
        }
        proof {
            assert(pairs@.subrange(0, n as int) =~= pairs@);
        }
        PostgresUrl {
            query_params: PostgresUrlQueryParams {
                host,
                schema,
                application_name,
                options,
                channel_binding,
                statement_cache_size,
                pg_bouncer,
                socket_timeout_secs,
                connect_timeout_secs,
            },
            host_str,
            host_is_domain,
            path,
            flavour: PostgresFlavour::Unknown,
        }
    }

    /// The database name: the URL path's first segment, or the server's
    /// conventional default database when the path has none.
    pub fn dbname(&self) -> (r: String)
        ensures
            self.path@.len() > 0 && self.path@[0] == '/' ==> is_first_path_segment(
                self.path@,
                r@,
            ),
            self.path@.len() == 0 || self.path@[0] != '/' ==> r@ == "postgres"@,
    {
        match first_path_segment(self.path.as_str()) {
            Some(seg) => seg,
            None => "postgres".to_owned(),
        }
    }

    /// The host to connect to: an explicit `host` parameter wins, then the
    /// URL's own host with IP-literal brackets removed, then localhost.
    pub fn host(&self) -> (r: String)
        ensures
            match self.query_params.host {
                Some(h) => r@ == h@,
                None => match self.host_str {
                    None => r@ == "localhost"@,
                    Some(hs) => if hs@.len() == 0 {
                        r@ == "localhost"@
                    } else if self.host_is_domain {
                        r@ == hs@
                    } else {
                        r@ == stripped_brackets(hs@)
                    },
                },
            },
    {
        match &self.query_params.host {
            Some(host) => host.clone(),
            None => {
                match &self.host_str {
                    None => "localhost".to_owned(),
                    Some(host_str) => {
                        if host_str.unicode_len() == 0 {
                            "localhost".to_owned()
                        } else if self.host_is_domain {
                            host_str.clone()
                        } else {
                            strip_ipv6_brackets(host_str.as_str())
                        }
                    }
                }
            }
        }
    }

    /// The application name announced to the server, if configured.
    pub fn application_name(&self) -> (r: Option<&str>)
        ensures
            match self.query_params.application_name {
                Some(name) => r matches Some(s) && s@ == name@,
                None => r is None,
            },
    {
        match &self.query_params.application_name {
            Some(name) => Some(name.as_str()),
            None => None,
        }
    }

    /// Extra server command-line options, if configured.
    pub fn options(&self) -> (r: Option<&str>)
        ensures
            match self.query_params.options {
                Some(options) => r matches Some(s) && s@ == options@,
                None => r is None,
            },
    {
        match &self.query_params.options {
            Some(options) => Some(options.as_str()),
            None => None,
        }
    }

    /// The channel binding demanded of the TLS layer.
    pub fn channel_binding(&self) -> (r: ChannelBinding)
        ensures
            r == self.query_params.channel_binding,
    {
        self.query_params.channel_binding
    }

    /// The statement cache this connection starts with: bounded as
    /// configured, and disabled entirely behind a multiplexer.
    pub fn cache(&self) -> (r: StatementCache)
        ensures
            r.wf(),
            self.query_params.pg_bouncer ==> r.capacity_spec() == 0,
            !self.query_params.pg_bouncer ==> r.capacity_spec()
                == self.query_params.statement_cache_size as nat,
    {
        if self.query_params.pg_bouncer {
            StatementCache::new(0)
        } else {
            StatementCache::new(self.query_params.statement_cache_size)
        }
    }

    /// The connection configuration this URL describes, with deadlines in
    /// milliseconds, saturating at the largest representable deadline.
    pub fn connection_settings(&self) -> (r: ConnectionSettings)
        ensures
            r.dialect is Postgres,
            r.url_isolation is None,
            r.pg_bouncer == self.query_params.pg_bouncer,
            r.statement_cache_size == self.query_params.statement_cache_size,
            match self.query_params.socket_timeout_secs {
                None => r.socket_timeout_ms is None,
                Some(secs) => r.socket_timeout_ms matches Some(ms) && (ms == secs as u64 * 1000
                    || ms == u64::MAX),
            },
            match self.query_params.connect_timeout_secs {
                None => r.connect_timeout_ms is None,
                Some(secs) => r.connect_timeout_ms matches Some(ms) && (ms == secs as u64 * 1000
                    || ms == u64::MAX),
            },
    {
        ConnectionSettings {
            dialect: Dialect::Postgres,
            url_isolation: None,
            pg_bouncer: self.query_params.pg_bouncer,
            statement_cache_size: self.query_params.statement_cache_size,
            socket_timeout_ms: match self.query_params.socket_timeout_secs {
                Some(secs) => Some(secs_to_millis(secs)),
                None => None,
            },
            connect_timeout_ms: match self.query_params.connect_timeout_secs {
                Some(secs) => Some(secs_to_millis(secs)),
                None => None,
            },
        }
    }

    /// Pins the server family the URL points at.
    pub fn set_flavour(&mut self, flavour: PostgresFlavour)
        ensures
            final(self).flavour == flavour,
            final(self).query_params == old(self).query_params,
            final(self).host_str == old(self).host_str,
            final(self).host_is_domain == old(self).host_is_domain,
            final(self).path == old(self).path,
    {
        self.flavour = flavour;
    }

    /// The client-parameter part of the driver configuration: the search
    /// path rides on a connection parameter exactly where the server family
    /// accepts it there.
    pub fn to_config(&self) -> (r: PgConfig)
        ensures
            match self.query_params.schema {
                None => r.search_path is None,
                Some(schema) => {
                    &&& self.query_params.pg_bouncer ==> r.search_path is None
                    &&& (!self.query_params.pg_bouncer && self.flavour is Postgres ==> (
                    r.search_path matches Some(p) && p@ == "\""@ + schema@ + "\""@))
                    &&& (!self.query_params.pg_bouncer && self.flavour is Cockroach
                        && safe_identifier_spec(schema@) ==> (r.search_path matches Some(p) && p@
                        == schema@))
                    &&& (!self.query_params.pg_bouncer && self.flavour is Cockroach
                        && !safe_identifier_spec(schema@) ==> r.search_path is None)
                    &&& (!self.query_params.pg_bouncer && self.flavour is Unknown
                        ==> r.search_path is None)
                },
            },
    {
        match &self.query_params.schema {
            None => PgConfig { search_path: None },
            Some(schema) => {
                PgConfig {
                    search_path: search_path_param(
                        self.flavour,
                        self.query_params.pg_bouncer,
                        schema.as_str(),
                    ),
                }
            }
        }
    }
}

/// The driver configuration assembled from a URL.
#[derive(Debug)]
pub struct PgConfig {
    /// The search path sent as a client connection parameter, when the
    /// server family accepts it there.
    pub search_path: Option<String>,
}

impl PgConfig {
    /// The search path sent as a client connection parameter, if any.
    pub fn get_search_path(&self) -> (r: Option<&String>)
        ensures
            match self.search_path {
                Some(p) => r matches Some(s) && *s == p,
                None => r is None,
            },
    {
        self.search_path.as_ref()
    }
}

} // verus!
