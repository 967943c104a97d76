use query_engine::ident::PostgresFlavour;
use query_engine::postgres_url::{ChannelBinding, PostgresUrl};
use url::Url;

const CONN_STR: &str = "postgresql://postgres@localhost:5432/postgres";

#[test]
fn should_parse_socket_url() {
    let url = PostgresUrl::new(Url::parse("postgresql:///dbname?host=/var/run/psql.sock").unwrap()).unwrap();
    assert_eq!("dbname", url.dbname());
    assert_eq!("/var/run/psql.sock", url.host());
}

#[test]
fn should_parse_escaped_url() {
    let url = PostgresUrl::new(Url::parse("postgresql:///dbname?host=%2Fvar%2Frun%2Fpostgresql").unwrap()).unwrap();
    assert_eq!("dbname", url.dbname());
    assert_eq!("/var/run/postgresql", url.host());
}

#[test]
fn should_allow_changing_of_cache_size() {
    let url =
        PostgresUrl::new(Url::parse("postgresql:///localhost:5432/foo?statement_cache_size=420").unwrap()).unwrap();
    assert_eq!(420, url.cache().capacity());
}

#[test]
fn should_have_default_cache_size() {
    let url = PostgresUrl::new(Url::parse("postgresql:///localhost:5432/foo").unwrap()).unwrap();
    assert_eq!(100, url.cache().capacity());
}

#[test]
fn should_have_application_name() {
    let url =
        PostgresUrl::new(Url::parse("postgresql:///localhost:5432/foo?application_name=test").unwrap()).unwrap();
    assert_eq!(Some("test"), url.application_name());
}

#[test]
fn should_have_channel_binding() {
    let url =
        PostgresUrl::new(Url::parse("postgresql:///localhost:5432/foo?channel_binding=require").unwrap()).unwrap();
    assert_eq!(ChannelBinding::Require, url.channel_binding());
}

#[test]
fn should_have_default_channel_binding() {
    let url =
        PostgresUrl::new(Url::parse("postgresql:///localhost:5432/foo?channel_binding=invalid").unwrap()).unwrap();
    assert_eq!(ChannelBinding::Prefer, url.channel_binding());

    let url = PostgresUrl::new(Url::parse("postgresql:///localhost:5432/foo").unwrap()).unwrap();
    assert_eq!(ChannelBinding::Prefer, url.channel_binding());
}

#[test]
fn should_not_enable_caching_with_pgbouncer() {
    let url = PostgresUrl::new(Url::parse("postgresql:///localhost:5432/foo?pgbouncer=true").unwrap()).unwrap();
    assert_eq!(0, url.cache().capacity());
}

#[test]
fn should_parse_default_host() {
    let url = PostgresUrl::new(Url::parse("postgresql:///dbname").unwrap()).unwrap();
    assert_eq!("dbname", url.dbname());
    assert_eq!("localhost", url.host());
}

#[test]
fn should_parse_ipv6_host() {
    let url = PostgresUrl::new(Url::parse("postgresql://[2001:db8:1234::ffff]:5432/dbname").unwrap()).unwrap();
    assert_eq!("2001:db8:1234::ffff", url.host());
}

#[test]
fn should_handle_options_field() {
    let url = PostgresUrl::new(Url::parse("postgresql:///localhost:5432?options=--cluster%3Dmy_cluster").unwrap())
        .unwrap();

    assert_eq!("--cluster=my_cluster", url.options().unwrap());
}

#[test]
fn search_path_pgbouncer_should_be_set_with_query() {
    let mut url = Url::parse(CONN_STR).unwrap();
    url.query_pairs_mut().append_pair("schema", "hello");
    url.query_pairs_mut().append_pair("pgbouncer", "true");

    let mut pg_url = PostgresUrl::new(url).unwrap();
    pg_url.set_flavour(PostgresFlavour::Postgres);

    let config = pg_url.to_config();

    // A multiplexer ignores the search-path startup parameter, so when it is
    // in play the search path must be set by a query after connecting.
    assert_eq!(config.get_search_path(), None);
}

#[test]
fn search_path_pg_should_be_set_with_param() {
    let mut url = Url::parse(CONN_STR).unwrap();
    url.query_pairs_mut().append_pair("schema", "hello");

    let mut pg_url = PostgresUrl::new(url).unwrap();
    pg_url.set_flavour(PostgresFlavour::Postgres);

    let config = pg_url.to_config();

    // PostgreSQL takes the search path as a connection parameter.
    assert_eq!(config.get_search_path(), Some(&"\"hello\"".to_owned()));
}

#[test]
fn search_path_crdb_safe_ident_should_be_set_with_param() {
    let mut url = Url::parse(CONN_STR).unwrap();
    url.query_pairs_mut().append_pair("schema", "hello");

    let mut pg_url = PostgresUrl::new(url).unwrap();
    pg_url.set_flavour(PostgresFlavour::Cockroach);

    let config = pg_url.to_config();

    // CockroachDB takes the search path as a connection parameter when the
    // identifier is safe unquoted.
    assert_eq!(config.get_search_path(), Some(&"hello".to_owned()));
}

#[test]
fn search_path_crdb_unsafe_ident_should_be_set_with_query() {
    let mut url = Url::parse(CONN_STR).unwrap();
    url.query_pairs_mut().append_pair("schema", "HeLLo");

    let mut pg_url = PostgresUrl::new(url).unwrap();
    pg_url.set_flavour(PostgresFlavour::Cockroach);

    let config = pg_url.to_config();

    // CockroachDB rejects a quoted search path in connection parameters, so
    // an unsafe identifier must be set by a query instead.
    assert_eq!(config.get_search_path(), None);
}

#[test]
fn timeouts_parse_and_convert_to_settings() {
    let url = PostgresUrl::new(
        Url::parse("postgresql:///dbname?socket_timeout=30&connect_timeout=10").unwrap(),
    )
    .unwrap();
    let settings = url.connection_settings();
    assert_eq!(settings.socket_timeout_ms, Some(30_000));
    assert_eq!(settings.connect_timeout_ms, Some(10_000));
    assert!(!settings.pg_bouncer);
    assert_eq!(settings.statement_cache_size, 100);

    // Absent socket timeout means unbounded; absent connect timeout gets the
    // conventional default.
    let url = PostgresUrl::new(Url::parse("postgresql:///dbname").unwrap()).unwrap();
    let settings = url.connection_settings();
    assert_eq!(settings.socket_timeout_ms, None);
    assert_eq!(settings.connect_timeout_ms, Some(5_000));
}

#[test]
fn last_occurrence_of_a_parameter_wins() {
    let url = PostgresUrl::new(
        Url::parse("postgresql:///dbname?schema=first&schema=second").unwrap(),
    )
    .unwrap();
    let mut pg_url = url;
    pg_url.set_flavour(PostgresFlavour::Cockroach);
    assert_eq!(pg_url.to_config().get_search_path(), Some(&"second".to_owned()));
}
