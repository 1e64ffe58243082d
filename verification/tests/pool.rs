use prisma_query::connector::PostgresParams;
use prisma_query::error::{DatabaseError, ErrorKind};
use prisma_query::pool::postgres::{
    ConnectPhase, ConnectStep, PoolSettings, PostgresManager, ACCEPT_INVALID_CERTS, CONNECT_PROBE,
    HEALTH_CHECK,
};
use prisma_query::pool::PrismaConnectionManager;

fn manager(schema: Option<&str>) -> PrismaConnectionManager<PostgresManager> {
    match PrismaConnectionManager::postgres(postgres::Config::new(), schema.map(String::from)) {
        Ok(manager) => manager,
        Err(error) => panic!("no TLS connector: {:?}", error),
    }
}

fn params(items: &[(&str, &str)]) -> PostgresParams {
    let query: Vec<(String, String)> =
        items.iter().map(|(k, v)| (k.to_string(), v.to_string())).collect();
    PostgresParams::new(postgres::Config::new(), &query).unwrap()
}

fn a_tls_error() -> native_tls::Error {
    native_tls::Certificate::from_pem(b"no certificate at all").err().unwrap()
}

#[test]
fn certificates_are_not_validated() {
    assert!(ACCEPT_INVALID_CERTS);
}

#[test]
fn a_manager_is_built_wherever_a_connector_can_be() {
    let connector = native_tls::TlsConnector::builder().danger_accept_invalid_certs(true).build();
    let built = PrismaConnectionManager::postgres(postgres::Config::new(), None);
    assert_eq!(built.is_ok(), connector.is_ok());
}

#[test]
fn a_manager_keeps_the_schema_it_was_given() {
    assert_eq!(manager(Some("musti-test")).schema, Some(String::from("musti-test")));
    assert_eq!(manager(None).schema, None);
}

#[test]
fn a_postgres_manager_has_no_file() {
    assert_eq!(manager(Some("musti-test")).file_path, None);
    assert_eq!(manager(None).file_path, None);
}

#[test]
fn a_manager_is_built_around_a_connector() {
    let connector = native_tls::TlsConnector::builder().build();
    assert!(connector.is_ok());
    let built = PrismaConnectionManager::with_connector(
        postgres::Config::new(),
        connector,
        Some(String::from("s")),
    );
    let manager = built.ok().unwrap();
    assert_eq!(manager.schema, Some(String::from("s")));
    assert_eq!(manager.file_path, None);
    assert_eq!(manager.session_setup(), "SET search_path = \"s\"");
}

#[test]
fn a_failed_connector_becomes_a_tls_setup_error() {
    let said = a_tls_error().to_string();
    let built = PrismaConnectionManager::with_connector(
        postgres::Config::new(),
        Err(a_tls_error()),
        None,
    );
    assert_eq!(built.err(), Some(DatabaseError { kind: ErrorKind::TlsSetup, cause: said }));
}

#[test]
fn a_tls_error_is_normalized_with_what_it_says() {
    let native = a_tls_error();
    let error = DatabaseError::from_tls(&native);
    assert_eq!(error.kind, ErrorKind::TlsSetup);
    assert_eq!(error.cause, native.to_string());
    assert!(!error.cause.is_empty());
}

#[test]
fn errors_are_made_as_they_are_described() {
    let error = DatabaseError::new(ErrorKind::HealthCheck, String::from("gone"));
    assert_eq!(error, DatabaseError { kind: ErrorKind::HealthCheck, cause: String::from("gone") });
    assert_eq!(error.clone(), error);
    let refusal = DatabaseError::invalid_connection_arguments();
    assert_eq!(refusal.kind, ErrorKind::InvalidConnectionArguments);
    assert_eq!(refusal.cause, "");
}

#[test]
fn a_manager_from_parameters_uses_their_schema() {
    let built = PrismaConnectionManager::from_params(params(&[("schema", "musti-test")]));
    assert_eq!(built.ok().unwrap().schema, Some(String::from("musti-test")));
    let built = PrismaConnectionManager::from_params(params(&[]));
    assert_eq!(built.ok().unwrap().schema, Some(String::from("public")));
}

#[test]
fn without_a_schema_the_session_uses_public() {
    assert_eq!(manager(None).schema_name(), "public");
    assert_eq!(manager(None).session_setup(), "SET search_path = \"public\"");
}

#[test]
fn with_a_schema_the_session_uses_it() {
    assert_eq!(manager(Some("musti-test")).schema_name(), "musti-test");
    assert_eq!(manager(Some("musti-test")).session_setup(), "SET search_path = \"musti-test\"");
}

#[test]
fn an_empty_schema_is_a_schema() {
    assert_eq!(manager(Some("")).schema_name(), "");
    assert_eq!(manager(Some("")).session_setup(), "SET search_path = \"\"");
}

#[test]
fn connecting_starts_by_opening_a_session() {
    assert_eq!(CONNECT_PROBE, "pool.postgres");
    assert_eq!(manager(None).connect(), ConnectStep::Open { probe: String::from("pool.postgres") });
    assert_eq!(
        manager(Some("musti-test")).connect(),
        ConnectStep::Open { probe: String::from("pool.postgres") }
    );
}

#[test]
fn an_opened_session_is_pointed_at_the_schema() {
    assert_eq!(
        manager(Some("musti-test")).connect_next(ConnectPhase::Opening, Ok(())),
        ConnectStep::Configure { statement: String::from("SET search_path = \"musti-test\"") }
    );
    assert_eq!(
        manager(None).connect_next(ConnectPhase::Opening, Ok(())),
        ConnectStep::Configure { statement: String::from("SET search_path = \"public\"") }
    );
}

#[test]
fn a_configured_session_is_ready() {
    assert_eq!(manager(None).connect_next(ConnectPhase::Configuring, Ok(())), ConnectStep::Ready);
}

#[test]
fn a_session_that_does_not_open_is_a_connection_error() {
    let step = manager(None).connect_next(ConnectPhase::Opening, Err(String::from("refused")));
    assert_eq!(
        step,
        ConnectStep::Abort(DatabaseError {
            kind: ErrorKind::Connection,
            cause: String::from("refused")
        })
    );
}

#[test]
fn a_schema_that_cannot_be_selected_is_a_session_setup_error() {
    let step = manager(Some("nowhere"))
        .connect_next(ConnectPhase::Configuring, Err(String::from("no schema")));
    assert_eq!(
        step,
        ConnectStep::Abort(DatabaseError {
            kind: ErrorKind::SessionSetup,
            cause: String::from("no schema")
        })
    );
}

#[test]
fn a_whole_attempt_runs_open_configure_ready() {
    let manager = manager(Some("musti-test"));
    let mut steps = vec![manager.connect()];
    steps.push(manager.connect_next(ConnectPhase::Opening, Ok(())));
    steps.push(manager.connect_next(ConnectPhase::Configuring, Ok(())));
    assert_eq!(
        steps,
        vec![
            ConnectStep::Open { probe: String::from("pool.postgres") },
            ConnectStep::Configure { statement: String::from("SET search_path = \"musti-test\"") },
            ConnectStep::Ready,
        ]
    );
}

#[test]
fn the_health_check_is_the_empty_statement() {
    assert_eq!(HEALTH_CHECK, "");
}

#[test]
fn a_connection_that_answers_is_valid() {
    assert_eq!(manager(None).is_valid(Ok(())), Ok(()));
}

#[test]
fn a_connection_that_does_not_answer_is_not_valid() {
    assert_eq!(
        manager(None).is_valid(Err(String::from("connection closed"))),
        Err(DatabaseError { kind: ErrorKind::HealthCheck, cause: String::from("connection closed") })
    );
    assert_eq!(
        manager(None).is_valid(Err(String::new())),
        Err(DatabaseError { kind: ErrorKind::HealthCheck, cause: String::new() })
    );
}

#[test]
fn no_connection_is_reported_broken() {
    let manager = manager(None);
    let mut live = String::from("a live session");
    assert!(!manager.has_broken(&mut live));
    assert_eq!(live, "a live session");
    let mut closed: Option<u8> = None;
    assert!(!manager.has_broken(&mut closed));
    assert_eq!(closed, None);
}

#[test]
fn a_valid_connection_is_never_reported_broken() {
    let manager = manager(None);
    let mut conn = 7u32;
    assert_eq!(manager.is_valid(Ok(())), Ok(()));
    assert!(!manager.has_broken(&mut conn));
    assert_eq!(conn, 7);
}

#[test]
fn the_pool_holds_two_connections_by_default() {
    let settings = PoolSettings::try_from(params(&[])).ok().unwrap();
    assert_eq!(settings.max_size, 2);
}

#[test]
fn the_pool_holds_as_many_connections_as_the_limit_says() {
    let settings = PoolSettings::try_from(params(&[("connection_limit", "10")])).ok().unwrap();
    assert_eq!(settings.max_size, 10);
}

#[test]
fn the_pool_manager_uses_the_schema_of_the_parameters() {
    let settings = PoolSettings::try_from(params(&[("schema", "musti-test")])).ok().unwrap();
    assert_eq!(settings.manager.schema, Some(String::from("musti-test")));
    assert_eq!(settings.manager.session_setup(), "SET search_path = \"musti-test\"");
    assert_eq!(settings.manager.file_path, None);
}

#[test]
fn a_pool_without_connections_is_refused() {
    let refused = PoolSettings::try_from(params(&[("connection_limit", "0")]));
    assert_eq!(
        refused.err(),
        Some(DatabaseError { kind: ErrorKind::InvalidConnectionArguments, cause: String::new() })
    );
    let refused = PoolSettings::try_from(params(&[("connection_limit", "+000")]));
    assert_eq!(refused.err().map(|error| error.kind), Some(ErrorKind::InvalidConnectionArguments));
}

#[test]
fn a_pool_of_one_connection_is_built() {
    let settings = PoolSettings::try_from(params(&[("connection_limit", "1")])).ok().unwrap();
    assert_eq!(settings.max_size, 1);
    let settings =
        PoolSettings::try_from(params(&[("connection_limit", "4294967295")])).ok().unwrap();
    assert_eq!(settings.max_size, 4294967295);
}

#[test]
fn a_manager_is_built_for_a_limit_of_zero() {
    let built = PrismaConnectionManager::from_params(params(&[("connection_limit", "0")]));
    assert!(built.is_ok());
}
