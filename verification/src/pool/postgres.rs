//! The connection manager for PostgreSQL.

use super::PrismaConnectionManager;
use crate::connector::{PostgresParams, DEFAULT_SCHEMA};
use crate::error::{DatabaseError, ErrorKind};
use native_tls::TlsConnector;
use r2d2_postgres::PostgresConnectionManager;
use tokio_postgres_native_tls::MakeTlsConnector;
use vstd::prelude::*;

verus! {

/// Whether certificates that do not validate are accepted. They are: managed
/// gateways in front of hosted databases present certificates of their own
/// issuing. This trades trust for reach, on purpose.
pub const ACCEPT_INVALID_CERTS: bool = true;

/// The driver's manager: it opens the raw sessions, over TLS where the
/// backend offers it.
pub type PostgresManager = PostgresConnectionManager<MakeTlsConnector>;

/// Whether a connector built from these settings is to accept certificates
/// that do not validate: the policy that the settings hold.
pub uninterp spec fn builder_accepts_invalid_certs(builder: native_tls::TlsConnectorBuilder) -> bool;

/// Whether the connector accepts certificates that do not validate: the
/// policy that it was built with.
pub uninterp spec fn connector_accepts_invalid_certs(connector: native_tls::TlsConnector) -> bool;

/// The policy of the connector that the driver's form of it keeps.
pub uninterp spec fn maker_accepts_invalid_certs(
    maker: tokio_postgres_native_tls::MakeTlsConnector,
) -> bool;

/// The policy of the connector that the driver's manager keeps: whether the
/// sessions it opens accept certificates that do not validate.
pub uninterp spec fn driver_accepts_invalid_certs(
    driver: r2d2_postgres::PostgresConnectionManager<tokio_postgres_native_tls::MakeTlsConnector>,
) -> bool;

/// The label under which opening a raw session is timed and counted.
pub const CONNECT_PROBE: &'static str = "pool.postgres";

/// The statement that probes a pooled connection: the empty statement, which
/// asks nothing of the backend but an answer.
pub const HEALTH_CHECK: &'static str = "";

/// How a piece of outside work ended: well, or with what the backend said.
pub type Outcome = Result<(), String>;

/// What an `Outcome` holds, as plain text.
pub open spec fn outcome_view(outcome: Outcome) -> Result<(), Seq<char>> {
    match outcome {
        Ok(_) => Ok(()),
        Err(cause) => Err(cause@),
    }
}

/// The outside work whose outcome is awaited while a connection is made.
#[derive(Debug, Clone, Copy, PartialEq, Eq, Structural)]
pub enum ConnectPhase {
    /// The raw session is being opened.
    Opening,
    /// The statement that selects the schema is running.
    Configuring,
}

/// What is to be done next while a connection is made.
#[derive(Debug, PartialEq, Eq)]
pub enum ConnectStep {
    /// Open a raw session, timed and counted under the label `probe`, and
    /// report how that ended as the outcome of `ConnectPhase::Opening`.
    Open { probe: String },
    /// Run `statement` on the session just opened, and report how that ended
    /// as the outcome of `ConnectPhase::Configuring`.
    Configure { statement: String },
    /// The session is configured: hand it out.
    Ready,
    /// Give the session up, if there is one, and report the error.
    Abort(DatabaseError),
}

/// What a `ConnectStep` holds, as plain text.
pub enum ConnectStepView {
    Open { probe: Seq<char> },
    Configure { statement: Seq<char> },
    Ready,
    Abort((ErrorKind, Seq<char>)),
}

impl View for ConnectStep {
    type V = ConnectStepView;

    open spec fn view(&self) -> ConnectStepView {
        match self {
            ConnectStep::Open { probe } => ConnectStepView::Open { probe: probe@ },
            ConnectStep::Configure { statement } => ConnectStepView::Configure {
                statement: statement@,
            },
            ConnectStep::Ready => ConnectStepView::Ready,
            ConnectStep::Abort(error) => ConnectStepView::Abort(error@),
        }
    }
}

/// What the pool needs to build itself: the manager, and how many connections
/// it may hold at most, which is at least one.
pub struct PoolSettings {
    pub manager: PrismaConnectionManager<PostgresManager>,
    pub max_size: u32,
}

/// A TLS connector of the `native_tls` crate.
#[verifier::external_type_specification]
#[verifier::external_body]
pub struct ExTlsConnector(native_tls::TlsConnector);

/// The TLS connector in the form the driver takes it.
#[verifier::external_type_specification]
#[verifier::external_body]
pub struct ExMakeTlsConnector(tokio_postgres_native_tls::MakeTlsConnector);

/// The driver's manager of raw sessions.
#[verifier::external_type_specification]
#[verifier::external_body]
#[verifier::reject_recursive_types(T)]
pub struct ExPostgresConnectionManager<T>(r2d2_postgres::PostgresConnectionManager<T>);

/// The settings from which a TLS connector is built.
#[verifier::external_type_specification]
#[verifier::external_body]
pub struct ExTlsConnectorBuilder(native_tls::TlsConnectorBuilder);

/// `native_tls::TlsConnector::builder` gives the settings of a connector that
/// validates certificates. Nothing is claimed of the result.
pub assume_specification[ native_tls::TlsConnector::builder ]() -> (builder:
    native_tls::TlsConnectorBuilder)
;

/// `native_tls::TlsConnectorBuilder::danger_accept_invalid_certs` writes the
/// flag into the settings, and nothing else: afterwards their policy is the
/// flag.
#[verifier::external_body]
fn accept_invalid_certs(builder: &mut native_tls::TlsConnectorBuilder, accept: bool)
    ensures
        builder_accepts_invalid_certs(*final(builder)) == accept,
{
    builder.danger_accept_invalid_certs(accept);
}

/// `native_tls::TlsConnectorBuilder::build` makes the connector, or gives the
/// error of the platform's TLS library; which of the two depends on the
/// platform. A connector that is made has the policy of the settings: every
/// backend copies it over.
///
/// On the OpenSSL backend it reads the certificate locations that
/// `SSL_CERT_FILE` and `SSL_CERT_DIR` name, and panics where one of them is
/// an existing path that is not UTF-8. No argument brings that about.
pub assume_specification[ native_tls::TlsConnectorBuilder::build ](
    builder: &native_tls::TlsConnectorBuilder,
) -> (built: Result<native_tls::TlsConnector, native_tls::Error>)
    ensures
        built matches Ok(connector) ==> connector_accepts_invalid_certs(connector)
            == builder_accepts_invalid_certs(*builder),
;

/// `tokio_postgres_native_tls::MakeTlsConnector::new` keeps the connector it
/// is given, and so its policy.
pub assume_specification[ tokio_postgres_native_tls::MakeTlsConnector::new ](
    connector: native_tls::TlsConnector,
) -> (made: tokio_postgres_native_tls::MakeTlsConnector)
    ensures
        maker_accepts_invalid_certs(made) == connector_accepts_invalid_certs(connector),
;

/// `r2d2_postgres::PostgresConnectionManager::new` keeps the settings and the
/// connector it is given, and opens nothing: the manager has the connector's
/// policy.
#[verifier::external_body]
fn driver_manager(config: postgres::Config, tls: MakeTlsConnector) -> (driver:
    PostgresConnectionManager<MakeTlsConnector>)
    ensures
        driver_accepts_invalid_certs(driver) == maker_accepts_invalid_certs(tls),
{
    PostgresConnectionManager::new(config, tls)
}

impl PrismaConnectionManager<PostgresManager> {
    /// The manager for the given settings and schema. Its sessions do not
    /// validate certificates (see `ACCEPT_INVALID_CERTS`). The only failure
    /// is that of building the TLS connector, which the platform decides.
    ///
    /// Nothing in the arguments makes this panic. The TLS library does where
    /// `SSL_CERT_FILE` or `SSL_CERT_DIR` names an existing path that is not
    /// UTF-8.
    pub fn postgres(opts: postgres::Config, schema: Option<String>) -> (built: Result<
        Self,
        DatabaseError,
    >)
        ensures
            built matches Ok(manager) ==> manager.schema == schema && manager.file_path is None
                && driver_accepts_invalid_certs(manager.inner) == ACCEPT_INVALID_CERTS,
            built matches Err(error) ==> error.kind == ErrorKind::TlsSetup,
    {
        let mut tls_builder = TlsConnector::builder();
        accept_invalid_certs(&mut tls_builder, ACCEPT_INVALID_CERTS);  // for managed gateways
        Self::with_connector(opts, tls_builder.build(), schema)
    }

    /// The manager for the given settings and schema, around the outcome of
    /// building a TLS connector: a manager exactly when a connector was
    /// built, with that connector's policy on certificates, and else that
    /// failure, normalized.
    pub fn with_connector(
        opts: postgres::Config,
        tls: Result<TlsConnector, native_tls::Error>,
        schema: Option<String>,
    ) -> (built: Result<Self, DatabaseError>)
        ensures
            built is Ok <==> tls is Ok,
            built matches Ok(manager) ==> manager.schema == schema && manager.file_path is None
                && driver_accepts_invalid_certs(manager.inner) == connector_accepts_invalid_certs(
                tls->Ok_0,
            ),
            built matches Err(error) ==> error.kind == ErrorKind::TlsSetup
                && vstd::string::to_string_from_display_ensures(&tls->Err_0, error.cause),
    {
        match tls {
            Ok(connector) => {
                let inner = driver_manager(opts, MakeTlsConnector::new(connector));
                Ok(PrismaConnectionManager { inner, file_path: None, schema })
            },
            Err(native) => Err(DatabaseError::from_tls(&native)),
        }
    }

    /// The manager for the backend that the parameters describe, with their
    /// schema. It fails and panics as `postgres` does.
    pub fn from_params(params: PostgresParams) -> (built: Result<Self, DatabaseError>)
        ensures
            built matches Ok(manager) ==> manager.schema == Some(params.schema)
                && manager.file_path is None && driver_accepts_invalid_certs(manager.inner)
                == ACCEPT_INVALID_CERTS,
            built matches Err(error) ==> error.kind == ErrorKind::TlsSetup,
    {
        Self::postgres(params.config, Some(params.schema))
    }

    /// The schema that sessions of this manager use: the configured one,
    /// or else the default.
    pub open spec fn active_schema(self) -> Seq<char> {
        match self.schema {
            Some(schema) => schema@,
            None => DEFAULT_SCHEMA@,
        }
    }

    /// The statement that points a session at the active schema.
    pub open spec fn setup_statement(self) -> Seq<char> {
        "SET search_path = \""@ + self.active_schema() + "\""@
    }

    /// What making a connection starts with: opening a raw session.
    pub open spec fn first_step() -> ConnectStepView {
        ConnectStepView::Open { probe: CONNECT_PROBE@ }
    }

    /// What follows the outcome of a phase. A session that was opened is
    /// configured; a session that was configured is ready; and any failure
    /// ends the attempt with its cause, under the kind of its phase.
    pub open spec fn step_after(
        self,
        phase: ConnectPhase,
        outcome: Result<(), Seq<char>>,
    ) -> ConnectStepView {
        match (phase, outcome) {
            (ConnectPhase::Opening, Ok(_)) => ConnectStepView::Configure {
                statement: self.setup_statement(),
            },
            (ConnectPhase::Opening, Err(cause)) => ConnectStepView::Abort(
                (ErrorKind::Connection, cause),
            ),
            (ConnectPhase::Configuring, Ok(_)) => ConnectStepView::Ready,
            (ConnectPhase::Configuring, Err(cause)) => ConnectStepView::Abort(
                (ErrorKind::SessionSetup, cause),
            ),
        }
    }

    /// The steps of one attempt to make a connection, given how opening the
    /// session ends and how configuring it would end.
    pub open spec fn steps(
        self,
        opened: Result<(), Seq<char>>,
        configured: Result<(), Seq<char>>,
    ) -> Seq<ConnectStepView> {
        let second = self.step_after(ConnectPhase::Opening, opened);
        if second is Configure {
            seq![Self::first_step(), second, self.step_after(ConnectPhase::Configuring, configured)]
        } else {
            seq![Self::first_step(), second]
        }
    }

    /// An attempt to make a connection runs in one order and no other. It
    /// starts by opening a raw session under the probe `pool.postgres`. A
    /// connection is ready exactly when the session was opened and then
    /// configured, and by then the statement that selects the active schema
    /// has run once, after the opening and nothing else between. A failure
    /// ends the attempt at once with its cause, and no connection is ready.
    pub proof fn lemma_connect_steps(
        self,
        opened: Result<(), Seq<char>>,
        configured: Result<(), Seq<char>>,
    )
        ensures
            ({
                let steps = self.steps(opened, configured);
                let open = ConnectStepView::Open { probe: "pool.postgres"@ };
                let configure = ConnectStepView::Configure { statement: self.setup_statement() };
                &&& steps.last() is Ready <==> opened is Ok && configured is Ok
                &&& opened is Ok && configured is Ok ==> steps == seq![
                    open,
                    configure,
                    ConnectStepView::Ready,
                ]
                &&& opened is Ok && configured is Err ==> steps == seq![
                    open,
                    configure,
                    ConnectStepView::Abort((ErrorKind::SessionSetup, configured->Err_0)),
                ]
                &&& opened is Err ==> steps == seq![
                    open,
                    ConnectStepView::Abort((ErrorKind::Connection, opened->Err_0)),
                ]
            }),
    {
    }

    /// A manager without a schema points every session at `public`; one with
    /// a schema points every session at that schema.
    pub proof fn lemma_session_schema(self)
        ensures
            self.schema is None ==> self.active_schema() == "public"@ && self.setup_statement()
                == "SET search_path = \"public\""@,
            self.schema matches Some(schema) ==> self.active_schema() == schema@
                && self.setup_statement() == "SET search_path = \""@ + schema@ + "\""@,
    {
        reveal_strlit("public");
        reveal_strlit("SET search_path = \"");
        reveal_strlit("\"");
        reveal_strlit("SET search_path = \"public\"");
        if self.schema is None {
            assert(self.setup_statement() =~= "SET search_path = \"public\""@);
        }
    }

    /// The schema that sessions of this manager use.
    pub fn schema_name(&self) -> (name: &str)
        ensures
            name@ == self.active_schema(),
    {
        match &self.schema {
            Some(schema) => schema.as_str(),
            None => DEFAULT_SCHEMA,
        }
    }

    /// The statement that every new session runs before it is handed out.
    pub fn session_setup(&self) -> (statement: String)
        ensures
            statement@ == self.setup_statement(),
    {
        let mut statement = String::from_str("SET search_path = \"");
        statement.append(self.schema_name());
        statement.append("\"");
        statement
    }

    /// Begins making a connection: says what to do first.
    pub fn connect(&self) -> (step: ConnectStep)
        ensures
            step@ == Self::first_step(),
    {
        ConnectStep::Open { probe: String::from_str(CONNECT_PROBE) }
    }

    /// Goes on making a connection: given how the work of a phase ended, says
    /// what to do next. Nothing is retried.
    pub fn connect_next(&self, phase: ConnectPhase, outcome: Outcome) -> (step: ConnectStep)
        ensures
            step@ == self.step_after(phase, outcome_view(outcome)),
    {
        match outcome {
            Ok(_) => match phase {
                ConnectPhase::Opening => ConnectStep::Configure { statement: self.session_setup() },
                ConnectPhase::Configuring => ConnectStep::Ready,
            },
            Err(cause) => match phase {
                ConnectPhase::Opening => ConnectStep::Abort(
                    DatabaseError::new(ErrorKind::Connection, cause),
                ),
                ConnectPhase::Configuring => ConnectStep::Abort(
                    DatabaseError::new(ErrorKind::SessionSetup, cause),
                ),
            },
        }
    }

    /// Whether a pooled connection is still usable, given how running
    /// `HEALTH_CHECK` on it ended: it is exactly when the backend answered.
    pub fn is_valid(&self, probe: Outcome) -> (valid: Result<(), DatabaseError>)
        ensures
            valid is Ok <==> probe is Ok,
            valid matches Err(error) ==> error@ == (ErrorKind::HealthCheck, probe->Err_0@),
    {
        match probe {
            Ok(_) => Ok(()),
            Err(cause) => Err(DatabaseError::new(ErrorKind::HealthCheck, cause)),
        }
    }

    /// Whether a connection is known to be broken without asking the backend.
    /// There is no such knowledge, so the answer is always no, whatever the
    /// connection: one that still works is never discarded, and one that does
    /// not is found by `is_valid` or by its next query. The connection is
    /// left as it is.
    pub fn has_broken<C>(&self, conn: &mut C) -> (broken: bool)
        ensures
            !broken,
            *final(conn) == *old(conn),
    {
        false
    }
}

impl PoolSettings {
    /// What a pool for the backend that the parameters describe is built
    /// from: its manager, and the connection limit as the most connections
    /// it may hold. A pool holds at least one connection: a limit of 0 is
    /// refused before anything is built. Else it fails and panics as
    /// `PrismaConnectionManager::postgres` does.
    pub fn try_from(params: PostgresParams) -> (settings: Result<PoolSettings, DatabaseError>)
        ensures
            params.connection_limit == 0 ==> (settings matches Err(error) && error@ == (
                ErrorKind::InvalidConnectionArguments,
                Seq::<char>::empty(),
            )),
            settings matches Ok(pool) ==> pool.max_size == params.connection_limit
                && pool.manager.schema == Some(params.schema) && pool.manager.file_path is None
                && driver_accepts_invalid_certs(pool.manager.inner) == ACCEPT_INVALID_CERTS,
            settings matches Err(error) ==> params.connection_limit == 0 || error.kind
                == ErrorKind::TlsSetup,
    {
        let max_size: u32 = params.connection_limit;
        if max_size == 0 {
            return Err(DatabaseError::invalid_connection_arguments());
        }
        match PrismaConnectionManager::from_params(params) {
            Ok(manager) => Ok(PoolSettings { manager, max_size }),
            Err(error) => Err(error),
        }
    }
}

} // verus!
