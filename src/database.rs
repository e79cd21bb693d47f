//! Failures of the relational metadata store, one variant per stage.
use vstd::prelude::*;
use vstd::std_specs::convert::FromSpec;

verus! {

/// The relational layer's failure to establish a session.
#[verifier::external_type_specification]
#[verifier::external_body]
pub struct ExConnectionError(diesel::ConnectionError);

/// The relational layer's failure while discovering or validating migrations.
#[verifier::external_type_specification]
#[verifier::external_body]
pub struct ExMigrationError(diesel::migration::MigrationError);

/// The relational layer's failure while applying a migration step.
#[verifier::external_type_specification]
#[verifier::external_body]
pub struct ExRunMigrationsError(diesel::migration::RunMigrationsError);

/// The relational layer's failure while executing a statement.
#[verifier::external_type_specification]
#[verifier::external_body]
pub struct ExQueryError(diesel::result::Error);

/// A failure of the relational store, holding the store's own error as its cause.
#[derive(Debug)]
pub enum DieselError {
    /// A session could not be established.
    SqlConnection(diesel::ConnectionError),
    /// Migration discovery or validation failed.
    SqlMigration(diesel::migration::MigrationError),
    /// A migration step failed while being applied.
    SqlRunMigration(diesel::migration::RunMigrationsError),
    /// A statement failed at run time.
    SqlExecute(diesel::result::Error),
}

impl DieselError {
    /// The connection error this failure wraps, if it is a connection failure.
    pub open spec fn connection_cause_spec(&self) -> Option<&diesel::ConnectionError> {
        match self {
            DieselError::SqlConnection(e) => Some(e),
            _ => None,
        }
    }

    /// The migration-setup error this failure wraps, if it is one.
    pub open spec fn migration_cause_spec(&self) -> Option<&diesel::migration::MigrationError> {
        match self {
            DieselError::SqlMigration(e) => Some(e),
            _ => None,
        }
    }

    /// The migration-run error this failure wraps, if it is one.
    pub open spec fn run_migration_cause_spec(&self) -> Option<
        &diesel::migration::RunMigrationsError,
    > {
        match self {
            DieselError::SqlRunMigration(e) => Some(e),
            _ => None,
        }
    }

    /// The statement error this failure wraps, if it is one.
    pub open spec fn execute_cause_spec(&self) -> Option<&diesel::result::Error> {
        match self {
            DieselError::SqlExecute(e) => Some(e),
            _ => None,
        }
    }

    /// The connection error this failure wraps, if it is a connection failure.
    pub fn connection_cause(&self) -> (r: Option<&diesel::ConnectionError>)
        ensures
            r == self.connection_cause_spec(),
    {
        match self {
            DieselError::SqlConnection(e) => Some(e),
            _ => None,
        }
    }
    /// The migration-setup error this failure wraps, if it is one.
    pub fn migration_cause(&self) -> (r: Option<&diesel::migration::MigrationError>)
        ensures
            r == self.migration_cause_spec(),
    {
        match self {
            DieselError::SqlMigration(e) => Some(e),
            _ => None,
        }
    }

    /// The migration-run error this failure wraps, if it is one.
    pub fn run_migration_cause(&self) -> (r: Option<&diesel::migration::RunMigrationsError>)
        ensures
            r == self.run_migration_cause_spec(),
    {
        match self {
            DieselError::SqlRunMigration(e) => Some(e),
            _ => None,
        }
    }

    /// The statement error this failure wraps, if it is one.
    pub fn execute_cause(&self) -> (r: Option<&diesel::result::Error>)
        ensures
            r == self.execute_cause_spec(),
    {
        match self {
            DieselError::SqlExecute(e) => Some(e),
            _ => None,
        }
    }
}

impl From<diesel::ConnectionError> for DieselError {
    fn from(e: diesel::ConnectionError) -> (r: DieselError) {
        DieselError::SqlConnection(e)
    }
}

impl vstd::std_specs::convert::FromSpecImpl<diesel::ConnectionError> for DieselError {
    open spec fn obeys_from_spec() -> bool {
        true
    }

    open spec fn from_spec(e: diesel::ConnectionError) -> DieselError {
        DieselError::SqlConnection(e)
    }
}

impl From<diesel::migration::MigrationError> for DieselError {
    fn from(e: diesel::migration::MigrationError) -> (r: DieselError) {
        DieselError::SqlMigration(e)
    }
}

impl vstd::std_specs::convert::FromSpecImpl<diesel::migration::MigrationError> for DieselError {
    open spec fn obeys_from_spec() -> bool {
        true
    }

    open spec fn from_spec(e: diesel::migration::MigrationError) -> DieselError {
        DieselError::SqlMigration(e)
    }
}

impl From<diesel::migration::RunMigrationsError> for DieselError {
    fn from(e: diesel::migration::RunMigrationsError) -> (r: DieselError) {
        DieselError::SqlRunMigration(e)
    }
}

impl vstd::std_specs::convert::FromSpecImpl<diesel::migration::RunMigrationsError> for DieselError {
    open spec fn obeys_from_spec() -> bool {
        true
    }

    open spec fn from_spec(e: diesel::migration::RunMigrationsError) -> DieselError {
        DieselError::SqlRunMigration(e)
    }
}

impl From<diesel::result::Error> for DieselError {
    fn from(e: diesel::result::Error) -> (r: DieselError) {
        DieselError::SqlExecute(e)
    }
}

impl vstd::std_specs::convert::FromSpecImpl<diesel::result::Error> for DieselError {
    open spec fn obeys_from_spec() -> bool {
        true
    }

    open spec fn from_spec(e: diesel::result::Error) -> DieselError {
        DieselError::SqlExecute(e)
    }
}

/// Each error of the relational layer converts into exactly one stage, and the
/// original error is what that stage's accessor gives back.
pub proof fn lemma_database_cause_round_trip(
    c: diesel::ConnectionError,
    m: diesel::migration::MigrationError,
    run: diesel::migration::RunMigrationsError,
    q: diesel::result::Error,
)
    ensures
        <DieselError as FromSpec<diesel::ConnectionError>>::from_spec(c).connection_cause_spec()
            == Some(&c),
        <DieselError as FromSpec<diesel::migration::MigrationError>>::from_spec(
            m,
        ).migration_cause_spec() == Some(&m),
        <DieselError as FromSpec<diesel::migration::RunMigrationsError>>::from_spec(
            run,
        ).run_migration_cause_spec() == Some(&run),
        <DieselError as FromSpec<diesel::result::Error>>::from_spec(q).execute_cause_spec() == Some(
            &q,
        ),
{
}

} // verus!
