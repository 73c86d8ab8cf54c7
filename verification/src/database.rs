//! The shared database connection of the service.
use std::sync::Arc;
use vstd::prelude::*;

verus! {

/// The connection type of `sea_orm`, carried through opaquely.
#[verifier::external_type_specification]
#[verifier::external_body]
pub struct ExDatabaseConnection(sea_orm::DatabaseConnection);

/// Shared handle on the database connection.
#[derive(Clone, Debug)]
pub struct AppDatabase {
    db: Arc<sea_orm::DatabaseConnection>,
}

impl AppDatabase {
    /// The connection that this handle shares.
    pub closed spec fn spec_db(&self) -> sea_orm::DatabaseConnection {
        *self.db
    }

    /// Wraps an opened connection.
    pub fn from_connection(db: sea_orm::DatabaseConnection) -> (r: AppDatabase)
        ensures
            r.spec_db() == db,
    {
        AppDatabase { db: Arc::new(db) }
    }

    pub fn get_db(&self) -> (db: &sea_orm::DatabaseConnection)
        ensures
            *db == self.spec_db(),
    {
        &*self.db
    }
}

/// The connection of the registered handle. A handle must be registered:
/// there is no connection before.
pub fn get_db_connection(registered: Option<&AppDatabase>) -> (r: &sea_orm::DatabaseConnection)
    requires
        registered is Some,
    ensures
        *r == registered->0.spec_db(),
{
    registered.unwrap().get_db()
}

} // verus!
