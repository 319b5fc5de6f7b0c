use vstd::prelude::*;

use crate::error::LibsqlStoreError;
use crate::sql::{
    delete_expired_sql, delete_expired_statement, delete_sql, delete_statement, exists_sql,
    exists_statement, load_sql, load_statement, migrate_sql, migrate_statement, upsert_sql,
    upsert_statement,
};
use crate::table_name::{is_valid_table_name, valid_table_name};

verus! {

#[verifier::external_type_specification]
#[verifier::external_body]
pub struct ExConnection(libsql::Connection);

/// Relies on libsql::Connection's derived `Clone`: another handle on the
/// same shared connection.
pub assume_specification[ <libsql::Connection as Clone>::clone ](c: &libsql::Connection) -> libsql::Connection;

/// The name of the session table unless another is chosen.
pub open spec fn default_table_name() -> Seq<char> {
    "tower_sessions"@
}

/// The configuration error for a rejected table name.
pub open spec fn invalid_table_name_message(name: Seq<char>) -> Seq<char> {
    "Invalid table name '"@ + name
        + "'. Table names must be alphanumeric and may contain hyphens or underscores."@
}

/// A libSQL session store: a shared connection and the name of the table
/// that holds the sessions.
pub struct LibsqlStore {
    connection: libsql::Connection,
    table_name: String,
}

impl Clone for LibsqlStore {
    fn clone(&self) -> (r: Self)
        ensures
            r.table() == self.table(),
    {
        LibsqlStore { connection: self.connection.clone(), table_name: self.table_name.clone() }
    }
}

impl LibsqlStore {
    /// The name of the session table.
    pub closed spec fn table(&self) -> Seq<char> {
        self.table_name@
    }

    /// The connection that statements run on.
    pub closed spec fn conn(&self) -> libsql::Connection {
        self.connection
    }

    /// A store on `client` that uses the default table name.
    pub fn new(client: libsql::Connection) -> (r: Self)
        ensures
            r.table() == default_table_name(),
            r.conn() == client,
    {
        LibsqlStore { connection: client, table_name: String::from_str("tower_sessions") }
    }

    /// The same store on a table named `table_name`, or the configuration
    /// error when the name is empty or holds other characters than ASCII
    /// letters, digits, `-` and `_`.
    pub fn with_table_name(self, table_name: &str) -> (r: Result<Self, String>)
        ensures
            r is Ok <==> valid_table_name(table_name@),
            r matches Ok(s) ==> s.table() == table_name@ && s.conn() == self.conn(),
            r matches Err(m) ==> m@ == invalid_table_name_message(table_name@),
    {
        if !is_valid_table_name(table_name) {
            let mut m = String::from_str("Invalid table name '");
            m.append(table_name);
            m.append(
                "'. Table names must be alphanumeric and may contain hyphens or underscores.",
            );
            return Err(m);
        }
        Ok(LibsqlStore { connection: self.connection, table_name: String::from_str(table_name) })
    }

    /// The name of the session table.
    pub fn table_name(&self) -> (r: &str)
        ensures
            r@ == self.table(),
    {
        self.table_name.as_str()
    }

    /// The connection that statements run on.
    pub fn connection(&self) -> (r: &libsql::Connection)
        ensures
            *r == self.conn(),
    {
        &self.connection
    }

    /// The statement that provisions the session table; running it again
    /// changes nothing.
    pub fn migrate_query(&self) -> (r: String)
        ensures
            r@ == migrate_sql(self.table()),
    {
        migrate_statement(self.table_name.as_str())
    }

    /// The statement that tells whether an id is taken.
    pub fn id_exists_query(&self) -> (r: String)
        ensures
            r@ == exists_sql(self.table()),
    {
        exists_statement(self.table_name.as_str())
    }

    /// The statement that inserts or overwrites a session row.
    pub fn save_query(&self) -> (r: String)
        ensures
            r@ == upsert_sql(self.table()),
    {
        upsert_statement(self.table_name.as_str())
    }

    /// The statement that reads a session row.
    pub fn load_query(&self) -> (r: String)
        ensures
            r@ == load_sql(self.table()),
    {
        load_statement(self.table_name.as_str())
    }

    /// The statement that removes a session row.
    pub fn delete_query(&self) -> (r: String)
        ensures
            r@ == delete_sql(self.table()),
    {
        delete_statement(self.table_name.as_str())
    }

    /// The statement that sweeps out the expired rows.
    pub fn delete_expired_query(&self) -> (r: String)
        ensures
            r@ == delete_expired_sql(self.table()),
    {
        delete_expired_statement(self.table_name.as_str())
    }
}

} // verus!
