use vstd::prelude::*;

verus! {

// The table name is always written as a quoted identifier, so that names
// with a hyphen are accepted by the engine.

/// Creates the session table unless it exists: a text key, a binary
/// payload and an expiry in Unix seconds.
pub open spec fn migrate_sql(t: Seq<char>) -> Seq<char> {
    "create table if not exists \""@ + t
        + "\" (id text primary key not null, data blob not null, expiry_date integer not null)"@
}

/// Tells whether a row with the bound id exists, expired or not.
pub open spec fn exists_sql(t: Seq<char>) -> Seq<char> {
    "select exists(select 1 from \""@ + t + "\" where id = ?)"@
}

/// Inserts a row, or overwrites the payload and expiry of the row with the
/// same id.
pub open spec fn upsert_sql(t: Seq<char>) -> Seq<char> {
    "insert into \""@ + t + "\" (id, data, expiry_date) values (?, ?, ?) on conflict(id) do update set data = excluded.data, expiry_date = excluded.expiry_date"@
}

/// Reads the payload and expiry of the row with the bound id.
pub open spec fn load_sql(t: Seq<char>) -> Seq<char> {
    "select data, expiry_date from \""@ + t + "\" where id = ?"@
}

/// Removes the row with the bound id, if any.
pub open spec fn delete_sql(t: Seq<char>) -> Seq<char> {
    "delete from \""@ + t + "\" where id = ?"@
}

/// Removes every row whose expiry lies before the engine's current time.
pub open spec fn delete_expired_sql(t: Seq<char>) -> Seq<char> {
    "delete from \""@ + t + "\" where expiry_date < unixepoch('now')"@
}

fn around(head: &str, t: &str, tail: &str) -> (r: String)
    ensures
        r@ == head@ + t@ + tail@,
{
    let mut s = String::from_str(head);
    s.append(t);
    s.append(tail);
    s
}

pub fn migrate_statement(t: &str) -> (r: String)
    ensures
        r@ == migrate_sql(t@),
{
    around(
        "create table if not exists \"",
        t,
        "\" (id text primary key not null, data blob not null, expiry_date integer not null)",
    )
}

pub fn exists_statement(t: &str) -> (r: String)
    ensures
        r@ == exists_sql(t@),
{
    around("select exists(select 1 from \"", t, "\" where id = ?)")
}

pub fn upsert_statement(t: &str) -> (r: String)
    ensures
        r@ == upsert_sql(t@),
{
    around(
        "insert into \"",
        t,
        "\" (id, data, expiry_date) values (?, ?, ?) on conflict(id) do update set data = excluded.data, expiry_date = excluded.expiry_date",
    )
}

pub fn load_statement(t: &str) -> (r: String)
    ensures
        r@ == load_sql(t@),
{
    around("select data, expiry_date from \"", t, "\" where id = ?")
}

pub fn delete_statement(t: &str) -> (r: String)
    ensures
        r@ == delete_sql(t@),
{
    around("delete from \"", t, "\" where id = ?")
}

pub fn delete_expired_statement(t: &str) -> (r: String)
    ensures
        r@ == delete_expired_sql(t@),
{
    around("delete from \"", t, "\" where expiry_date < unixepoch('now')")
}

} // verus!
