//! The statements that the store sends to the database, and their wording.

use vstd::prelude::*;
use crate::store::PostgresStore;

verus! {

/// One statement, with the values bound to its parameters in their order.
#[derive(Debug, Clone, PartialEq, Eq)]
pub enum Statement {
    /// Make the schema unless it is there.
    CreateSchema,
    /// Make the table unless it is there.
    CreateTable,
    /// Ask whether a row is kept under `id`. One row with one boolean comes
    /// back.
    IdExists { id: String },
    /// Write the row of `id`, over the one that is there if there is one.
    Upsert { id: String, data: Vec<u8>, expiry: i128 },
    /// Read the data kept under `id`, unless the row has expired by `now`.
    /// At most one row with one byte string comes back.
    Select { id: String, now: i128 },
    /// Remove the row of `id`, if there is one.
    Delete { id: String },
    /// Remove every row that has expired by the database's own clock.
    DeleteExpired,
}

/// The view of a [`Statement`]. Instants are nanoseconds since the Unix
/// epoch.
pub enum StatementView {
    CreateSchema,
    CreateTable,
    IdExists { id: Seq<char> },
    Upsert { id: Seq<char>, data: Seq<u8>, expiry: i128 },
    Select { id: Seq<char>, now: i128 },
    Delete { id: Seq<char> },
    DeleteExpired,
}

impl View for Statement {
    type V = StatementView;

    open spec fn view(&self) -> StatementView {
        match self {
            Statement::CreateSchema => StatementView::CreateSchema,
            Statement::CreateTable => StatementView::CreateTable,
            Statement::IdExists { id } => StatementView::IdExists { id: id@ },
            Statement::Upsert { id, data, expiry } => StatementView::Upsert {
                id: id@,
                data: data@,
                expiry: *expiry,
            },
            Statement::Select { id, now } => StatementView::Select { id: id@, now: *now },
            Statement::Delete { id } => StatementView::Delete { id: id@ },
            Statement::DeleteExpired => StatementView::DeleteExpired,
        }
    }
}

/// The statement that makes the schema unless it is there, up to the
/// schema's name.
pub const CREATE_SCHEMA_HEAD: &'static str = "create schema if not exists ";

/// The statement that makes the table unless it is there, up to the table's
/// name.
pub const CREATE_TABLE_HEAD: &'static str = "create table if not exists ";

/// The statement that makes the table unless it is there, from the table's
/// name on.
pub const CREATE_TABLE_TAIL: &'static str =
    " (id text primary key not null, data bytea not null, expiry_date timestamptz not null)";

/// The statement that asks whether a row has the identifier `$1`, up to the
/// table's name.
pub const ID_EXISTS_HEAD: &'static str = "select exists(select 1 from ";

/// The statement that asks whether a row has the identifier `$1`, from the
/// table's name on.
pub const ID_EXISTS_TAIL: &'static str = " where id = $1)";

/// The statement that writes the row of the identifier `$1`, up to the
/// table's name.
pub const UPSERT_HEAD: &'static str = "insert into ";

/// The statement that writes the row of the identifier `$1`, from the
/// table's name on.
pub const UPSERT_TAIL: &'static str =
    " (id, data, expiry_date) values ($1, $2, $3) on conflict (id) do update set data = excluded.data, expiry_date = excluded.expiry_date";

/// The statement that reads the data of the row of `$1` unless the row has
/// expired by `$2`, up to the table's name.
pub const SELECT_HEAD: &'static str = "select data from ";

/// The statement that reads the data of the row of `$1` unless the row has
/// expired by `$2`, from the table's name on.
pub const SELECT_TAIL: &'static str = " where id = $1 and expiry_date > $2";

/// The statement that removes the row of the identifier `$1`, up to the
/// table's name.
pub const DELETE_HEAD: &'static str = "delete from ";

/// The statement that removes the row of the identifier `$1`, from the
/// table's name on.
pub const DELETE_TAIL: &'static str = " where id = $1";

/// The statement that removes the rows that have expired by the database's
/// clock, up to the table's name.
pub const DELETE_EXPIRED_HEAD: &'static str = "delete from ";

/// The statement that removes the rows that have expired by the database's
/// clock, from the table's name on.
pub const DELETE_EXPIRED_TAIL: &'static str = " where expiry_date < now()";

/// A name between double quotes.
pub open spec fn quoted(name: Seq<char>) -> Seq<char> {
    "\""@ + name + "\""@
}

/// The table's name behind its schema's, each between double quotes.
pub open spec fn qualified(schema: Seq<char>, table: Seq<char>) -> Seq<char> {
    quoted(schema) + "."@ + quoted(table)
}

impl StatementView {
    /// The words of the statement for a table `table` in a schema `schema`.
    /// Values never stand in the text: they are bound to `$1`, `$2`, `$3`.
    pub open spec fn sql(self, schema: Seq<char>, table: Seq<char>) -> Seq<char> {
        match self {
            StatementView::CreateSchema => CREATE_SCHEMA_HEAD@ + quoted(schema),
            StatementView::CreateTable => CREATE_TABLE_HEAD@ + qualified(schema, table)
                + CREATE_TABLE_TAIL@,
            StatementView::IdExists { .. } => ID_EXISTS_HEAD@ + qualified(schema, table)
                + ID_EXISTS_TAIL@,
            StatementView::Upsert { .. } => UPSERT_HEAD@ + qualified(schema, table) + UPSERT_TAIL@,
            StatementView::Select { .. } => SELECT_HEAD@ + qualified(schema, table) + SELECT_TAIL@,
            StatementView::Delete { .. } => DELETE_HEAD@ + qualified(schema, table) + DELETE_TAIL@,
            StatementView::DeleteExpired => DELETE_EXPIRED_HEAD@ + qualified(schema, table)
                + DELETE_EXPIRED_TAIL@,
        }
    }
}

/// Appends `name` between double quotes.
fn push_quoted(text: &mut String, name: &str)
    ensures
        final(text)@ == old(text)@ + quoted(name@),
{
    text.append("\"");
    text.append(name);
    text.append("\"");
    assert(text@ =~= old(text)@ + quoted(name@));
}

/// `head`, the qualified name of the table of `store`, then `tail`.
fn around_table(head: &str, store: &PostgresStore, tail: &str) -> (text: String)
    ensures
        text@ == head@ + qualified(store.schema(), store.table()) + tail@,
{
    let mut text = String::from_str(head);
    push_quoted(&mut text, store.schema_name());
    text.append(".");
    push_quoted(&mut text, store.table_name());
    text.append(tail);
    assert(text@ =~= head@ + qualified(store.schema(), store.table()) + tail@);
    text
}

impl Statement {
    /// Words the statement for the table of `store`.
    pub fn sql(&self, store: &PostgresStore) -> (text: String)
        ensures
            text@ == self@.sql(store.schema(), store.table()),
    {
        match self {
            Statement::CreateSchema => {
                let mut text = String::from_str(CREATE_SCHEMA_HEAD);
                push_quoted(&mut text, store.schema_name());
                text
            },
            Statement::CreateTable => around_table(CREATE_TABLE_HEAD, store, CREATE_TABLE_TAIL),
            Statement::IdExists { .. } => around_table(ID_EXISTS_HEAD, store, ID_EXISTS_TAIL),
            Statement::Upsert { .. } => around_table(UPSERT_HEAD, store, UPSERT_TAIL),
            Statement::Select { .. } => around_table(SELECT_HEAD, store, SELECT_TAIL),
            Statement::Delete { .. } => around_table(DELETE_HEAD, store, DELETE_TAIL),
            Statement::DeleteExpired => around_table(
                DELETE_EXPIRED_HEAD,
                store,
                DELETE_EXPIRED_TAIL,
            ),
        }
    }
}

} // verus!
