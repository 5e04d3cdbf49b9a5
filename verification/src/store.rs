//! The store: the names of its schema and table, and the operations on the
//! table.

use vstd::prelude::*;
use crate::identifier::{is_valid_identifier, valid_identifier};
use crate::operation::{Operation, OperationView, Request, RequestView, Stage, Task};
use crate::record::Record;

verus! {

/// The schema of a store that was given no other.
pub const DEFAULT_SCHEMA: &'static str = "tower_sessions";

/// The table of a store that was given no other.
pub const DEFAULT_TABLE: &'static str = "session";

/// How the refusal of a schema's name begins.
pub const INVALID_SCHEMA_HEAD: &'static str = "Invalid schema name '";

/// How the refusal of a schema's name ends: the rule that the name breaks.
pub const INVALID_SCHEMA_TAIL: &'static str =
    "'. Schema names must start with a letter or underscore (including letters with diacritical marks and non-Latin letters).Subsequent characters can be letters, underscores, digits (0-9), or dollar signs ($).";

/// How the refusal of a table's name begins.
pub const INVALID_TABLE_HEAD: &'static str = "Invalid table name '";

/// How the refusal of a table's name ends: the rule that the name breaks.
pub const INVALID_TABLE_TAIL: &'static str =
    "'. Table names must start with a letter or underscore (including letters with diacritical marks and non-Latin letters).Subsequent characters can be letters, underscores, digits (0-9), or dollar signs ($).";

/// What a caller is told who asks for a schema that is no valid identifier.
pub open spec fn invalid_schema_name(name: Seq<char>) -> Seq<char> {
    INVALID_SCHEMA_HEAD@ + name + INVALID_SCHEMA_TAIL@
}

/// What a caller is told who asks for a table that is no valid identifier.
pub open spec fn invalid_table_name(name: Seq<char>) -> Seq<char> {
    INVALID_TABLE_HEAD@ + name + INVALID_TABLE_TAIL@
}

/// A session store on one table of a PostgreSQL database.
#[derive(Debug, PartialEq, Eq)]
pub struct PostgresStore {
    schema_name: String,
    table_name: String,
}

impl Clone for PostgresStore {
    fn clone(&self) -> (copy: Self)
        ensures
            copy == *self,
    {
        proof {
            use_type_invariant(self);
        }
        PostgresStore { schema_name: self.schema_name.clone(), table_name: self.table_name.clone() }
    }
}

impl PostgresStore {
    /// The name of the store's schema.
    pub closed spec fn schema(&self) -> Seq<char> {
        self.schema_name@
    }

    /// The name of the store's table.
    pub closed spec fn table(&self) -> Seq<char> {
        self.table_name@
    }

    /// What holds of every store: each name is the one a new store has, or
    /// has passed [`is_valid_identifier`].
    pub open spec fn wf(&self) -> bool {
        &&& self.schema() == DEFAULT_SCHEMA@ || valid_identifier(self.schema())
        &&& self.table() == DEFAULT_TABLE@ || valid_identifier(self.table())
    }

    #[verifier::type_invariant]
    spec fn names_are_safe(&self) -> bool {
        self.wf()
    }

    /// The operation that `task` starts at this store on the given record.
    pub open spec fn opening(&self, task: Task, id: i128, data: Seq<u8>, expiry: i128) -> OperationView {
        OperationView {
            schema: self.schema(),
            table: self.table(),
            task,
            stage: Stage::Connecting,
            id,
            data,
            expiry,
        }
    }

    /// The operation that [`PostgresStore::migrate`] starts.
    pub open spec fn migrating(&self) -> OperationView {
        self.opening(Task::Migrate, 0, Seq::empty(), 0)
    }

    /// The operation that [`PostgresStore::create`] starts.
    pub open spec fn creating(&self, record: Record) -> OperationView {
        self.opening(Task::Create, record.id, record.data@, record.expiry)
    }

    /// The operation that [`PostgresStore::save`] starts.
    pub open spec fn saving(&self, record: Record) -> OperationView {
        self.opening(Task::Save, record.id, record.data@, record.expiry)
    }

    /// The operation that [`PostgresStore::load`] starts.
    pub open spec fn loading(&self, id: i128) -> OperationView {
        self.opening(Task::Load, id, Seq::empty(), 0)
    }

    /// The operation that [`PostgresStore::delete`] starts.
    pub open spec fn deleting(&self, id: i128) -> OperationView {
        self.opening(Task::Delete, id, Seq::empty(), 0)
    }

    /// The operation that [`PostgresStore::delete_expired`] starts.
    pub open spec fn deleting_expired(&self) -> OperationView {
        self.opening(Task::DeleteExpired, 0, Seq::empty(), 0)
    }

    /// A store on the table `session` of the schema `tower_sessions`.
    pub fn new() -> (store: Self)
        ensures
            store.schema() == DEFAULT_SCHEMA@,
            store.table() == DEFAULT_TABLE@,
            store.wf(),
    {
        PostgresStore {
            schema_name: String::from_str(DEFAULT_SCHEMA),
            table_name: String::from_str(DEFAULT_TABLE),
        }
    }

    /// The same store on the schema `schema_name`, or, where that is no
    /// valid identifier, the reason in words.
    pub fn with_schema_name(self, schema_name: &str) -> (renamed: Result<Self, String>)
        ensures
            match renamed {
                Ok(store) => valid_identifier(schema_name@) && store.schema() == schema_name@
                    && store.table() == self.table() && store.wf(),
                Err(reason) => !valid_identifier(schema_name@) && reason@ == invalid_schema_name(
                    schema_name@,
                ),
            },
    {
        proof {
            use_type_invariant(&self);
        }
        if !is_valid_identifier(schema_name) {
            let mut reason = String::from_str(INVALID_SCHEMA_HEAD);
            reason.append(schema_name);
            reason.append(INVALID_SCHEMA_TAIL);
            return Err(reason);
        }
        Ok(PostgresStore { schema_name: String::from_str(schema_name), table_name: self.table_name })
    }

    /// The same store on the table `table_name`, or, where that is no valid
    /// identifier, the reason in words.
    pub fn with_table_name(self, table_name: &str) -> (renamed: Result<Self, String>)
        ensures
            match renamed {
                Ok(store) => valid_identifier(table_name@) && store.table() == table_name@
                    && store.schema() == self.schema() && store.wf(),
                Err(reason) => !valid_identifier(table_name@) && reason@ == invalid_table_name(
                    table_name@,
                ),
            },
    {
        proof {
            use_type_invariant(&self);
        }
        if !is_valid_identifier(table_name) {
            let mut reason = String::from_str(INVALID_TABLE_HEAD);
            reason.append(table_name);
            reason.append(INVALID_TABLE_TAIL);
            return Err(reason);
        }
        Ok(PostgresStore { schema_name: self.schema_name, table_name: String::from_str(table_name) })
    }

    /// The name of the store's schema.
    pub fn schema_name(&self) -> (name: &str)
        ensures
            name@ == self.schema(),
            self.wf(),
    {
        proof {
            use_type_invariant(self);
        }
        self.schema_name.as_str()
    }

    /// The name of the store's table.
    pub fn table_name(&self) -> (name: &str)
        ensures
            name@ == self.table(),
            self.wf(),
    {
        proof {
            use_type_invariant(self);
        }
        self.table_name.as_str()
    }

    fn open(&self, task: Task, id: i128, data: Vec<u8>, expiry: i128) -> (started: (
        Operation,
        Request,
    ))
        ensures
            started.0@ == self.opening(task, id, data@, expiry),
            started.1@ == RequestView::Connect,
    {
        Operation::start(self.clone(), task, id, data, expiry)
    }

    /// Starts making sure that the schema and the table are there.
    pub fn migrate(&self) -> (started: (Operation, Request))
        ensures
            started.0@ == self.migrating(),
            started.1@ == RequestView::Connect,
    {
        self.open(Task::Migrate, 0, Vec::new(), 0)
    }

    /// Starts storing `record` as a new record. Where a row already has its
    /// identifier, the record gets another: the reply tells which.
    pub fn create(&self, record: Record) -> (started: (Operation, Request))
        ensures
            started.0@ == self.creating(record),
            started.1@ == RequestView::Connect,
    {
        self.open(Task::Create, record.id, record.data, record.expiry)
    }

    /// Starts storing `record` under its identifier, over what is there.
    pub fn save(&self, record: Record) -> (started: (Operation, Request))
        ensures
            started.0@ == self.saving(record),
            started.1@ == RequestView::Connect,
    {
        self.open(Task::Save, record.id, record.data, record.expiry)
    }

    /// Starts reading the data of the record `id`.
    pub fn load(&self, id: i128) -> (started: (Operation, Request))
        ensures
            started.0@ == self.loading(id),
            started.1@ == RequestView::Connect,
    {
        self.open(Task::Load, id, Vec::new(), 0)
    }

    /// Starts removing the record `id`.
    pub fn delete(&self, id: i128) -> (started: (Operation, Request))
        ensures
            started.0@ == self.deleting(id),
            started.1@ == RequestView::Connect,
    {
        self.open(Task::Delete, id, Vec::new(), 0)
    }

    /// Starts removing the records that have expired.
    pub fn delete_expired(&self) -> (started: (Operation, Request))
        ensures
            started.0@ == self.deleting_expired(),
            started.1@ == RequestView::Connect,
    {
        self.open(Task::DeleteExpired, 0, Vec::new(), 0)
    }
}

} // verus!
