//! A session store on PostgreSQL, written without I/O: the library validates
//! the configured names, words every statement, and decides each step of an
//! operation from the answer to the step before. The caller owns the
//! connection pool and carries the requests out.

pub mod clock;
pub mod database;
pub mod error;
pub mod identifier;
pub mod laws;
pub mod operation;
pub mod record;
pub mod session_id;
pub mod statement;
pub mod store;

pub use crate::error::Error;
pub use crate::identifier::is_valid_identifier;
pub use crate::operation::{Fault, Operation, Reply, Request, Response, Step};
pub use crate::record::Record;
pub use crate::statement::Statement;
pub use crate::store::PostgresStore;
