//! The database as the store takes it to behave. Nothing here runs: this is
//! the meaning that the store gives to its own requests, so that what a
//! whole operation does can be stated and proved.
//!
//! The database is seen through one connection at a time. A request either
//! is carried out, and then does what is written here, or fails, whatever
//! the reason (a pool that is exhausted, a table that is not there, a
//! connection that is lost), and then does nothing.

use vstd::prelude::*;
use crate::error::ErrorView;
use crate::operation::{FaultView, OperationView, ReplyView, RequestView, ResponseView, StepView};
use crate::statement::StatementView;

verus! {

/// What the table keeps under an identifier.
pub struct Row {
    pub data: Seq<u8>,
    /// The instant from which the row counts as gone, in nanoseconds since
    /// the Unix epoch.
    pub expiry: i128,
}

/// The part of a database that the store touches.
pub struct Database {
    /// Whether the store's schema is there.
    pub schema: bool,
    /// Whether the store's table is there.
    pub table: bool,
    /// The rows of the table, by the text of their identifier.
    pub rows: Map<Seq<char>, Row>,
}

impl Database {
    /// The same database with `rows` for the rows of the table.
    pub open spec fn with_rows(self, rows: Map<Seq<char>, Row>) -> Database {
        Database { rows, ..self }
    }

    /// The data of the row of `id`, where there is one that has not expired
    /// by `now`.
    pub open spec fn live(self, id: Seq<char>, now: i128) -> Option<Seq<u8>> {
        if self.rows.dom().contains(id) && self.rows[id].expiry > now {
            Some(self.rows[id].data)
        } else {
            None
        }
    }

    /// The rows without those that expired before `now`.
    pub open spec fn unexpired(self, now: i128) -> Map<Seq<char>, Row> {
        self.rows.restrict(Set::new(|id: Seq<char>| self.rows[id].expiry >= now))
    }

    /// The database after `statement`, run at the instant `now` of the
    /// database's clock.
    pub open spec fn apply(self, statement: StatementView, now: i128) -> Database {
        match statement {
            StatementView::CreateSchema => Database { schema: true, ..self },
            StatementView::CreateTable => Database { table: true, ..self },
            StatementView::IdExists { .. } => self,
            StatementView::Upsert { id, data, expiry } => self.with_rows(
                self.rows.insert(id, Row { data, expiry }),
            ),
            StatementView::Select { .. } => self,
            StatementView::Delete { id } => self.with_rows(self.rows.remove(id)),
            StatementView::DeleteExpired => self.with_rows(self.unexpired(now)),
        }
    }

    /// What the database answers to `statement`.
    pub open spec fn answer(self, statement: StatementView) -> ResponseView {
        match statement {
            StatementView::IdExists { id } => ResponseView::Exists(self.rows.dom().contains(id)),
            StatementView::Select { id, now } => ResponseView::Row(self.live(id, now)),
            _ => ResponseView::Done,
        }
    }
}

/// A database and one connection to it.
pub struct Connection {
    /// What is committed.
    pub stored: Database,
    /// What the open transaction sees, where one is open.
    pub pending: Option<Database>,
}

impl Connection {
    /// A connection as the pool hands it out: no transaction is open.
    pub open spec fn to(database: Database) -> Connection {
        Connection { stored: database, pending: None }
    }

    /// What a statement sees.
    pub open spec fn seen(self) -> Database {
        match self.pending {
            Some(database) => database,
            None => self.stored,
        }
    }

    /// The connection after a statement has left `database` behind.
    pub open spec fn write(self, database: Database) -> Connection {
        match self.pending {
            Some(_) => Connection { pending: Some(database), ..self },
            None => Connection { stored: database, ..self },
        }
    }

    /// Carries `request` out at the instant `now`: the connection after it,
    /// and the response.
    pub open spec fn respond(self, request: RequestView, now: i128) -> (Connection, ResponseView) {
        match request {
            RequestView::Connect => (self, ResponseView::Done),
            RequestView::Begin => (
                Connection { pending: Some(self.stored), ..self },
                ResponseView::Done,
            ),
            RequestView::Run { statement, .. } => (
                self.write(self.seen().apply(statement, now)),
                self.seen().answer(statement),
            ),
            RequestView::Commit => (
                Connection { stored: self.seen(), pending: None },
                ResponseView::Done,
            ),
            RequestView::Rollback => (Connection { pending: None, ..self }, ResponseView::Done),
        }
    }
}

/// What an operation comes to: its result, or `None` where it was cut short
/// for want of identifiers.
pub type Outcome = Option<Result<ReplyView, ErrorView>>;

/// The outcome of an operation that handed `reply` back.
pub open spec fn succeeded(reply: ReplyView) -> Outcome {
    Some(Ok(reply))
}

/// Holds the conversation of an operation to its end, from the `request`
/// that the operation waits on. Every request is carried out at the instant
/// `now`. The identifiers that the operation draws are those of `ids`, in
/// their order. `faults` tells, request by request, which ones fail, and
/// how: a request that fails changes nothing. Requests beyond the end of
/// `faults` do not fail.
///
/// The result is the database as the operation leaves it, where what was
/// not committed is lost, and what the operation came to.
pub open spec fn run(
    operation: OperationView,
    request: RequestView,
    connection: Connection,
    now: i128,
    ids: Seq<i128>,
    faults: Seq<Option<FaultView>>,
) -> (Database, Outcome)
    decreases ids.len(), operation.stage.requests_left(),
{
    let (connection, response) = if faults.len() > 0 && faults[0] is Some {
        (connection, ResponseView::Failed(faults[0]->0))
    } else {
        connection.respond(request, now)
    };
    let faults = if faults.len() > 0 {
        faults.drop_first()
    } else {
        faults
    };
    let taken = operation.stage is Probing && response == ResponseView::Exists(true);
    if taken && ids.len() == 0 {
        (connection.stored, None)
    } else {
        let fresh = if taken {
            ids[0]
        } else {
            0
        };
        let ids = if taken {
            ids.drop_first()
        } else {
            ids
        };
        match operation.after(response, now, fresh) {
            StepView::Finish(result) => (connection.stored, Some(result)),
            StepView::Continue(operation, request) => run(
                operation,
                request,
                connection,
                now,
                ids,
                faults,
            ),
        }
    }
}

/// An operation held from its first request on a connection from the pool,
/// with the requests that fail given by `faults`.
pub open spec fn attempt(
    operation: OperationView,
    database: Database,
    now: i128,
    ids: Seq<i128>,
    faults: Seq<Option<FaultView>>,
) -> (Database, Outcome) {
    run(operation, RequestView::Connect, Connection::to(database), now, ids, faults)
}

/// An operation held from its first request on a connection from the pool,
/// where no request fails.
pub open spec fn perform(operation: OperationView, database: Database, now: i128, ids: Seq<i128>) -> (
    Database,
    Outcome,
) {
    attempt(operation, database, now, ids, Seq::empty())
}

} // verus!
