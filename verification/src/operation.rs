//! An operation of the store as a conversation: the operation names the next
//! request, the caller carries it out and brings the response back, until
//! the operation finishes with its result.

use vstd::prelude::*;
use crate::clock::now_utc;
use crate::error::{Error, ErrorView};
use crate::session_id::{id_text, random_id, render_id};
use crate::statement::{Statement, StatementView};
use crate::store::PostgresStore;

verus! {

/// What an operation is for.
#[derive(Debug, Clone, Copy, PartialEq, Eq)]
pub enum Task {
    /// Make sure that the schema and the table are there.
    Migrate,
    /// Store a new record under an identifier that no row has.
    Create,
    /// Store a record under its identifier, over what is there.
    Save,
    /// Read the data of a record that has not expired.
    Load,
    /// Remove a record.
    Delete,
    /// Remove the records that have expired.
    DeleteExpired,
}

/// How far an operation has come: the request that it waits on.
#[derive(Debug, Clone, Copy, PartialEq, Eq)]
pub enum Stage {
    /// A connection is asked of the pool.
    Connecting,
    /// A transaction is being opened.
    Beginning,
    /// The schema is being made.
    CreatingSchema,
    /// The transaction in which the schema was found made is being given
    /// up.
    Abandoning,
    /// A transaction is being opened in which to make the table alone.
    Reopening,
    /// The database is asked whether the identifier is taken.
    Probing,
    /// The statement that the task is for is being run.
    Executing,
    /// The transaction is being committed.
    Committing,
}

impl Stage {
    /// At most how many requests an operation at this stage still makes
    /// before it ends, not counting the times it asks again for an
    /// identifier.
    pub open spec fn requests_left(self) -> nat {
        match self {
            Stage::Connecting => 7,
            Stage::Beginning => 6,
            Stage::CreatingSchema => 5,
            Stage::Abandoning => 4,
            Stage::Reopening => 3,
            Stage::Probing => 3,
            Stage::Executing => 2,
            Stage::Committing => 1,
        }
    }
}

/// What the caller is to do next.
#[derive(Debug, Clone, PartialEq, Eq)]
pub enum Request {
    /// Take a connection from the pool, for this operation alone.
    Connect,
    /// Open a transaction on the connection.
    Begin,
    /// Run `statement`, whose words are `sql`, inside the transaction if one
    /// is open.
    Run { statement: Statement, sql: String },
    /// Commit the transaction.
    Commit,
    /// Roll the transaction back.
    Rollback,
}

/// The view of a [`Request`].
pub enum RequestView {
    Connect,
    Begin,
    Run { statement: StatementView, sql: Seq<char> },
    Commit,
    Rollback,
}

impl View for Request {
    type V = RequestView;

    open spec fn view(&self) -> RequestView {
        match self {
            Request::Connect => RequestView::Connect,
            Request::Begin => RequestView::Begin,
            Request::Run { statement, sql } => RequestView::Run { statement: statement@, sql: sql@ },
            Request::Commit => RequestView::Commit,
            Request::Rollback => RequestView::Rollback,
        }
    }
}

/// Why a request could not be carried out.
#[derive(Debug, Clone, PartialEq, Eq)]
pub struct Fault {
    /// The five characters of the SQLSTATE, where the database gave one.
    pub code: Option<String>,
    /// The failure in the words of the layer that met it.
    pub message: String,
}

/// The view of a [`Fault`].
pub struct FaultView {
    pub code: Option<Seq<char>>,
    pub message: Seq<char>,
}

impl View for Fault {
    type V = FaultView;

    open spec fn view(&self) -> FaultView {
        FaultView {
            code: match self.code {
                Some(code) => Some(code@),
                None => None,
            },
            message: self.message@,
        }
    }
}

/// What became of a request.
#[derive(Debug, Clone, PartialEq, Eq)]
pub enum Response {
    /// It was carried out, and there is nothing to tell.
    Done,
    /// The answer to [`Statement::IdExists`].
    Exists(bool),
    /// The answer to [`Statement::Select`]: the data of the row, if one
    /// came back.
    Row(Option<Vec<u8>>),
    /// It could not be carried out.
    Failed(Fault),
}

/// The view of a [`Response`].
pub enum ResponseView {
    Done,
    Exists(bool),
    Row(Option<Seq<u8>>),
    Failed(FaultView),
}

impl View for Response {
    type V = ResponseView;

    open spec fn view(&self) -> ResponseView {
        match self {
            Response::Done => ResponseView::Done,
            Response::Exists(taken) => ResponseView::Exists(*taken),
            Response::Row(row) => ResponseView::Row(
                match row {
                    Some(data) => Some(data@),
                    None => None,
                },
            ),
            Response::Failed(fault) => ResponseView::Failed(fault@),
        }
    }
}

/// What an operation that succeeded hands back.
#[derive(Debug, Clone, PartialEq, Eq)]
pub enum Reply {
    /// Nothing: the work is done.
    Done,
    /// The identifier under which the record was created.
    Created(i128),
    /// The data of the record, or `None` where no live record has the
    /// identifier.
    Loaded(Option<Vec<u8>>),
}

/// The view of a [`Reply`].
pub enum ReplyView {
    Done,
    Created(i128),
    Loaded(Option<Seq<u8>>),
}

impl View for Reply {
    type V = ReplyView;

    open spec fn view(&self) -> ReplyView {
        match self {
            Reply::Done => ReplyView::Done,
            Reply::Created(id) => ReplyView::Created(*id),
            Reply::Loaded(row) => ReplyView::Loaded(
                match row {
                    Some(data) => Some(data@),
                    None => None,
                },
            ),
        }
    }
}

/// An operation under way.
#[derive(Debug, PartialEq, Eq)]
pub struct Operation {
    store: PostgresStore,
    task: Task,
    stage: Stage,
    id: i128,
    data: Vec<u8>,
    expiry: i128,
}

/// The view of an [`Operation`]: the names of the store, the task, the
/// stage, and the record that the task is about (for a task on an identifier
/// alone, the identifier; for a task on neither, zeros).
pub struct OperationView {
    pub schema: Seq<char>,
    pub table: Seq<char>,
    pub task: Task,
    pub stage: Stage,
    pub id: i128,
    pub data: Seq<u8>,
    pub expiry: i128,
}

impl View for Operation {
    type V = OperationView;

    closed spec fn view(&self) -> OperationView {
        OperationView {
            schema: self.store.schema(),
            table: self.store.table(),
            task: self.task,
            stage: self.stage,
            id: self.id,
            data: self.data@,
            expiry: self.expiry,
        }
    }
}

impl Clone for Operation {
    fn clone(&self) -> (copy: Self)
        ensures
            copy@ == self@,
    {
        proof {
            use_type_invariant(self);
        }
        let data = self.data.clone();
        assert(data@ =~= self.data@);
        Operation {
            store: self.store.clone(),
            task: self.task,
            stage: self.stage,
            id: self.id,
            data,
            expiry: self.expiry,
        }
    }
}

/// What an operation answers to a response: the next request, or its result.
#[derive(Debug, PartialEq, Eq)]
pub enum Step {
    /// The operation goes on: carry the request out and bring the response
    /// to [`Operation::advance`].
    Continue(Operation, Request),
    /// The operation is over. The connection goes back to the pool; a
    /// transaction that was not committed is dropped.
    Finish(Result<Reply, Error>),
}

/// The view of a [`Step`].
pub enum StepView {
    Continue(OperationView, RequestView),
    Finish(Result<ReplyView, ErrorView>),
}

impl View for Step {
    type V = StepView;

    open spec fn view(&self) -> StepView {
        match self {
            Step::Continue(operation, request) => StepView::Continue(operation@, request@),
            Step::Finish(Ok(reply)) => StepView::Finish(Ok(reply@)),
            Step::Finish(Err(error)) => StepView::Finish(Err(error@)),
        }
    }
}

/// The SQLSTATE `duplicate_schema`.
pub const DUPLICATE_SCHEMA: &'static str = "42P06";

/// The SQLSTATE `unique_violation`.
pub const UNIQUE_VIOLATION: &'static str = "23505";

/// The cause that is reported where a query was answered without the answer
/// that it asks for.
pub const NO_ANSWER: &'static str = "the database did not answer the query";

/// The failures of creating the schema that mean that the schema is there:
/// another caller has just created it.
pub open spec fn schema_is_there(code: Option<Seq<char>>) -> bool {
    code == Some(DUPLICATE_SCHEMA@) || code == Some(UNIQUE_VIOLATION@)
}

impl OperationView {
    /// What holds of every operation: it is at a stage that its task passes
    /// through.
    pub open spec fn wf(self) -> bool {
        match self.stage {
            Stage::Connecting | Stage::Executing => true,
            Stage::Beginning | Stage::Committing => self.in_transaction(),
            Stage::CreatingSchema | Stage::Abandoning | Stage::Reopening => self.task is Migrate,
            Stage::Probing => self.task is Create,
        }
    }

    /// Whether the operation reads the clock on `response`: it does where
    /// it is about to ask for the record to load.
    pub open spec fn reads_clock(self, response: ResponseView) -> bool {
        self.task is Load && self.stage is Connecting && !(response is Failed)
    }

    /// Whether the operation draws an identifier on `response`: it does
    /// where the database reports the present one taken.
    pub open spec fn draws_id(self, response: ResponseView) -> bool {
        self.stage is Probing && response == ResponseView::Exists(true)
    }

    /// The same operation at another stage.
    pub open spec fn at(self, stage: Stage) -> OperationView {
        OperationView { stage, ..self }
    }

    /// The request to run `statement` on the store's table.
    pub open spec fn to_run(self, statement: StatementView) -> RequestView {
        RequestView::Run { statement, sql: statement.sql(self.schema, self.table) }
    }

    /// Whether the task runs inside a transaction.
    pub open spec fn in_transaction(self) -> bool {
        self.task is Migrate || self.task is Create || self.task is Save
    }

    /// The statement that the task is for. `now` is the instant by which
    /// a loaded record must not have expired.
    pub open spec fn statement(self, now: i128) -> StatementView {
        match self.task {
            Task::Migrate => StatementView::CreateTable,
            Task::Create | Task::Save => StatementView::Upsert {
                id: id_text(self.id),
                data: self.data,
                expiry: self.expiry,
            },
            Task::Load => StatementView::Select { id: id_text(self.id), now },
            Task::Delete => StatementView::Delete { id: id_text(self.id) },
            Task::DeleteExpired => StatementView::DeleteExpired,
        }
    }

    /// What the task hands back once its work is done.
    pub open spec fn reply(self, response: ResponseView) -> Result<ReplyView, ErrorView> {
        match self.task {
            Task::Create => Ok(ReplyView::Created(self.id)),
            Task::Load => match response {
                ResponseView::Row(row) => Ok(ReplyView::Loaded(row)),
                _ => Err(ErrorView::Pg(NO_ANSWER@)),
            },
            _ => Ok(ReplyView::Done),
        }
    }

    /// The error of a request that failed: a connection that could not be
    /// had is the pool's failure, anything later the database's.
    pub open spec fn on_fault(self, fault: FaultView) -> ErrorView {
        if self.stage is Connecting {
            ErrorView::Pool(fault.message)
        } else {
            ErrorView::Pg(fault.message)
        }
    }

    /// Whether `fault` is no failure of the operation: the schema could not
    /// be made because it is there.
    pub open spec fn excuses(self, fault: FaultView) -> bool {
        self.stage is CreatingSchema && schema_is_there(fault.code)
    }

    /// How the operation goes on after `response`. A request that failed
    /// ends the operation with its error, but for one: where the schema
    /// could not be made because it is there, the operation gives the
    /// transaction up, which the database has aborted, and makes the table
    /// in a transaction of its own. A response that is no failure counts as
    /// the request carried out; where the operation waits on an answer and
    /// the response holds none, the operation fails.
    /// `now` is the caller's clock and `fresh` a newly drawn identifier:
    /// see [`OperationView::reads_clock`] and [`OperationView::draws_id`].
    pub open spec fn after(self, response: ResponseView, now: i128, fresh: i128) -> StepView {
        if let ResponseView::Failed(fault) = response {
            if self.excuses(fault) {
                StepView::Continue(self.at(Stage::Abandoning), RequestView::Rollback)
            } else {
                StepView::Finish(Err(self.on_fault(fault)))
            }
        } else {
            match self.stage {
                Stage::Connecting => if self.in_transaction() {
                    StepView::Continue(self.at(Stage::Beginning), RequestView::Begin)
                } else {
                    StepView::Continue(self.at(Stage::Executing), self.to_run(self.statement(now)))
                },
                Stage::Beginning => match self.task {
                    Task::Migrate => StepView::Continue(
                        self.at(Stage::CreatingSchema),
                        self.to_run(StatementView::CreateSchema),
                    ),
                    Task::Create => StepView::Continue(
                        self.at(Stage::Probing),
                        self.to_run(StatementView::IdExists { id: id_text(self.id) }),
                    ),
                    _ => StepView::Continue(self.at(Stage::Executing), self.to_run(self.statement(now))),
                },
                Stage::CreatingSchema => StepView::Continue(
                    self.at(Stage::Executing),
                    self.to_run(self.statement(now)),
                ),
                Stage::Abandoning => StepView::Continue(
                    self.at(Stage::Reopening),
                    RequestView::Begin,
                ),
                Stage::Reopening => StepView::Continue(
                    self.at(Stage::Executing),
                    self.to_run(self.statement(now)),
                ),
                Stage::Probing => match response {
                    ResponseView::Exists(true) => StepView::Continue(
                        OperationView { id: fresh, ..self },
                        self.to_run(StatementView::IdExists { id: id_text(fresh) }),
                    ),
                    ResponseView::Exists(false) => StepView::Continue(
                        self.at(Stage::Executing),
                        self.to_run(self.statement(now)),
                    ),
                    _ => StepView::Finish(Err(ErrorView::Pg(NO_ANSWER@))),
                },
                Stage::Executing => if self.in_transaction() {
                    StepView::Continue(self.at(Stage::Committing), RequestView::Commit)
                } else {
                    StepView::Finish(self.reply(response))
                },
                Stage::Committing => StepView::Finish(self.reply(response)),
            }
        }
    }
}

/// Tells whether `code` is one of the SQLSTATEs that mean that the schema
/// is there.
fn is_schema_there(code: &Option<String>) -> (there: bool)
    ensures
        there == schema_is_there(
            match code {
                Some(code) => Some(code@),
                None => None,
            },
        ),
{
    match code {
        Some(code) => *code == String::from_str(DUPLICATE_SCHEMA) || *code == String::from_str(
            UNIQUE_VIOLATION,
        ),
        None => false,
    }
}

/// The error that stands for a query left without its answer.
fn not_answered() -> (error: Error)
    ensures
        error@ == ErrorView::Pg(NO_ANSWER@),
{
    Error::Pg(String::from_str(NO_ANSWER))
}

impl Operation {
    #[verifier::type_invariant]
    spec fn stage_fits_task(&self) -> bool {
        self@.wf()
    }

    /// What the operation is for.
    pub fn task(&self) -> (task: Task)
        ensures
            task == self@.task,
            self@.wf(),
    {
        proof {
            use_type_invariant(self);
        }
        self.task
    }

    /// The stage that the operation is at.
    pub fn stage(&self) -> (stage: Stage)
        ensures
            stage == self@.stage,
            self@.wf(),
    {
        proof {
            use_type_invariant(self);
        }
        self.stage
    }

    /// An operation for `task` at `store`, with the request that opens it.
    pub(crate) fn start(store: PostgresStore, task: Task, id: i128, data: Vec<u8>, expiry: i128) -> (started: (
        Operation,
        Request,
    ))
        ensures
            started.0@ == (OperationView {
                schema: store.schema(),
                table: store.table(),
                task,
                stage: Stage::Connecting,
                id,
                data: data@,
                expiry,
            }),
            started.1@ == RequestView::Connect,
    {
        (Operation { store, task, stage: Stage::Connecting, id, data, expiry }, Request::Connect)
    }

    fn at(self, stage: Stage) -> (moved: Operation)
        requires
            self@.at(stage).wf(),
        ensures
            moved@ == self@.at(stage),
    {
        Operation { stage, ..self }
    }

    fn to_run(&self, statement: Statement) -> (request: Request)
        ensures
            request@ == self@.to_run(statement@),
    {
        let sql = statement.sql(&self.store);
        Request::Run { statement, sql }
    }

    fn in_transaction(&self) -> (inside: bool)
        ensures
            inside == self@.in_transaction(),
    {
        match self.task {
            Task::Migrate | Task::Create | Task::Save => true,
            _ => false,
        }
    }

    fn statement(&self, now: i128) -> (statement: Statement)
        ensures
            statement@ == self@.statement(now),
    {
        match self.task {
            Task::Migrate => Statement::CreateTable,
            Task::Create | Task::Save => {
                let data = self.data.clone();
                assert(data@ =~= self.data@);
                Statement::Upsert { id: render_id(self.id), data, expiry: self.expiry }
            },
            Task::Load => Statement::Select { id: render_id(self.id), now },
            Task::Delete => Statement::Delete { id: render_id(self.id) },
            Task::DeleteExpired => Statement::DeleteExpired,
        }
    }

    fn reply(&self, response: Response) -> (result: Result<Reply, Error>)
        ensures
            (Step::Finish(result))@ == StepView::Finish(self@.reply(response@)),
    {
        match self.task {
            Task::Create => Ok(Reply::Created(self.id)),
            Task::Load => match response {
                Response::Row(row) => Ok(Reply::Loaded(row)),
                _ => Err(not_answered()),
            },
            _ => Ok(Reply::Done),
        }
    }

    fn on_fault(&self, fault: Fault) -> (error: Error)
        ensures
            error@ == self@.on_fault(fault@),
    {
        match self.stage {
            Stage::Connecting => Error::Pool(fault.message),
            _ => Error::Pg(fault.message),
        }
    }

    fn excuses(&self, fault: &Fault) -> (excused: bool)
        ensures
            excused == self@.excuses(fault@),
    {
        match self.stage {
            Stage::CreatingSchema => is_schema_there(&fault.code),
            _ => false,
        }
    }

    /// Goes on after `response`, with `now` for the caller's clock and
    /// `fresh` for a newly drawn identifier.
    pub fn advance_with(self, response: Response, now: i128, fresh: i128) -> (step: Step)
        ensures
            step@ == self@.after(response@, now, fresh),
    {
        proof {
            use_type_invariant(&self);
        }
        match response {
            Response::Failed(fault) => if self.excuses(&fault) {
                Step::Continue(self.at(Stage::Abandoning), Request::Rollback)
            } else {
                Step::Finish(Err(self.on_fault(fault)))
            },
            response => match self.stage {
                Stage::Connecting => if self.in_transaction() {
                    Step::Continue(self.at(Stage::Beginning), Request::Begin)
                } else {
                    let request = self.to_run(self.statement(now));
                    Step::Continue(self.at(Stage::Executing), request)
                },
                Stage::Beginning => match self.task {
                    Task::Migrate => {
                        let request = self.to_run(Statement::CreateSchema);
                        Step::Continue(self.at(Stage::CreatingSchema), request)
                    },
                    Task::Create => {
                        let request = self.to_run(Statement::IdExists { id: render_id(self.id) });
                        Step::Continue(self.at(Stage::Probing), request)
                    },
                    _ => {
                        let request = self.to_run(self.statement(now));
                        Step::Continue(self.at(Stage::Executing), request)
                    },
                },
                Stage::CreatingSchema => {
                    let request = self.to_run(self.statement(now));
                    Step::Continue(self.at(Stage::Executing), request)
                },
                Stage::Abandoning => Step::Continue(self.at(Stage::Reopening), Request::Begin),
                Stage::Reopening => {
                    let request = self.to_run(self.statement(now));
                    Step::Continue(self.at(Stage::Executing), request)
                },
                Stage::Probing => match response {
                    Response::Exists(true) => {
                        let request = self.to_run(Statement::IdExists { id: render_id(fresh) });
                        Step::Continue(Operation { id: fresh, ..self }, request)
                    },
                    Response::Exists(false) => {
                        let request = self.to_run(self.statement(now));
                        Step::Continue(self.at(Stage::Executing), request)
                    },
                    _ => Step::Finish(Err(not_answered())),
                },
                Stage::Executing => if self.in_transaction() {
                    Step::Continue(self.at(Stage::Committing), Request::Commit)
                } else {
                    Step::Finish(self.reply(response))
                },
                Stage::Committing => Step::Finish(self.reply(response)),
            },
        }
    }

    /// Goes on after `response`. The clock is read where a record is about
    /// to be loaded, and an identifier is drawn where the database has
    /// reported the present one taken.
    pub fn advance(self, response: Response) -> (step: Step)
        ensures
            exists|now: i128, fresh: i128| step@ == self@.after(response@, now, fresh),
    {
        let now: i128 = match (self.task, self.stage, &response) {
            (_, _, Response::Failed(_)) => 0,
            (Task::Load, Stage::Connecting, _) => now_utc(),
            _ => 0,
        };
        let fresh: i128 = match (self.stage, &response) {
            (Stage::Probing, Response::Exists(true)) => random_id(),
            _ => 0,
        };
        self.advance_with(response, now, fresh)
    }
}

} // verus!
