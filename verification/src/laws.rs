//! What the operations of the store do to the database: the conversations
//! of `operation`, held with the database of `database`.

use vstd::prelude::*;
use crate::database::{attempt, perform, run, succeeded, Connection, Database, Row};
use crate::session_id::id_text;
use crate::operation::{
    schema_is_there, FaultView, OperationView, ReplyView, RequestView, ResponseView, Stage,
    StepView,
};
use crate::record::Record;
use crate::statement::StatementView;
use crate::store::PostgresStore;

verus! {

/// The row that stands for `record` in the table.
pub open spec fn row_of(record: Record) -> Row {
    Row { data: record.data@, expiry: record.expiry }
}

/// `save` writes the record's row, over the one that was there, and changes
/// nothing else.
pub proof fn save_writes_the_row(
    store: PostgresStore,
    record: Record,
    database: Database,
    now: i128,
    ids: Seq<i128>,
)
    ensures
        perform(store.saving(record), database, now, ids) == (
            database.with_rows(database.rows.insert(id_text(record.id), row_of(record))),
            succeeded(ReplyView::Done),
        ),
{
    reveal_with_fuel(run, 5);
}

/// `load` hands back the data of the row of `id` where that row has not
/// expired by `now`, hands back nothing otherwise, and changes nothing.
pub proof fn load_reads_the_live_row(
    store: PostgresStore,
    id: i128,
    database: Database,
    now: i128,
    ids: Seq<i128>,
)
    ensures
        perform(store.loading(id), database, now, ids) == (
            database,
            succeeded(ReplyView::Loaded(database.live(id_text(id), now))),
        ),
{
    reveal_with_fuel(run, 3);
}

/// `delete` removes the row of `id`, and changes nothing else.
pub proof fn delete_removes_the_row(
    store: PostgresStore,
    id: i128,
    database: Database,
    now: i128,
    ids: Seq<i128>,
)
    ensures
        perform(store.deleting(id), database, now, ids) == (
            database.with_rows(database.rows.remove(id_text(id))),
            succeeded(ReplyView::Done),
        ),
{
    reveal_with_fuel(run, 3);
}

/// `delete_expired` leaves the rows that have not expired before `now`, and
/// changes nothing else.
pub proof fn delete_expired_keeps_the_unexpired(
    store: PostgresStore,
    database: Database,
    now: i128,
    ids: Seq<i128>,
)
    ensures
        perform(store.deleting_expired(), database, now, ids) == (
            database.with_rows(database.unexpired(now)),
            succeeded(ReplyView::Done),
        ),
{
    reveal_with_fuel(run, 3);
}

/// `migrate` leaves the schema and the table there, and the rows as they
/// were.
pub proof fn migrate_provides_schema_and_table(
    store: PostgresStore,
    database: Database,
    now: i128,
    ids: Seq<i128>,
)
    ensures
        perform(store.migrating(), database, now, ids) == (
            Database { schema: true, table: true, rows: database.rows },
            succeeded(ReplyView::Done),
        ),
{
    reveal_with_fuel(run, 6);
}

/// The identifier that `create` settles on: `id` where no row has it, else
/// the first of `ids` that no row has; `None` where every one of them is
/// taken.
pub open spec fn first_free(rows: Map<Seq<char>, Row>, id: i128, ids: Seq<i128>) -> Option<i128>
    decreases ids.len(),
{
    if !rows.dom().contains(id_text(id)) {
        Some(id)
    } else if ids.len() == 0 {
        None
    } else {
        first_free(rows, ids[0], ids.drop_first())
    }
}

/// The identifier that `create` settles on is one that no row has.
pub proof fn first_free_is_free(rows: Map<Seq<char>, Row>, id: i128, ids: Seq<i128>)
    ensures
        first_free(rows, id, ids) matches Some(free) ==> !rows.dom().contains(id_text(free)),
    decreases ids.len(),
{
    if rows.dom().contains(id_text(id)) && ids.len() > 0 {
        first_free_is_free(rows, ids[0], ids.drop_first());
    }
}

/// What `create` comes to once its transaction is open.
proof fn probing_settles_on_the_first_free_id(
    operation: OperationView,
    connection: Connection,
    now: i128,
    ids: Seq<i128>,
)
    requires
        operation.task is Create,
        operation.stage is Probing,
        connection.pending == Some(connection.stored),
    ensures
        run(
            operation,
            operation.to_run(StatementView::IdExists { id: id_text(operation.id) }),
            connection,
            now,
            ids,
            Seq::empty(),
        ) == match first_free(connection.stored.rows, operation.id, ids) {
            Some(id) => (
                connection.stored.with_rows(
                    connection.stored.rows.insert(
                        id_text(id),
                        Row { data: operation.data, expiry: operation.expiry },
                    ),
                ),
                succeeded(ReplyView::Created(id)),
            ),
            None => (connection.stored, None),
        },
    decreases ids.len(),
{
    if connection.stored.rows.dom().contains(id_text(operation.id)) {
        if ids.len() > 0 {
            probing_settles_on_the_first_free_id(
                OperationView { id: ids[0], ..operation },
                connection,
                now,
                ids.drop_first(),
            );
        }
    } else {
        reveal_with_fuel(run, 3);
    }
}

/// `create` writes the record's row under the first identifier that no row
/// has, the record's own or one drawn after it, and hands that identifier
/// back; no row that was there is touched. Where every identifier on offer
/// is taken, nothing is written.
pub proof fn create_takes_the_first_free_id(
    store: PostgresStore,
    record: Record,
    database: Database,
    now: i128,
    ids: Seq<i128>,
)
    ensures
        perform(store.creating(record), database, now, ids) == match first_free(
            database.rows,
            record.id,
            ids,
        ) {
            Some(id) => (
                database.with_rows(database.rows.insert(id_text(id), row_of(record))),
                succeeded(ReplyView::Created(id)),
            ),
            None => (database, None),
        },
{
    reveal_with_fuel(run, 3);
    probing_settles_on_the_first_free_id(
        store.creating(record).at(Stage::Probing),
        Connection { stored: database, pending: Some(database) },
        now,
        ids,
    );
}

/// A record is never created under an identifier that a row has, be the row
/// live or expired: so not under that of a record created before it, and
/// each of the two keeps its own row.
pub proof fn creates_never_share_an_id(
    store: PostgresStore,
    first: Record,
    second: Record,
    database: Database,
    now: i128,
    then: i128,
    ids: Seq<i128>,
    more_ids: Seq<i128>,
)
    ensures
        ({
            let (between, one) = perform(store.creating(first), database, now, ids);
            let (after, other) = perform(store.creating(second), between, then, more_ids);
            one matches Some(Ok(ReplyView::Created(a))) ==> {
                &&& !database.rows.dom().contains(id_text(a))
                &&& between.rows.dom().contains(id_text(a))
                &&& other matches Some(Ok(ReplyView::Created(b))) ==> {
                    &&& a != b
                    &&& id_text(a) != id_text(b)
                    &&& after.rows[id_text(a)] == row_of(first)
                    &&& after.rows[id_text(b)] == row_of(second)
                }
            }
        }),
{
    create_takes_the_first_free_id(store, first, database, now, ids);
    first_free_is_free(database.rows, first.id, ids);
    let (between, one) = perform(store.creating(first), database, now, ids);
    create_takes_the_first_free_id(store, second, between, then, more_ids);
    first_free_is_free(between.rows, second.id, more_ids);
}

/// A record that was saved is loaded with the very bytes it was saved with,
/// as long as it has not expired.
pub proof fn save_then_load_returns_the_data(
    store: PostgresStore,
    record: Record,
    database: Database,
    now: i128,
    then: i128,
    ids: Seq<i128>,
)
    requires
        then < record.expiry,
    ensures
        ({
            let (between, saved) = perform(store.saving(record), database, now, ids);
            let (after, loaded) = perform(store.loading(record.id), between, then, ids);
            &&& saved == succeeded(ReplyView::Done)
            &&& loaded == succeeded(ReplyView::Loaded(Some(record.data@)))
            &&& after == between
        }),
{
    save_writes_the_row(store, record, database, now, ids);
    let (between, saved) = perform(store.saving(record), database, now, ids);
    load_reads_the_live_row(store, record.id, between, then, ids);
}

/// From the instant of its expiry on a record is not loaded, though its row
/// is still in the table.
pub proof fn load_hides_an_expired_row(
    store: PostgresStore,
    id: i128,
    database: Database,
    now: i128,
    ids: Seq<i128>,
)
    requires
        database.rows.dom().contains(id_text(id)),
        database.rows[id_text(id)].expiry <= now,
    ensures
        perform(store.loading(id), database, now, ids) == (
            database,
            succeeded(ReplyView::Loaded(None)),
        ),
{
    load_reads_the_live_row(store, id, database, now, ids);
}

/// A record that no row stands for is loaded as one that has expired is:
/// not at all.
pub proof fn load_finds_nothing_where_no_row_is(
    store: PostgresStore,
    id: i128,
    database: Database,
    now: i128,
    ids: Seq<i128>,
)
    requires
        !database.rows.dom().contains(id_text(id)),
    ensures
        perform(store.loading(id), database, now, ids) == (
            database,
            succeeded(ReplyView::Loaded(None)),
        ),
{
    load_reads_the_live_row(store, id, database, now, ids);
}

/// After `delete_expired` no row is left that expired before `now`, and
/// every other row is as it was.
pub proof fn delete_expired_purges(
    store: PostgresStore,
    database: Database,
    now: i128,
    ids: Seq<i128>,
)
    ensures
        ({
            let (after, outcome) = perform(store.deleting_expired(), database, now, ids);
            &&& outcome == succeeded(ReplyView::Done)
            &&& forall|id: Seq<char>| #[trigger]
                after.rows.dom().contains(id) <==> database.rows.dom().contains(id)
                    && database.rows[id].expiry >= now
            &&& forall|id: Seq<char>| #[trigger]
                after.rows.dom().contains(id) ==> after.rows[id] == database.rows[id]
        }),
{
    delete_expired_keeps_the_unexpired(store, database, now, ids);
}

/// `delete_expired` removes only what no reader sees: what is loaded after
/// it, at `now` or later, is what would have been loaded without it.
pub proof fn delete_expired_is_invisible_to_load(
    store: PostgresStore,
    id: i128,
    database: Database,
    now: i128,
    then: i128,
    ids: Seq<i128>,
)
    requires
        now <= then,
    ensures
        ({
            let (purged, _) = perform(store.deleting_expired(), database, now, ids);
            perform(store.loading(id), purged, then, ids).1 == perform(
                store.loading(id),
                database,
                then,
                ids,
            ).1
        }),
{
    delete_expired_keeps_the_unexpired(store, database, now, ids);
    let (purged, _) = perform(store.deleting_expired(), database, now, ids);
    load_reads_the_live_row(store, id, purged, then, ids);
    load_reads_the_live_row(store, id, database, then, ids);
}

/// `delete` of a record that no row stands for succeeds and changes
/// nothing; so a second `delete` of a record leaves what the first left.
pub proof fn delete_is_idempotent(
    store: PostgresStore,
    id: i128,
    database: Database,
    now: i128,
    then: i128,
    ids: Seq<i128>,
)
    ensures
        ({
            let (once, first) = perform(store.deleting(id), database, now, ids);
            let (twice, second) = perform(store.deleting(id), once, then, ids);
            &&& first == succeeded(ReplyView::Done)
            &&& second == succeeded(ReplyView::Done)
            &&& twice == once
            &&& !once.rows.dom().contains(id_text(id))
            &&& !database.rows.dom().contains(id_text(id)) ==> once == database
        }),
{
    delete_removes_the_row(store, id, database, now, ids);
    let (once, first) = perform(store.deleting(id), database, now, ids);
    delete_removes_the_row(store, id, once, then, ids);
    assert(once.rows.remove(id_text(id)) =~= once.rows);
    if !database.rows.dom().contains(id_text(id)) {
        assert(database.rows.remove(id_text(id)) =~= database.rows);
    }
}

/// A second `migrate` succeeds as the first did, and leaves what the first
/// left: one schema, one table.
pub proof fn migrate_is_idempotent(
    store: PostgresStore,
    database: Database,
    now: i128,
    then: i128,
    ids: Seq<i128>,
)
    ensures
        ({
            let (once, first) = perform(store.migrating(), database, now, ids);
            let (twice, second) = perform(store.migrating(), once, then, ids);
            &&& first == succeeded(ReplyView::Done)
            &&& second == succeeded(ReplyView::Done)
            &&& twice == once
            &&& once.schema && once.table
        }),
{
    migrate_provides_schema_and_table(store, database, now, ids);
    let (once, first) = perform(store.migrating(), database, now, ids);
    migrate_provides_schema_and_table(store, once, then, ids);
}

/// What a `migrate` leaves that found the schema made: the table.
pub open spec fn with_table(database: Database) -> Database {
    Database { table: true, ..database }
}

/// Where another caller creates the schema at the same moment, and the
/// database reports the schema as a duplicate, `migrate` reports no
/// failure and makes the table all the same: where the schema is there, it
/// leaves what a `migrate` leaves that met no fault.
pub proof fn migrate_yields_to_a_concurrent_migrate(
    store: PostgresStore,
    database: Database,
    now: i128,
    ids: Seq<i128>,
    fault: FaultView,
)
    requires
        schema_is_there(fault.code),
    ensures
        attempt(store.migrating(), database, now, ids, seq![None, None, Some(fault)]) == (
            with_table(database),
            succeeded(ReplyView::Done),
        ),
        database.schema ==> attempt(
            store.migrating(),
            database,
            now,
            ids,
            seq![None, None, Some(fault)],
        ) == perform(store.migrating(), database, now, ids),
{
    reveal_with_fuel(run, 8);
    let faults = seq![None, None, Some(fault)];
    assert(faults.drop_first() =~= seq![None, Some(fault)]);
    assert(faults.drop_first().drop_first() =~= seq![Some(fault)]);
    assert(faults.drop_first().drop_first().drop_first() =~= Seq::empty());
}

/// Of two callers that `migrate` at the same moment neither reports a
/// failure, and together they leave what one `migrate` leaves: the one that
/// finds the schema made by the other makes the table all the same.
pub proof fn concurrent_migrates_both_succeed(
    store: PostgresStore,
    database: Database,
    now: i128,
    then: i128,
    ids: Seq<i128>,
    fault: FaultView,
)
    requires
        schema_is_there(fault.code),
    ensures
        ({
            let (once, first) = perform(store.migrating(), database, now, ids);
            let (twice, second) = attempt(
                store.migrating(),
                once,
                then,
                ids,
                seq![None, None, Some(fault)],
            );
            &&& first == succeeded(ReplyView::Done)
            &&& second == succeeded(ReplyView::Done)
            &&& twice == once
            &&& twice.schema && twice.table
        }),
{
    migrate_provides_schema_and_table(store, database, now, ids);
    let (once, first) = perform(store.migrating(), database, now, ids);
    migrate_yields_to_a_concurrent_migrate(store, once, then, ids, fault);
}

/// What `create` comes to once its transaction is open, whatever fails.
proof fn probing_is_all_or_nothing(
    operation: OperationView,
    connection: Connection,
    now: i128,
    ids: Seq<i128>,
    faults: Seq<Option<FaultView>>,
)
    requires
        operation.task is Create,
        operation.stage is Probing,
        connection.pending == Some(connection.stored),
    ensures
        ({
            let request = operation.to_run(StatementView::IdExists { id: id_text(operation.id) });
            let (after, outcome) = run(operation, request, connection, now, ids, faults);
            if outcome matches Some(Ok(_)) {
                (after, outcome) == run(operation, request, connection, now, ids, Seq::empty())
            } else {
                after == connection.stored
            }
        }),
    decreases ids.len(),
{
    if faults.len() > 0 && faults[0] is Some {
        reveal_with_fuel(run, 1);
    } else if connection.stored.rows.dom().contains(id_text(operation.id)) {
        if ids.len() > 0 {
            let rest = if faults.len() > 0 {
                faults.drop_first()
            } else {
                faults
            };
            probing_is_all_or_nothing(
                OperationView { id: ids[0], ..operation },
                connection,
                now,
                ids.drop_first(),
                rest,
            );
        }
    } else {
        reveal_with_fuel(run, 3);
    }
}

/// Every operation is all or nothing. One that succeeds has done what it
/// does where no request fails; one that does not succeed leaves the
/// database as it was. The one exception is a `migrate` that found the
/// schema made: it succeeds and has made the table.
pub proof fn operations_are_all_or_nothing(
    operation: OperationView,
    database: Database,
    now: i128,
    ids: Seq<i128>,
    faults: Seq<Option<FaultView>>,
)
    requires
        operation.stage is Connecting,
    ensures
        ({
            let (after, outcome) = attempt(operation, database, now, ids, faults);
            if outcome matches Some(Ok(_)) {
                ||| (after, outcome) == perform(operation, database, now, ids)
                ||| operation.task is Migrate && after == with_table(database) && outcome
                    == succeeded(ReplyView::Done)
            } else {
                after == database
            }
        }),
{
    if operation.task is Create {
        reveal_with_fuel(run, 3);
        let rest = if faults.len() > 0 {
            faults.drop_first()
        } else {
            faults
        };
        let last = if rest.len() > 0 {
            rest.drop_first()
        } else {
            rest
        };
        probing_is_all_or_nothing(
            operation.at(Stage::Probing),
            Connection { stored: database, pending: Some(database) },
            now,
            ids,
            last,
        );
    } else {
        reveal_with_fuel(run, 8);
    }
}

/// An operation words every statement for the schema and the table of the
/// store that started it, and keeps to them and to its task.
pub proof fn statements_are_worded_for_the_store(
    operation: OperationView,
    response: ResponseView,
    now: i128,
    fresh: i128,
)
    ensures
        operation.after(response, now, fresh) matches StepView::Continue(next, request) ==> {
            &&& next.schema == operation.schema
            &&& next.table == operation.table
            &&& next.task == operation.task
            &&& request matches RequestView::Run { statement, sql } ==> sql == statement.sql(
                operation.schema,
                operation.table,
            )
        },
{
}

/// An operation stays at the stages that its task passes through, and
/// goes on in the same way whatever the clock shows where it does not
/// read the clock, and whatever identifier is on offer where it draws none.
pub proof fn operations_keep_to_their_stages(
    operation: OperationView,
    response: ResponseView,
    now: i128,
    fresh: i128,
    later: i128,
    other: i128,
)
    requires
        operation.wf(),
        now == later || !operation.reads_clock(response),
        fresh == other || !operation.draws_id(response),
    ensures
        operation.after(response, now, fresh) == operation.after(response, later, other),
        operation.after(response, now, fresh) matches StepView::Continue(next, _) ==> next.wf(),
{
}

} // verus!
