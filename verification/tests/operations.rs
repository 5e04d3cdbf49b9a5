use pg_session_store::operation::{Stage, Task};
use pg_session_store::{
    Error, Fault, Operation, PostgresStore, Record, Reply, Request, Response, Statement, Step,
};

const ZERO: &str = "AAAAAAAAAAAAAAAAAAAAAA";

fn record(id: i128, data: &[u8], expiry: i128) -> Record {
    Record { id, data: data.to_vec(), expiry }
}

fn failure(code: Option<&str>, message: &str) -> Response {
    Response::Failed(Fault { code: code.map(str::to_string), message: message.to_string() })
}

fn go_on(step: Step) -> (Operation, Request) {
    match step {
        Step::Continue(operation, request) => (operation, request),
        Step::Finish(result) => panic!("the operation ended with {:?}", result),
    }
}

fn end(step: Step) -> Result<Reply, Error> {
    match step {
        Step::Finish(result) => result,
        Step::Continue(_, request) => panic!("the operation went on with {:?}", request),
    }
}

fn run_of(statement: Statement, schema: &str, table: &str) -> Request {
    let store = PostgresStore::new().with_schema_name(schema).unwrap().with_table_name(table).unwrap();
    let sql = statement.sql(&store);
    Request::Run { statement, sql }
}

#[test]
fn every_operation_opens_with_connect() {
    let store = PostgresStore::new();
    assert_eq!(store.migrate().1, Request::Connect);
    assert_eq!(store.create(record(1, b"a", 2)).1, Request::Connect);
    assert_eq!(store.save(record(1, b"a", 2)).1, Request::Connect);
    assert_eq!(store.load(1).1, Request::Connect);
    assert_eq!(store.delete(1).1, Request::Connect);
    assert_eq!(store.delete_expired().1, Request::Connect);
}

#[test]
fn save_conversation() {
    let store = PostgresStore::new();
    let (operation, _) = store.save(record(0, b"payload", 1_000));
    let (operation, request) = go_on(operation.advance_with(Response::Done, 5, 6));
    assert_eq!(request, Request::Begin);
    let (operation, request) = go_on(operation.advance_with(Response::Done, 5, 6));
    assert_eq!(
        request,
        run_of(
            Statement::Upsert { id: ZERO.to_string(), data: b"payload".to_vec(), expiry: 1_000 },
            "tower_sessions",
            "session",
        )
    );
    let (operation, request) = go_on(operation.advance_with(Response::Done, 5, 6));
    assert_eq!(request, Request::Commit);
    assert_eq!(end(operation.advance_with(Response::Done, 5, 6)), Ok(Reply::Done));
}

#[test]
fn save_words_its_statement_for_the_configured_table() {
    let store = PostgresStore::new()
        .with_schema_name("app")
        .unwrap()
        .with_table_name("web_sessions")
        .unwrap();
    let (operation, _) = store.save(record(0, b"", 0));
    let (operation, _) = go_on(operation.advance_with(Response::Done, 0, 0));
    let (_, request) = go_on(operation.advance_with(Response::Done, 0, 0));
    match request {
        Request::Run { sql, .. } => assert_eq!(
            sql,
            "insert into \"app\".\"web_sessions\" (id, data, expiry_date) values ($1, $2, $3) on conflict (id) do update set data = excluded.data, expiry_date = excluded.expiry_date"
        ),
        other => panic!("unexpected request {:?}", other),
    }
}

#[test]
fn load_conversation_with_a_row() {
    let store = PostgresStore::new();
    let (operation, _) = store.load(0);
    let (operation, request) = go_on(operation.advance_with(Response::Done, 77, 6));
    assert_eq!(
        request,
        run_of(Statement::Select { id: ZERO.to_string(), now: 77 }, "tower_sessions", "session")
    );
    assert_eq!(
        end(operation.advance_with(Response::Row(Some(b"payload".to_vec())), 78, 6)),
        Ok(Reply::Loaded(Some(b"payload".to_vec())))
    );
}

#[test]
fn load_conversation_without_a_row() {
    let store = PostgresStore::new();
    let (operation, _) = store.load(0);
    let (operation, _) = go_on(operation.advance_with(Response::Done, 77, 6));
    assert_eq!(end(operation.advance_with(Response::Row(None), 78, 6)), Ok(Reply::Loaded(None)));
}

#[test]
fn load_runs_outside_a_transaction() {
    let store = PostgresStore::new();
    let (operation, _) = store.load(3);
    let (_, request) = go_on(operation.advance_with(Response::Done, 0, 0));
    assert!(matches!(request, Request::Run { statement: Statement::Select { .. }, .. }));
}

#[test]
fn delete_conversation() {
    let store = PostgresStore::new();
    let (operation, _) = store.delete(0);
    let (operation, request) = go_on(operation.advance_with(Response::Done, 5, 6));
    assert_eq!(
        request,
        run_of(Statement::Delete { id: ZERO.to_string() }, "tower_sessions", "session")
    );
    assert_eq!(end(operation.advance_with(Response::Done, 5, 6)), Ok(Reply::Done));
}

#[test]
fn delete_expired_conversation() {
    let store = PostgresStore::new();
    let (operation, _) = store.delete_expired();
    let (operation, request) = go_on(operation.advance_with(Response::Done, 5, 6));
    assert_eq!(request, run_of(Statement::DeleteExpired, "tower_sessions", "session"));
    assert_eq!(end(operation.advance_with(Response::Done, 5, 6)), Ok(Reply::Done));
}

#[test]
fn migrate_conversation() {
    let store = PostgresStore::new();
    let (operation, _) = store.migrate();
    let (operation, request) = go_on(operation.advance_with(Response::Done, 5, 6));
    assert_eq!(request, Request::Begin);
    let (operation, request) = go_on(operation.advance_with(Response::Done, 5, 6));
    assert_eq!(request, run_of(Statement::CreateSchema, "tower_sessions", "session"));
    let (operation, request) = go_on(operation.advance_with(Response::Done, 5, 6));
    assert_eq!(request, run_of(Statement::CreateTable, "tower_sessions", "session"));
    let (operation, request) = go_on(operation.advance_with(Response::Done, 5, 6));
    assert_eq!(request, Request::Commit);
    assert_eq!(end(operation.advance_with(Response::Done, 5, 6)), Ok(Reply::Done));
}

#[test]
fn migrate_makes_the_table_where_the_schema_is_a_duplicate() {
    for code in ["42P06", "23505"] {
        let store = PostgresStore::new();
        let (operation, _) = store.migrate();
        let (operation, _) = go_on(operation.advance_with(Response::Done, 0, 0));
        let (operation, _) = go_on(operation.advance_with(Response::Done, 0, 0));
        let (operation, request) =
            go_on(operation.advance_with(failure(Some(code), "already exists"), 0, 0));
        assert_eq!(request, Request::Rollback);
        assert_eq!((operation.task(), operation.stage()), (Task::Migrate, Stage::Abandoning));
        let (operation, request) = go_on(operation.advance_with(Response::Done, 0, 0));
        assert_eq!(request, Request::Begin);
        assert_eq!(operation.stage(), Stage::Reopening);
        let (operation, request) = go_on(operation.advance_with(Response::Done, 0, 0));
        assert_eq!(request, run_of(Statement::CreateTable, "tower_sessions", "session"));
        assert_eq!(operation.stage(), Stage::Executing);
        let (operation, request) = go_on(operation.advance_with(Response::Done, 0, 0));
        assert_eq!(request, Request::Commit);
        assert_eq!(end(operation.advance_with(Response::Done, 0, 0)), Ok(Reply::Done));
    }
}

#[test]
fn migrate_reports_what_fails_after_a_duplicate_schema() {
    for successes in 0..4 {
        let store = PostgresStore::new();
        let (operation, _) = store.migrate();
        let (operation, _) = go_on(operation.advance_with(Response::Done, 0, 0));
        let (operation, _) = go_on(operation.advance_with(Response::Done, 0, 0));
        let (mut operation, _) =
            go_on(operation.advance_with(failure(Some("42P06"), "already exists"), 0, 0));
        for _ in 0..successes {
            operation = go_on(operation.advance_with(Response::Done, 0, 0)).0;
        }
        assert_eq!(
            end(operation.advance_with(failure(Some("42P06"), "no"), 0, 0)),
            Err(Error::Pg("no".to_string()))
        );
    }
}

#[test]
fn migrate_reports_any_other_failure_of_the_schema() {
    for code in [Some("42P07"), Some("42501"), Some("42p06"), Some(""), None] {
        let store = PostgresStore::new();
        let (operation, _) = store.migrate();
        let (operation, _) = go_on(operation.advance_with(Response::Done, 0, 0));
        let (operation, _) = go_on(operation.advance_with(Response::Done, 0, 0));
        assert_eq!(
            end(operation.advance_with(failure(code, "permission denied"), 0, 0)),
            Err(Error::Pg("permission denied".to_string()))
        );
    }
}

#[test]
fn migrate_reports_a_duplicate_anywhere_but_at_the_schema() {
    let store = PostgresStore::new();
    let (operation, _) = store.migrate();
    assert_eq!(
        end(operation.advance_with(failure(Some("42P06"), "no"), 0, 0)),
        Err(Error::Pool("no".to_string()))
    );
    let (operation, _) = store.migrate();
    let (operation, _) = go_on(operation.advance_with(Response::Done, 0, 0));
    assert_eq!(
        end(operation.advance_with(failure(Some("42P06"), "no"), 0, 0)),
        Err(Error::Pg("no".to_string()))
    );
    let (operation, _) = store.migrate();
    let (operation, _) = go_on(operation.advance_with(Response::Done, 0, 0));
    let (operation, _) = go_on(operation.advance_with(Response::Done, 0, 0));
    let (operation, _) = go_on(operation.advance_with(Response::Done, 0, 0));
    assert_eq!(
        end(operation.advance_with(failure(Some("23505"), "no"), 0, 0)),
        Err(Error::Pg("no".to_string()))
    );
    let (operation, _) = store.migrate();
    let (operation, _) = go_on(operation.advance_with(Response::Done, 0, 0));
    let (operation, _) = go_on(operation.advance_with(Response::Done, 0, 0));
    let (operation, _) = go_on(operation.advance_with(Response::Done, 0, 0));
    let (operation, _) = go_on(operation.advance_with(Response::Done, 0, 0));
    assert_eq!(
        end(operation.advance_with(failure(Some("23505"), "no"), 0, 0)),
        Err(Error::Pg("no".to_string()))
    );
}

#[test]
fn a_duplicate_is_no_excuse_for_another_operation() {
    let store = PostgresStore::new();
    let (operation, _) = store.save(record(0, b"", 0));
    let (operation, _) = go_on(operation.advance_with(Response::Done, 0, 0));
    let (operation, _) = go_on(operation.advance_with(Response::Done, 0, 0));
    assert_eq!(
        end(operation.advance_with(failure(Some("23505"), "duplicate key"), 0, 0)),
        Err(Error::Pg("duplicate key".to_string()))
    );
}

#[test]
fn create_conversation_with_a_free_id() {
    let store = PostgresStore::new();
    let (operation, _) = store.create(record(0, b"payload", 9));
    let (operation, request) = go_on(operation.advance_with(Response::Done, 5, 6));
    assert_eq!(request, Request::Begin);
    let (operation, request) = go_on(operation.advance_with(Response::Done, 5, 6));
    assert_eq!(
        request,
        run_of(Statement::IdExists { id: ZERO.to_string() }, "tower_sessions", "session")
    );
    let (operation, request) = go_on(operation.advance_with(Response::Exists(false), 5, 6));
    assert_eq!(
        request,
        run_of(
            Statement::Upsert { id: ZERO.to_string(), data: b"payload".to_vec(), expiry: 9 },
            "tower_sessions",
            "session",
        )
    );
    let (operation, request) = go_on(operation.advance_with(Response::Done, 5, 6));
    assert_eq!(request, Request::Commit);
    assert_eq!(end(operation.advance_with(Response::Done, 5, 6)), Ok(Reply::Created(0)));
}

#[test]
fn create_asks_again_under_each_fresh_id() {
    let store = PostgresStore::new();
    let (operation, _) = store.create(record(0, b"payload", 9));
    let (operation, _) = go_on(operation.advance_with(Response::Done, 0, 100));
    let (operation, _) = go_on(operation.advance_with(Response::Done, 0, 101));
    let (operation, request) = go_on(operation.advance_with(Response::Exists(true), 0, 1));
    assert_eq!(
        request,
        run_of(
            Statement::IdExists { id: "AQAAAAAAAAAAAAAAAAAAAA".to_string() },
            "tower_sessions",
            "session",
        )
    );
    let (operation, request) = go_on(operation.advance_with(Response::Exists(true), 0, -1));
    assert_eq!(
        request,
        run_of(
            Statement::IdExists { id: "_____________________w".to_string() },
            "tower_sessions",
            "session",
        )
    );
    let (operation, request) = go_on(operation.advance_with(Response::Exists(false), 0, 55));
    assert_eq!(
        request,
        run_of(
            Statement::Upsert {
                id: "_____________________w".to_string(),
                data: b"payload".to_vec(),
                expiry: 9,
            },
            "tower_sessions",
            "session",
        )
    );
    let (operation, request) = go_on(operation.advance_with(Response::Done, 0, 56));
    assert_eq!(request, Request::Commit);
    assert_eq!(end(operation.advance_with(Response::Done, 0, 57)), Ok(Reply::Created(-1)));
}

#[test]
fn create_never_writes_before_the_id_is_reported_free() {
    let store = PostgresStore::new();
    let (operation, _) = store.create(record(7, b"x", 9));
    let (operation, _) = go_on(operation.advance_with(Response::Done, 0, 0));
    let (mut operation, _) = go_on(operation.advance_with(Response::Done, 0, 0));
    for fresh in 0..200i128 {
        let (next, request) = go_on(operation.advance_with(Response::Exists(true), 0, fresh));
        assert!(matches!(request, Request::Run { statement: Statement::IdExists { .. }, .. }));
        operation = next;
    }
    let (_, request) = go_on(operation.advance_with(Response::Exists(false), 0, 1000));
    assert!(matches!(request, Request::Run { statement: Statement::Upsert { .. }, .. }));
}

#[test]
fn a_failed_connection_is_the_pools_failure() {
    let store = PostgresStore::new();
    let openings = [
        store.migrate().0,
        store.create(record(1, b"", 0)).0,
        store.save(record(1, b"", 0)).0,
        store.load(1).0,
        store.delete(1).0,
        store.delete_expired().0,
    ];
    for operation in openings {
        assert_eq!(
            end(operation.advance_with(failure(None, "pool exhausted"), 0, 0)),
            Err(Error::Pool("pool exhausted".to_string()))
        );
    }
}

#[test]
fn a_failure_after_the_connection_is_the_databases() {
    let store = PostgresStore::new();
    for successes in 1..4 {
        let (mut operation, _) = store.save(record(1, b"", 0));
        for _ in 0..successes {
            operation = go_on(operation.advance_with(Response::Done, 0, 0)).0;
        }
        assert_eq!(
            end(operation.advance_with(failure(Some("08006"), "connection lost"), 0, 0)),
            Err(Error::Pg("connection lost".to_string()))
        );
    }
    let (operation, _) = store.load(1);
    let (operation, _) = go_on(operation.advance_with(Response::Done, 0, 0));
    assert_eq!(
        end(operation.advance_with(failure(None, "syntax error"), 0, 0)),
        Err(Error::Pg("syntax error".to_string()))
    );
    let (operation, _) = store.create(record(1, b"", 0));
    let (operation, _) = go_on(operation.advance_with(Response::Done, 0, 0));
    let (operation, _) = go_on(operation.advance_with(Response::Done, 0, 0));
    assert_eq!(
        end(operation.advance_with(failure(None, "relation does not exist"), 0, 0)),
        Err(Error::Pg("relation does not exist".to_string()))
    );
}

#[test]
fn a_query_left_without_its_answer_is_a_failure() {
    let store = PostgresStore::new();
    let unanswered = Err(Error::Pg("the database did not answer the query".to_string()));
    let (operation, _) = store.load(1);
    let (operation, _) = go_on(operation.advance_with(Response::Done, 0, 0));
    assert_eq!(end(operation.clone().advance_with(Response::Done, 0, 0)), unanswered);
    assert_eq!(end(operation.advance_with(Response::Exists(true), 0, 0)), unanswered);
    let (operation, _) = store.create(record(1, b"", 0));
    let (operation, _) = go_on(operation.advance_with(Response::Done, 0, 0));
    let (operation, _) = go_on(operation.advance_with(Response::Done, 0, 0));
    assert_eq!(end(operation.clone().advance_with(Response::Done, 0, 0)), unanswered);
    assert_eq!(end(operation.advance_with(Response::Row(None), 0, 0)), unanswered);
}

#[test]
fn advance_reads_the_clock_for_load() {
    let before = std::time::SystemTime::now()
        .duration_since(std::time::UNIX_EPOCH)
        .unwrap()
        .as_nanos() as i128;
    let store = PostgresStore::new();
    let (operation, _) = store.load(0);
    let (_, request) = go_on(operation.advance(Response::Done));
    let after = std::time::SystemTime::now()
        .duration_since(std::time::UNIX_EPOCH)
        .unwrap()
        .as_nanos() as i128;
    match request {
        Request::Run { statement: Statement::Select { id, now }, .. } => {
            assert_eq!(id, ZERO);
            assert!(before - 1_000_000_000 <= now && now <= after + 1_000_000_000);
        }
        other => panic!("unexpected request {:?}", other),
    }
}

#[test]
fn advance_draws_a_new_id_where_the_old_one_is_taken() {
    let store = PostgresStore::new();
    let (operation, _) = store.create(record(0, b"payload", 9));
    let (operation, _) = go_on(operation.advance(Response::Done));
    let (operation, _) = go_on(operation.advance(Response::Done));
    let (operation, request) = go_on(operation.advance(Response::Exists(true)));
    let drawn = match request {
        Request::Run { statement: Statement::IdExists { id }, .. } => id,
        other => panic!("unexpected request {:?}", other),
    };
    assert_ne!(drawn, ZERO);
    assert_eq!(drawn.len(), 22);
    let (operation, request) = go_on(operation.advance(Response::Exists(false)));
    match request {
        Request::Run { statement: Statement::Upsert { id, data, expiry }, .. } => {
            assert_eq!(id, drawn);
            assert_eq!(data, b"payload");
            assert_eq!(expiry, 9);
        }
        other => panic!("unexpected request {:?}", other),
    }
    let (operation, _) = go_on(operation.advance(Response::Done));
    match end(operation.advance(Response::Done)) {
        Ok(Reply::Created(id)) => {
            assert_ne!(id, 0);
            assert_eq!(tower_sessions_core::session::Id(id).to_string(), drawn);
        }
        other => panic!("unexpected result {:?}", other),
    }
}

#[test]
fn advance_agrees_with_advance_with_where_nothing_is_drawn() {
    let store = PostgresStore::new();
    let (one, _) = store.save(record(3, b"abc", 4));
    let (other, _) = store.save(record(3, b"abc", 4));
    let mut one = go_on(one.advance(Response::Done));
    let mut other = go_on(other.advance_with(Response::Done, 11, 12));
    assert_eq!(one, other);
    one = go_on(one.0.advance(Response::Done));
    other = go_on(other.0.advance_with(Response::Done, 13, 14));
    assert_eq!(one, other);
    one = go_on(one.0.advance(Response::Done));
    other = go_on(other.0.advance_with(Response::Done, 15, 16));
    assert_eq!(one, other);
    assert_eq!(end(one.0.advance(Response::Done)), end(other.0.advance_with(Response::Done, 17, 18)));
}

#[test]
fn ids_are_written_as_the_session_layer_writes_them() {
    let store = PostgresStore::new();
    let ids = [0i128, 1, -1, 42, i128::MAX, i128::MIN, 0x0123_4567_89ab_cdef_0123_4567_89ab_cdef];
    for id in ids {
        let (operation, _) = store.delete(id);
        let (_, request) = go_on(operation.advance_with(Response::Done, 0, 0));
        match request {
            Request::Run { statement: Statement::Delete { id: text }, .. } => {
                assert_eq!(text, tower_sessions_core::session::Id(id).to_string());
                assert_eq!(text.parse::<tower_sessions_core::session::Id>().unwrap().0, id);
            }
            other => panic!("unexpected request {:?}", other),
        }
    }
}

#[test]
fn an_operation_tells_its_task_and_stage() {
    let store = PostgresStore::new();
    let (operation, _) = store.create(record(1, b"", 0));
    assert_eq!((operation.task(), operation.stage()), (Task::Create, Stage::Connecting));
    let (operation, _) = go_on(operation.advance_with(Response::Done, 0, 0));
    assert_eq!((operation.task(), operation.stage()), (Task::Create, Stage::Beginning));
    let (operation, _) = go_on(operation.advance_with(Response::Done, 0, 0));
    assert_eq!((operation.task(), operation.stage()), (Task::Create, Stage::Probing));
    let (operation, _) = go_on(operation.advance_with(Response::Exists(true), 0, 2));
    assert_eq!((operation.task(), operation.stage()), (Task::Create, Stage::Probing));
    let (operation, _) = go_on(operation.advance_with(Response::Exists(false), 0, 3));
    assert_eq!((operation.task(), operation.stage()), (Task::Create, Stage::Executing));
    let (operation, _) = go_on(operation.advance_with(Response::Done, 0, 0));
    assert_eq!((operation.task(), operation.stage()), (Task::Create, Stage::Committing));

    let (operation, _) = store.migrate();
    let (operation, _) = go_on(operation.advance_with(Response::Done, 0, 0));
    let (operation, _) = go_on(operation.advance_with(Response::Done, 0, 0));
    assert_eq!((operation.task(), operation.stage()), (Task::Migrate, Stage::CreatingSchema));

    assert_eq!(store.load(1).0.task(), Task::Load);
    assert_eq!(store.save(record(1, b"", 0)).0.task(), Task::Save);
    assert_eq!(store.delete(1).0.task(), Task::Delete);
    assert_eq!(store.delete_expired().0.task(), Task::DeleteExpired);
    let (operation, _) = go_on(store.delete(1).0.advance_with(Response::Done, 0, 0));
    assert_eq!(operation.stage(), Stage::Executing);
}

#[test]
fn a_cloned_operation_goes_on_as_the_first() {
    let store = PostgresStore::new();
    let (operation, _) = store.create(record(1, b"abc", 5));
    let copy = operation.clone();
    assert_eq!(copy, operation);
    assert_eq!(
        go_on(copy.advance_with(Response::Done, 0, 0)),
        go_on(operation.advance_with(Response::Done, 0, 0))
    );
}
