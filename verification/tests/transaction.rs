use tx_machine::conn::Client;
use tx_machine::conn::CountedClient;
use tx_machine::machine::Action;
use tx_machine::machine::ConnError;
use tx_machine::machine::FromConnError;
use tx_machine::machine::Stmt;
use tx_machine::machine::Transaction2;
use tx_machine::machine::TxError;

/// Drive one whole transaction the way an outside driver would: perform each
/// action the machine asks for, feeding back the configured outcomes, and
/// collect every statement the machine issues.
fn drive<T, E: FromConnError>(
    client: Client,
    begin: Result<(), ConnError>,
    op_result: Result<T, E>,
    closing: Result<(), ConnError>,
) -> (Vec<Stmt>, Client, Result<T, E>) {
    let mut stmts: Vec<Stmt> = Vec::new();
    let m: Transaction2<T, E> = Transaction2::start(client);
    let (m, a) = m.poll_start();
    match a {
        Action::Exec(s) => stmts.push(s),
        _ => panic!("the first action must issue a statement"),
    }
    let (m, a) = m.poll_beginning(begin);
    let h = match a {
        Action::Run(h) => h,
        Action::Stop => {
            assert!(m.done());
            let (client, result) = m.into_parts();
            return (stmts, client, result);
        }
        Action::Exec(_) => panic!("no statement may follow a completed BEGIN directly"),
    };
    let (m, a) = m.poll_running(h, op_result);
    match a {
        Action::Exec(s) => stmts.push(s),
        _ => panic!("a closing statement must follow the operation"),
    }
    let (m, a) = m.poll_finishing(closing);
    assert!(matches!(a, Action::Stop));
    assert!(m.done());
    let (client, result) = m.into_parts();
    (stmts, client, result)
}

#[test]
fn success_commits_and_returns_value() {
    let client = Client::new(7);
    let (stmts, client, result): (Vec<Stmt>, Client, Result<u64, ConnError>) =
        drive(client, Ok(()), Ok(42), Ok(()));
    assert_eq!(stmts, vec![Stmt::Begin, Stmt::Commit]);
    assert_eq!(client.id(), 7);
    assert_eq!(result, Ok(42));
}

#[test]
fn failure_rolls_back_and_keeps_operation_error() {
    let client = Client::new(7);
    let (stmts, client, result): (Vec<Stmt>, Client, Result<u64, TxError>) = drive(
        client,
        Ok(()),
        Err(TxError::App("boom".to_string())),
        Ok(()),
    );
    assert_eq!(stmts, vec![Stmt::Begin, Stmt::Rollback]);
    assert_eq!(client.id(), 7);
    assert_eq!(result, Err(TxError::App("boom".to_string())));
}

#[test]
fn begin_failure_issues_nothing_else() {
    let client = Client::new(7);
    let (stmts, client, result): (Vec<Stmt>, Client, Result<u64, ConnError>) = drive(
        client,
        Err(ConnError { code: 13 }),
        Ok(42),
        Ok(()),
    );
    assert_eq!(stmts, vec![Stmt::Begin]);
    assert_eq!(client.id(), 7);
    assert_eq!(result, Err(ConnError { code: 13 }));
}

#[test]
fn rollback_failure_is_discarded_for_operation_error() {
    let client = Client::new(3);
    let (stmts, client, result): (Vec<Stmt>, Client, Result<u64, TxError>) = drive(
        client,
        Ok(()),
        Err(TxError::App("boom".to_string())),
        Err(ConnError { code: 5 }),
    );
    assert_eq!(stmts, vec![Stmt::Begin, Stmt::Rollback]);
    assert_eq!(client.id(), 3);
    assert_eq!(result, Err(TxError::App("boom".to_string())));
}

#[test]
fn commit_failure_is_reported_after_success() {
    let client = Client::new(3);
    let (stmts, client, result): (Vec<Stmt>, Client, Result<u64, TxError>) = drive(
        client,
        Ok(()),
        Ok(1),
        Err(ConnError { code: 5 }),
    );
    assert_eq!(stmts, vec![Stmt::Begin, Stmt::Commit]);
    assert_eq!(client.id(), 3);
    assert_eq!(result, Err(TxError::Conn(ConnError { code: 5 })));
}

#[test]
fn machine_holds_no_connection_while_operation_runs() {
    let client = Client::new(11);
    let m: Transaction2<u64, ConnError> = Transaction2::start(client);
    assert!(m.has_client());
    let (m, _) = m.poll_start();
    assert!(m.has_client());
    let (m, a) = m.poll_beginning(Ok(()));
    let h = match a {
        Action::Run(h) => h,
        _ => panic!("a successful BEGIN must hand the connection to the operation"),
    };
    assert!(!m.has_client());
    assert_eq!(h.id(), 11);
    let (m, _) = m.poll_running(h, Ok(0));
    assert!(m.has_client());
}

#[test]
fn dropping_mid_run_does_not_panic() {
    let client = Client::new(2);
    let m: Transaction2<u64, ConnError> = Transaction2::start(client);
    let (m, _) = m.poll_start();
    let (m, a) = m.poll_beginning(Ok(()));
    let h = match a {
        Action::Run(h) => h,
        _ => panic!("a successful BEGIN must hand the connection to the operation"),
    };
    drop(m);
    drop(h);
}

#[test]
fn handle_round_trip_keeps_connection() {
    let client = Client::new(9);
    let h = CountedClient::new(client);
    assert_eq!(h.id(), 9);
    let client = h.release();
    assert_eq!(client.id(), 9);
}

#[test]
fn conn_error_converts_to_itself() {
    let e = ConnError { code: 21 };
    assert_eq!(<ConnError as FromConnError>::from_conn(e), e);
}

#[test]
fn conn_error_converts_into_unified_error() {
    let e = ConnError { code: 22 };
    assert_eq!(
        <TxError as FromConnError>::from_conn(e),
        TxError::Conn(ConnError { code: 22 })
    );
}
