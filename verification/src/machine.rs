//! The transaction state machine: `BEGIN`, then the operation, then `COMMIT`
//! or `ROLLBACK`, with a fixed priority between the two possible errors.

use vstd::prelude::*;

use crate::conn::Client;
use crate::conn::CountedClient;

verus! {

/// The bare statements this component ever issues.
#[derive(Clone, Copy, Debug, PartialEq, Eq, Structural)]
pub enum Stmt {
    Begin,
    Commit,
    Rollback,
}

/// A connection or protocol error reported by the statement executor when
/// `BEGIN`, `COMMIT` or `ROLLBACK` cannot be sent or acknowledged. The wire
/// detail belongs to the executor; here an error is identified by a code so
/// that distinct failures stay distinct.
#[derive(Clone, Copy, Debug, PartialEq, Eq, Structural)]
pub struct ConnError {
    pub code: u64,
}

/// The unified error type of a transaction must absorb the executor's
/// connection errors; the machine converts through this trait when `BEGIN`
/// or `COMMIT` fails.
pub trait FromConnError: Sized {
    /// What the conversion returns, for use in specifications.
    spec fn spec_from_conn(e: ConnError) -> Self;

    /// Convert a connection error into the unified error type.
    fn from_conn(e: ConnError) -> (r: Self)
        ensures
            r == Self::spec_from_conn(e),
    ;
}

impl FromConnError for ConnError {
    open spec fn spec_from_conn(e: ConnError) -> ConnError {
        e
    }

    fn from_conn(e: ConnError) -> (r: ConnError) {
        e
    }
}

/// A ready-made unified error type for callers whose operations fail with a
/// message: it absorbs the executor's connection errors, as the machine
/// requires of every unified error type.
#[derive(Clone, Debug, PartialEq, Eq)]
pub enum TxError {
    /// A connection or protocol error from `BEGIN`, `COMMIT` or `ROLLBACK`.
    Conn(ConnError),
    /// The operation's own failure.
    App(String),
}

impl FromConnError for TxError {
    open spec fn spec_from_conn(e: ConnError) -> TxError {
        TxError::Conn(e)
    }

    fn from_conn(e: ConnError) -> (r: TxError) {
        TxError::Conn(e)
    }
}

/// What the machine asks its driver to do after a transition.
///
/// The driver performs the work and reports the outcome back through the next
/// `poll_*` call; the machine itself performs no I/O and never blocks.
pub enum Action {
    /// Issue the bare statement on the connection the machine holds and
    /// report whether the server acknowledged it.
    Exec(Stmt),
    /// Invoke the caller-supplied operation with this scoped handle; the
    /// operation must return the handle alongside its result.
    Run(CountedClient),
    /// The machine is in a terminal state; nothing is left to do.
    Stop,
}

/// The transaction state machine.
///
/// States run `Start` → `Beginning` → `Running` → `Finishing` → `Finished`
/// or `Failed`; a `BEGIN` failure jumps from `Beginning` straight to
/// `Failed`. The machine owns the connection in every state but `Running`,
/// where ownership has moved into the caller's operation; the terminal
/// states hand it back to the caller whatever the outcome.
///
/// Dropping the machine before a terminal state abandons whatever the driver
/// had in flight; the connection may then be left with an open server-side
/// transaction, which is the connection layer's responsibility to reset.
pub enum Transaction2<T, E> {
    /// The caller's inputs, not yet examined.
    Start { client: Client },
    /// `BEGIN` has been handed to the executor; its outcome is awaited.
    Beginning { client: Client },
    /// The operation holds the connection; the machine holds nothing.
    Running,
    /// The closing statement is in flight; the operation's result is fixed
    /// and waits for it.
    Finishing { client: Client, result: Result<T, E> },
    /// Terminal: the transaction committed and `value` is the operation's.
    Finished { client: Client, value: T },
    /// Terminal: the transaction failed with `error`.
    Failed { client: Client, error: E },
}

impl<T, E: FromConnError> Transaction2<T, E> {
    /// Whether the machine itself holds the connection in this state.
    pub open spec fn holds_client(self) -> bool {
        !(self is Running)
    }

    /// The connection the machine holds, in the states where it holds one.
    pub open spec fn client_of(self) -> Client
        recommends
            self.holds_client(),
    {
        match self {
            Transaction2::Start { client } => client,
            Transaction2::Beginning { client } => client,
            Transaction2::Running => arbitrary(),
            Transaction2::Finishing { client, .. } => client,
            Transaction2::Finished { client, .. } => client,
            Transaction2::Failed { client, .. } => client,
        }
    }

    /// Whether the machine has reached `Finished` or `Failed`.
    pub open spec fn is_terminal(self) -> bool {
        self is Finished || self is Failed
    }

    /// The transition out of `Start`: issue `BEGIN` and await it.
    pub open spec fn spec_poll_start(self) -> (Self, Action)
        recommends
            self is Start,
    {
        (
            Transaction2::Beginning { client: self.client_of() },
            Action::Exec(Stmt::Begin),
        )
    }

    /// The transition out of `Beginning`, given `BEGIN`'s outcome: on
    /// success the connection moves into the operation and the machine keeps
    /// no reference to it; on failure the machine terminates at once, with
    /// nothing to roll back.
    pub open spec fn spec_poll_beginning(self, outcome: Result<(), ConnError>) -> (Self, Action)
        recommends
            self is Beginning,
    {
        match outcome {
            Result::Ok(_) => (
                Transaction2::Running,
                Action::Run(CountedClient::wrapping(self.client_of())),
            ),
            Result::Err(e) => (
                Transaction2::Failed { client: self.client_of(), error: E::spec_from_conn(e) },
                Action::Stop,
            ),
        }
    }

    /// The transition out of `Running`, given the handle and result the
    /// operation returned: the result is fixed as the pending one, and the
    /// closing statement is chosen from it — success commits, failure rolls
    /// back.
    pub open spec fn spec_poll_running(self, h: CountedClient, outcome: Result<T, E>) -> (
        Self,
        Action,
    )
        recommends
            self is Running,
    {
        let closing = if outcome is Ok {
            Stmt::Commit
        } else {
            Stmt::Rollback
        };
        (
            Transaction2::Finishing { client: h.client_spec(), result: outcome },
            Action::Exec(closing),
        )
    }

    /// The transition out of `Finishing`, given the closing statement's
    /// outcome. This is where the error priority is decided: a failing
    /// operation's error survives a failing `ROLLBACK`, while a failing
    /// `COMMIT` after a successful operation is itself the reported error.
    pub open spec fn spec_poll_finishing(self, outcome: Result<(), ConnError>) -> (Self, Action)
        recommends
            self is Finishing,
    {
        let next = match self {
            Transaction2::Finishing { client, result } => match (result, outcome) {
                (Result::Ok(value), Result::Ok(_)) => Transaction2::Finished { client, value },
                (Result::Ok(_), Result::Err(ce)) => Transaction2::Failed {
                    client,
                    error: E::spec_from_conn(ce),
                },
                (Result::Err(error), _) => Transaction2::Failed { client, error },
            },
            _ => self,
        };
        (next, Action::Stop)
    }

    /// Start a transaction: the machine takes exclusive ownership of the
    /// connection and waits to be polled.
    pub fn start(client: Client) -> (m: Self)
        ensures
            m == (Transaction2::<T, E>::Start { client }),
    {
        Transaction2::Start { client }
    }

    /// First poll: ask the driver to issue `BEGIN`.
    pub fn poll_start(self) -> (r: (Self, Action))
        requires
            self is Start,
        ensures
            r == self.spec_poll_start(),
    {
        match self {
            Transaction2::Start { client } => (
                Transaction2::Beginning { client },
                Action::Exec(Stmt::Begin),
            ),
            _ => unreached(),
        }
    }

    /// `BEGIN` completed with `outcome`. On success the connection moves
    /// into the scoped handle of the returned [`Action::Run`] and the
    /// machine holds nothing until the operation gives it back; on failure
    /// the machine terminates with the converted `BEGIN` error, and no
    /// `COMMIT` or `ROLLBACK` is ever asked for.
    pub fn poll_beginning(self, outcome: Result<(), ConnError>) -> (r: (Self, Action))
        requires
            self is Beginning,
        ensures
            r == self.spec_poll_beginning(outcome),
    {
        match self {
            Transaction2::Beginning { client } => match outcome {
                Result::Ok(_) => (
                    Transaction2::Running,
                    Action::Run(CountedClient::new(client)),
                ),
                Result::Err(e) => (
                    Transaction2::Failed { client, error: E::from_conn(e) },
                    Action::Stop,
                ),
            },
            _ => unreached(),
        }
    }

    /// The operation completed, returning the scoped handle `h` and its
    /// result. The result is fixed from here on; the driver is asked to
    /// issue `COMMIT` if it is a success and `ROLLBACK` if it is a failure.
    pub fn poll_running(self, h: CountedClient, outcome: Result<T, E>) -> (r: (Self, Action))
        requires
            self is Running,
        ensures
            r == self.spec_poll_running(h, outcome),
    {
        match self {
            Transaction2::Running => {
                let closing = if outcome.is_ok() {
                    Stmt::Commit
                } else {
                    Stmt::Rollback
                };
                (
                    Transaction2::Finishing { client: h.release(), result: outcome },
                    Action::Exec(closing),
                )
            },
            _ => unreached(),
        }
    }

    /// The closing statement completed with `outcome`; the machine reaches a
    /// terminal state. If the operation had failed, its error is reported
    /// and a `ROLLBACK` failure is discarded as strictly less informative;
    /// if the operation had succeeded, a `COMMIT` failure is itself the
    /// reported error.
    pub fn poll_finishing(self, outcome: Result<(), ConnError>) -> (r: (Self, Action))
        requires
            self is Finishing,
        ensures
            r == self.spec_poll_finishing(outcome),
    {
        match self {
            Transaction2::Finishing { client, result } => match (result, outcome) {
                (Result::Ok(value), Result::Ok(_)) => (
                    Transaction2::Finished { client, value },
                    Action::Stop,
                ),
                (Result::Ok(_), Result::Err(ce)) => (
                    Transaction2::Failed { client, error: E::from_conn(ce) },
                    Action::Stop,
                ),
                (Result::Err(error), _) => (
                    Transaction2::Failed { client, error },
                    Action::Stop,
                ),
            },
            _ => unreached(),
        }
    }

    /// Whether the machine itself holds the connection right now: true in
    /// every state but `Running`, where the operation holds it instead.
    pub fn has_client(&self) -> (r: bool)
        ensures
            r == self.holds_client(),
    {
        match self {
            Transaction2::Running => false,
            _ => true,
        }
    }

    /// Whether the machine has reached a terminal state.
    pub fn done(&self) -> (r: bool)
        ensures
            r == self.is_terminal(),
    {
        match self {
            Transaction2::Finished { .. } => true,
            Transaction2::Failed { .. } => true,
            _ => false,
        }
    }

    /// Take the terminal state apart: the connection always comes back,
    /// paired with the operation's value on success and with the one
    /// reported error on failure.
    pub fn into_parts(self) -> (r: (Client, Result<T, E>))
        requires
            self.is_terminal(),
        ensures
            r.0 == self.client_of(),
            self matches Transaction2::Finished { value, .. } ==> r.1 == Result::<T, E>::Ok(
                value,
            ),
            self matches Transaction2::Failed { error, .. } ==> r.1 == Result::<T, E>::Err(
                error,
            ),
    {
        match self {
            Transaction2::Finished { client, value } => (client, Result::Ok(value)),
            Transaction2::Failed { client, error } => (client, Result::Err(error)),
            _ => unreached(),
        }
    }
}

/// The statements a complete run issues, given `BEGIN`'s outcome and the
/// operation's: `BEGIN` alone when `BEGIN` fails (the operation never runs
/// and there is nothing to roll back), otherwise `BEGIN` followed by the
/// closing statement chosen from the operation's outcome.
pub open spec fn run_statements<T, E>(
    begin: Result<(), ConnError>,
    op: Result<T, E>,
) -> Seq<Stmt> {
    match begin {
        Result::Err(_) => seq![Stmt::Begin],
        Result::Ok(_) => match op {
            Result::Ok(_) => seq![Stmt::Begin, Stmt::Commit],
            Result::Err(_) => seq![Stmt::Begin, Stmt::Rollback],
        },
    }
}

/// The terminal state a complete run reaches: the connection always comes
/// back to the caller, paired with the operation's value when everything
/// succeeded, and otherwise with one error chosen by priority — a failed
/// `BEGIN` reports the `BEGIN` error, a failed operation reports its own
/// error even if `ROLLBACK` also failed, and a failed `COMMIT` after a
/// successful operation reports the `COMMIT` error.
pub open spec fn run_outcome<T, E: FromConnError>(
    client: Client,
    begin: Result<(), ConnError>,
    op: Result<T, E>,
    closing: Result<(), ConnError>,
) -> Transaction2<T, E> {
    match begin {
        Result::Err(be) => Transaction2::Failed { client, error: E::spec_from_conn(be) },
        Result::Ok(_) => match (op, closing) {
            (Result::Ok(value), Result::Ok(_)) => Transaction2::Finished { client, value },
            (Result::Ok(_), Result::Err(ce)) => Transaction2::Failed {
                client,
                error: E::spec_from_conn(ce),
            },
            (Result::Err(error), _) => Transaction2::Failed { client, error },
        },
    }
}

/// A complete run of the machine, chained from the transition functions
/// exactly as a driver chains the `poll_*` calls: the statements issued, in
/// order, and the terminal state reached. The handle fed back in the running
/// step is the very handle the machine handed out, which is what the
/// operation's contract obliges it to return.
pub open spec fn spec_run<T, E: FromConnError>(
    client: Client,
    begin: Result<(), ConnError>,
    op: Result<T, E>,
    closing: Result<(), ConnError>,
) -> (Seq<Stmt>, Transaction2<T, E>) {
    let s0 = Transaction2::<T, E>::Start { client };
    let (s1, a1) = s0.spec_poll_start();
    let first = match a1 {
        Action::Exec(stmt) => stmt,
        _ => arbitrary(),
    };
    let (s2, a2) = s1.spec_poll_beginning(begin);
    if begin is Err {
        (seq![first], s2)
    } else {
        let h = match a2 {
            Action::Run(h) => h,
            _ => arbitrary(),
        };
        let (s3, a3) = s2.spec_poll_running(h, op);
        let second = match a3 {
            Action::Exec(stmt) => stmt,
            _ => arbitrary(),
        };
        let (s4, _a4) = s3.spec_poll_finishing(closing);
        (seq![first, second], s4)
    }
}

/// A complete run issues exactly the statements of `run_statements` and ends
/// in exactly the terminal state of `run_outcome`: the protocol of the
/// transition functions, chained, meets the declarative description.
pub proof fn lemma_run_protocol<T, E: FromConnError>(
    client: Client,
    begin: Result<(), ConnError>,
    op: Result<T, E>,
    closing: Result<(), ConnError>,
)
    ensures
        spec_run(client, begin, op, closing).0 == run_statements(begin, op),
        spec_run(client, begin, op, closing).1 == run_outcome(client, begin, op, closing),
{
    crate::conn::lemma_wrapping_carries_client(client);
    assert(spec_run(client, begin, op, closing).0 =~= run_statements(begin, op));
}

/// For every successful operation, whatever `COMMIT` then does, the
/// statements issued are exactly `BEGIN` followed by `COMMIT`, in that
/// order.
pub proof fn lemma_success_issues_begin_then_commit<T, E: FromConnError>(
    client: Client,
    op: Result<T, E>,
    closing: Result<(), ConnError>,
)
    requires
        op is Ok,
    ensures
        spec_run(client, Result::<(), ConnError>::Ok(()), op, closing).0 == seq![
            Stmt::Begin,
            Stmt::Commit,
        ],
{
    lemma_run_protocol(client, Result::<(), ConnError>::Ok(()), op, closing);
}

/// For every failing operation, whatever `ROLLBACK` then does, the
/// statements issued are exactly `BEGIN` followed by `ROLLBACK`, in that
/// order.
pub proof fn lemma_failure_issues_begin_then_rollback<T, E: FromConnError>(
    client: Client,
    op: Result<T, E>,
    closing: Result<(), ConnError>,
)
    requires
        op is Err,
    ensures
        spec_run(client, Result::<(), ConnError>::Ok(()), op, closing).0 == seq![
            Stmt::Begin,
            Stmt::Rollback,
        ],
{
    lemma_run_protocol(client, Result::<(), ConnError>::Ok(()), op, closing);
}

/// If `BEGIN` fails, no `COMMIT` or `ROLLBACK` is ever issued, and the
/// reported error is the `BEGIN` failure, converted into the unified error
/// type; the connection still comes back to the caller.
pub proof fn lemma_begin_failure_aborts_alone<T, E: FromConnError>(
    client: Client,
    be: ConnError,
    op: Result<T, E>,
    closing: Result<(), ConnError>,
)
    ensures
        spec_run(client, Result::<(), ConnError>::Err(be), op, closing).0 == seq![Stmt::Begin],
        !spec_run(client, Result::<(), ConnError>::Err(be), op, closing).0.contains(Stmt::Commit),
        !spec_run(client, Result::<(), ConnError>::Err(be), op, closing).0.contains(
            Stmt::Rollback,
        ),
        spec_run(client, Result::<(), ConnError>::Err(be), op, closing).1 == (Transaction2::<
            T,
            E,
        >::Failed { client, error: E::spec_from_conn(be) }),
{
    lemma_run_protocol(client, Result::<(), ConnError>::Err(be), op, closing);
    let stmts = spec_run(client, Result::<(), ConnError>::Err(be), op, closing).0;
    assert(stmts == seq![Stmt::Begin]);
    assert(forall|i: int| 0 <= i < stmts.len() ==> stmts[i] == Stmt::Begin);
}

/// If the operation fails and `ROLLBACK` also fails, the reported error is
/// the operation's own error: the rollback's failure is discarded.
pub proof fn lemma_operation_error_outlives_rollback_failure<T, E: FromConnError>(
    client: Client,
    oe: E,
    ce: ConnError,
)
    ensures
        spec_run(
            client,
            Result::<(), ConnError>::Ok(()),
            Result::<T, E>::Err(oe),
            Result::<(), ConnError>::Err(ce),
        ).1 == (Transaction2::<T, E>::Failed { client, error: oe }),
{
    lemma_run_protocol(
        client,
        Result::<(), ConnError>::Ok(()),
        Result::<T, E>::Err(oe),
        Result::<(), ConnError>::Err(ce),
    );
}

/// If the operation succeeds and `COMMIT` fails, the reported error is the
/// `COMMIT` failure, converted into the unified error type.
pub proof fn lemma_commit_failure_is_reported<T, E: FromConnError>(
    client: Client,
    value: T,
    ce: ConnError,
)
    ensures
        spec_run(
            client,
            Result::<(), ConnError>::Ok(()),
            Result::<T, E>::Ok(value),
            Result::<(), ConnError>::Err(ce),
        ).1 == (Transaction2::<T, E>::Failed { client, error: E::spec_from_conn(ce) }),
{
    lemma_run_protocol(
        client,
        Result::<(), ConnError>::Ok(()),
        Result::<T, E>::Ok(value),
        Result::<(), ConnError>::Err(ce),
    );
}

/// If the operation succeeds and `COMMIT` succeeds, the run finishes with
/// exactly the operation's value, and the connection that comes back is the
/// very connection that went in.
pub proof fn lemma_success_returns_value_and_connection<T, E: FromConnError>(
    client: Client,
    value: T,
)
    ensures
        spec_run(
            client,
            Result::<(), ConnError>::Ok(()),
            Result::<T, E>::Ok(value),
            Result::<(), ConnError>::Ok(()),
        ).1 == (Transaction2::<T, E>::Finished { client, value }),
        spec_run(
            client,
            Result::<(), ConnError>::Ok(()),
            Result::<T, E>::Ok(value),
            Result::<(), ConnError>::Ok(()),
        ).1.client_of() == client,
{
    lemma_run_protocol(
        client,
        Result::<(), ConnError>::Ok(()),
        Result::<T, E>::Ok(value),
        Result::<(), ConnError>::Ok(()),
    );
}

/// The connection never has two owners at once. The moment the operation is
/// invoked — the transition out of `Beginning` on a successful `BEGIN` — the
/// machine holds no connection at all, and the scoped handle it hands out
/// carries exactly the connection it held; the moment the machine resumes —
/// the transition out of `Running` — the handle is consumed and the machine
/// holds its connection again.
pub proof fn lemma_handle_exclusive_during_run<T, E: FromConnError>(
    s: Transaction2<T, E>,
    h: CountedClient,
    op: Result<T, E>,
)
    requires
        s is Beginning,
    ensures
        ({
            let (running, action) = s.spec_poll_beginning(Result::<(), ConnError>::Ok(()));
            &&& !running.holds_client()
            &&& action matches Action::Run(given) && given.client_spec() == s.client_of()
            &&& {
                let (fin, _) = running.spec_poll_running(h, op);
                fin.holds_client() && fin.client_of() == h.client_spec()
            }
        }),
{
    crate::conn::lemma_wrapping_carries_client(s.client_of());
}

} // verus!
