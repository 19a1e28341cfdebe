//! Transactional execution wrapper for an asynchronous database client.
//!
//! Given a live connection and a caller-supplied operation, the machine in
//! [`machine`] issues `BEGIN`, hands the connection to the operation through a
//! scoped handle, then issues `COMMIT` or `ROLLBACK` depending on the
//! operation's outcome, and finally yields the connection together with the
//! operation's result. The machine itself performs no I/O: it is advanced by
//! an outside driver that executes the statements it asks for and reports
//! their outcomes back as plain values.

pub mod conn;
pub mod machine;
