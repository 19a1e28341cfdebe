//! The connection resource and the scoped handle that carries it through a
//! transaction's running phase.
//!
//! A [`Client`] stands for exclusive access to one live database connection.
//! It is not copyable: ownership moves from the caller into the transaction
//! machine, from the machine into the operation (wrapped in a
//! [`CountedClient`]), back out of the operation, and finally back to the
//! caller. At any instant exactly one owner holds it; the move semantics make
//! a dangling second reference impossible by construction.

use vstd::prelude::*;

verus! {

/// Exclusive access to one live database connection.
///
/// The connection itself (sockets, buffers, the wire protocol) belongs to the
/// surrounding driver; here a connection is identified by a number so that a
/// caller can check that the very connection it handed in comes back.
pub struct Client {
    id: u64,
}

impl Client {
    /// The identity of the underlying connection.
    pub closed spec fn id_spec(&self) -> u64 {
        self.id
    }

    /// Take exclusive ownership of the connection identified by `id`.
    pub fn new(id: u64) -> (c: Client)
        ensures
            c.id_spec() == id,
    {
        Client { id }
    }

    /// The identity of the underlying connection.
    pub fn id(&self) -> (r: u64)
        ensures
            r == self.id_spec(),
    {
        self.id
    }
}

/// The scoped handle: the form in which the connection is lent to the
/// caller-supplied operation for the duration of the running phase.
///
/// The operation receives a `CountedClient` by value and must hand it back,
/// on its success path and on its failure path alike; that obligation is how
/// ownership provably returns to the transaction machine.
pub struct CountedClient {
    client: Client,
}

impl CountedClient {
    /// The connection this handle carries.
    pub closed spec fn client_spec(&self) -> Client {
        self.client
    }

    /// The handle that carries `client`: the value `CountedClient::new`
    /// returns, usable in specifications.
    pub closed spec fn wrapping(client: Client) -> CountedClient {
        CountedClient { client }
    }

    /// Acquire: wrap the connection for the running phase. The connection
    /// moves into the handle; no copy of it stays behind.
    pub fn new(client: Client) -> (h: CountedClient)
        ensures
            h == CountedClient::wrapping(client),
            h.client_spec() == client,
    {
        CountedClient { client }
    }

    /// Release: give the connection back. Only the current holder of the
    /// handle can call this, and the handle is consumed by it.
    pub fn release(self) -> (c: Client)
        ensures
            c == self.client_spec(),
    {
        self.client
    }

    /// The identity of the connection this handle carries.
    pub fn id(&self) -> (r: u64)
        ensures
            r == self.client_spec().id_spec(),
    {
        self.client.id()
    }
}

/// A handle built by `CountedClient::wrapping` carries exactly the connection
/// it was built from.
pub proof fn lemma_wrapping_carries_client(client: Client)
    ensures
        CountedClient::wrapping(client).client_spec() == client,
{
}

} // verus!
