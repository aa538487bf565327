//! Owned handles for a database and its connections, and the text
//! arguments of the native calls.
use vstd::prelude::*;
use crate::error::DbError;
use crate::result::{resolves_to, RawResult, ResolvedResult};
use crate::state::DuckDBState;
use vstd::string::StringSliceAdditionalSpecFns;

verus! {

/// A string as a C string: its bytes then a zero, where it holds no zero
/// byte of its own.
pub open spec fn c_string_of(b: Seq<u8>) -> Option<Seq<u8>> {
    if b.contains(0u8) {
        None
    } else {
        Some(b.push(0u8))
    }
}

/// The bytes to hand to a native call that takes a C string.
pub fn c_string(s: &str) -> (r: Option<Vec<u8>>)
    ensures
        r is Some <==> c_string_of(s.spec_bytes()) is Some,
        r is Some ==> r->Some_0@ == c_string_of(s.spec_bytes())->Some_0,
{
    let b = s.as_bytes();
    let mut out: Vec<u8> = Vec::new();
    let mut i: usize = 0;
    while i < b.len()
        invariant
            b@ == s.spec_bytes(),
            i <= b@.len(),
            out@ == b@.take(i as int),
            !out@.contains(0u8),
        decreases b@.len() - i,
    {
        if b[i] == 0 {
            assert(b@[i as int] == 0u8);
            return None;
        }
        out.push(b[i]);
        i = i + 1;
        assert(out@ =~= b@.take(i as int));
    }
    assert(b@.take(i as int) =~= b@);
    out.push(0);
    Some(out)
}

/// The path argument of the native open call: `None` (a null pointer)
/// selects an in-memory database; a path that holds a zero byte cannot be
/// handed over and fails to open.
pub fn open_path(path: Option<&str>) -> (r: Result<Option<Vec<u8>>, DbError>)
    ensures
        path is None ==> r == Ok::<Option<Vec<u8>>, DbError>(None),
        path is Some ==> (r is Ok <==> c_string_of(path->Some_0.spec_bytes()) is Some),
        path is Some && r is Ok ==> r->Ok_0 is Some && r->Ok_0->Some_0@ == c_string_of(
            path->Some_0.spec_bytes(),
        )->Some_0,
        r is Err ==> r == Err::<Option<Vec<u8>>, DbError>(DbError::OpenError),
{
    match path {
        None => Ok(None),
        Some(p) => match c_string(p) {
            Some(b) => Ok(Some(b)),
            None => Err(DbError::OpenError),
        },
    }
}

/// An open database, owning the handle that the native open call gave.
#[derive(Debug)]
pub struct DB {
    db: usize,
}

/// A connection, owning its native handle and borrowing the database it
/// was made on, which therefore outlives it.
#[derive(Debug)]
pub struct Connection<'db> {
    db: &'db DB,
    connection: usize,
}

impl DB {
    pub closed spec fn spec_handle(&self) -> usize {
        self.db
    }

    /// Takes what the native open call left: its status and the handle it
    /// wrote. An error status is an `OpenError`.
    pub fn new(status: DuckDBState, handle: usize) -> (r: Result<DB, DbError>)
        ensures
            r is Ok <==> status == DuckDBState::DuckDBSuccess,
            r is Ok ==> r->Ok_0.spec_handle() == handle,
            r is Err ==> r == Err::<DB, DbError>(DbError::OpenError),
    {
        match status {
            DuckDBState::DuckDBSuccess => Ok(DB { db: handle }),
            DuckDBState::DuckDBError => Err(DbError::OpenError),
        }
    }

    pub fn handle(&self) -> (r: usize)
        ensures
            r == self.spec_handle(),
    {
        self.db
    }

    /// Takes what the native connect call left on this database. An error
    /// status is a `ConnectError`; the database itself is only borrowed.
    pub fn connection(&self, status: DuckDBState, handle: usize) -> (r: Result<Connection<'_>, DbError>)
        ensures
            r is Ok <==> status == DuckDBState::DuckDBSuccess,
            r is Ok ==> r->Ok_0.spec_handle() == handle && r->Ok_0.spec_database() == *self,
            r is Err ==> r == Err::<Connection<'_>, DbError>(DbError::ConnectError),
    {
        match status {
            DuckDBState::DuckDBSuccess => Ok(Connection { db: self, connection: handle }),
            DuckDBState::DuckDBError => Err(DbError::ConnectError),
        }
    }

    /// Gives up the database, handing back the handle for the native close
    /// call. No connection can be alive here: each borrows the database.
    pub fn close(self) -> (r: usize)
        ensures
            r == self.spec_handle(),
    {
        self.db
    }
}

impl<'db> Connection<'db> {
    pub closed spec fn spec_handle(&self) -> usize {
        self.connection
    }

    pub closed spec fn spec_database(&self) -> DB {
        *self.db
    }

    pub fn handle(&self) -> (r: usize)
        ensures
            r == self.spec_handle(),
    {
        self.connection
    }

    pub fn database(&self) -> (r: &DB)
        ensures
            *r == self.spec_database(),
    {
        self.db
    }

    /// Takes what the native query call left on this connection: its status
    /// and the result structure, read out. See [`ResolvedResult::resolve`].
    pub fn query(&self, status: DuckDBState, raw: RawResult) -> (r: Result<ResolvedResult, DbError>)
        ensures
            resolves_to(status, raw, r),
            r is Err && r->Err_0 is QueryError ==> r->Err_0->QueryError_0@.len() > 0,
    {
        ResolvedResult::resolve(status, raw)
    }

    /// Gives up the connection, handing back the handle for the native
    /// disconnect call. The database stays open.
    pub fn disconnect(self) -> (r: usize)
        ensures
            r == self.spec_handle(),
    {
        self.connection
    }
}

} // verus!
