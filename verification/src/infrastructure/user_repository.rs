//! The user repository backed by a database. Its queries are I/O and run
//! outside the verified library; this module holds the repository's state.
use vstd::prelude::*;

verus! {

/// The user repository: the connection pool its queries run on. The pool
/// type is a parameter (the service uses a PostgreSQL pool).
#[derive(Clone)]
pub struct UserRepositoryImpl<P> {
    pub pool: P,
}

impl<P> UserRepositoryImpl<P> {
    /// The repository that runs its queries on `pool`.
    pub fn new(pool: P) -> (repo: Self)
        ensures
            repo.pool == pool,
    {
        Self { pool }
    }
}

} // verus!
