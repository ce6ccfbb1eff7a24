use crate::error::AppError;
use vstd::prelude::*;

verus! {

/// What a lookup of `code` in `mappings` gives: the URL stored under it, or
/// `NotFound` when nothing is.
pub open spec fn resolved(mappings: Map<Seq<char>, Seq<char>>, code: Seq<char>) -> Result<
    Seq<char>,
    AppError,
> {
    if mappings.dom().contains(code) {
        Ok(mappings[code])
    } else {
        Err(AppError::NotFound)
    }
}

/// The outcome of a lookup with the URL taken by its view.
pub open spec fn outcome(found: Result<String, AppError>) -> Result<Seq<char>, AppError> {
    match found {
        Ok(url) => Ok(url@),
        Err(error) => Err(error),
    }
}

/// The reading side of a store of mappings.
pub trait GetFullUrlRepository {
    /// The mappings held, from short code to canonical URL. A store that
    /// does not say otherwise holds none.
    open spec fn mappings(&self) -> Map<Seq<char>, Seq<char>> {
        Map::empty()
    }

    /// Whether the backing store never fails. A store that does not say
    /// otherwise may fail.
    open spec fn infallible(&self) -> bool {
        false
    }

    /// Looks up the URL stored under `id`. A store that can fail may answer
    /// `StorageFailure` in place of either outcome, and nothing else.
    fn get(&self, id: &str) -> (found: Result<String, AppError>)
        ensures
            outcome(found) == resolved(self.mappings(), id@) || (!self.infallible()
                && outcome(found) == Err::<Seq<char>, AppError>(AppError::StorageFailure)),
    ;
}

/// The use case that resolves a short code to the URL stored under it.
pub struct GetFullUrlQuery<R> where R: GetFullUrlRepository {
    repo: R,
}

impl<R> GetFullUrlQuery<R> where R: GetFullUrlRepository {
    /// The repository that this query reads.
    pub closed spec fn repository(&self) -> R {
        self.repo
    }

    /// A query that reads `repo`.
    pub fn new(repo: R) -> (query: Self)
        ensures
            query.repository() == repo,
    {
        Self { repo }
    }

    /// Resolves `id`: the answer of the repository, unchanged.
    pub fn execute(&self, id: &str) -> (found: Result<String, AppError>)
        ensures
            outcome(found) == resolved(self.repository().mappings(), id@) || (
                !self.repository().infallible()
                && outcome(found) == Err::<Seq<char>, AppError>(AppError::StorageFailure)),
    {
        self.repo.get(id)
    }
}

/// A shared borrow of a repository reads what the repository holds.
impl<'a, T: GetFullUrlRepository> GetFullUrlRepository for &'a T {
    open spec fn mappings(&self) -> Map<Seq<char>, Seq<char>> {
        (**self).mappings()
    }

    open spec fn infallible(&self) -> bool {
        (**self).infallible()
    }

    fn get(&self, id: &str) -> (found: Result<String, AppError>) {
        (**self).get(id)
    }
}

} // verus!
