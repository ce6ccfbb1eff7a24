use crate::app::command::create_short_url::{saved, CreateShortUrlRepository};
use crate::app::query::get_full_url::{outcome, resolved, GetFullUrlRepository};
use crate::error::AppError;
use dashmap::DashMap;
use vstd::prelude::*;

verus! {

/// `dashmap::DashMap`, the sharded map that holds the mappings. Nothing of
/// its insides is visible here; `store_contents` names what it holds.
#[verifier::external_type_specification]
#[verifier::external_body]
#[verifier::reject_recursive_types(K)]
#[verifier::reject_recursive_types(V)]
#[verifier::reject_recursive_types(S)]
pub struct ExDashMap<K, V, S>(DashMap<K, V, S>);

/// The entries of a `DashMap` of strings, each key and value by its view.
/// `DashMap` can be written to through a shared borrow; this module writes to
/// it through an exclusive one only and hands no borrow of it out, so what a
/// map holds changes nowhere but in `store_insert`.
pub uninterp spec fn store_contents(store: DashMap<String, String>) -> Map<Seq<char>, Seq<char>>;

/// Calls `DashMap::insert`, which puts the value under the key and replaces
/// what the key held. The exclusive borrow keeps every other holder away for
/// the length of the call, so the entries afterwards are those before it
/// with this one put in.
#[verifier::external_body]
fn store_insert(store: &mut DashMap<String, String>, key: String, value: String)
    ensures
        store_contents(*final(store)) == store_contents(*old(store)).insert(key@, value@),
{
    store.insert(key, value);
}

/// Calls `DashMap::get` and copies the value out of the entry it finds: the
/// value under the key, or nothing where the key is absent. The entry, and
/// with it the lock on its shard, is let go before the call returns.
#[verifier::external_body]
fn store_get(store: &DashMap<String, String>, key: &str) -> (found: Option<String>)
    ensures
        match found {
            Some(value) => {
                &&& store_contents(*store).dom().contains(key@)
                &&& store_contents(*store)[key@] == value@
            },
            None => !store_contents(*store).dom().contains(key@),
        },
{
    store.get(key).map(|entry| entry.value().clone())
}

/// Calls `DashMap::len`, the number of entries.
#[verifier::external_body]
fn store_len(store: &DashMap<String, String>) -> (size: usize)
    ensures
        size == store_contents(*store).len(),
{
    store.len()
}

/// A repository that keeps its mappings in memory, in a map of its own.
pub struct InMemoryRepository {
    store: DashMap<String, String>,
}

impl View for InMemoryRepository {
    type V = Map<Seq<char>, Seq<char>>;

    /// The mappings held, from short code to canonical URL.
    closed spec fn view(&self) -> Map<Seq<char>, Seq<char>> {
        store_contents(self.store)
    }
}

impl InMemoryRepository {
    /// A repository over `store`, with the entries that `store` holds.
    pub fn new(store: DashMap<String, String>) -> (repo: Self)
        ensures
            repo@ == store_contents(store),
    {
        Self { store }
    }

    /// The number of mappings held.
    pub fn len(&self) -> (count: usize)
        ensures
            count == self@.len(),
    {
        store_len(&self.store)
    }
}

impl CreateShortUrlRepository for InMemoryRepository {
    open spec fn mappings(&self) -> Map<Seq<char>, Seq<char>> {
        self@
    }

    open spec fn infallible(&self) -> bool {
        true
    }

    /// Never fails.
    fn save(&mut self, full_url: String, id: String) -> (written: Result<(), AppError>)
        ensures
            written is Ok,
            final(self)@ == saved(old(self)@, full_url@, id@),
    {
        store_insert(&mut self.store, id, full_url);
        Ok(())
    }
}

impl GetFullUrlRepository for InMemoryRepository {
    open spec fn mappings(&self) -> Map<Seq<char>, Seq<char>> {
        self@
    }

    open spec fn infallible(&self) -> bool {
        true
    }

    /// Never fails but with `NotFound`, and with it exactly where `id` is
    /// not held.
    fn get(&self, id: &str) -> (found: Result<String, AppError>)
        ensures
            outcome(found) == resolved(self@, id@),
    {
        match store_get(&self.store, id) {
            Some(url) => Ok(url),
            None => Err(AppError::NotFound),
        }
    }
}

/// Both sides of an in-memory repository work on the same mappings, and
/// neither can fail.
pub proof fn lemma_one_store_behind_both_sides(repo: InMemoryRepository)
    ensures
        CreateShortUrlRepository::mappings(&repo) == repo@,
        GetFullUrlRepository::mappings(&repo) == repo@,
        CreateShortUrlRepository::infallible(&repo),
        GetFullUrlRepository::infallible(&repo),
{
}

} // verus!
