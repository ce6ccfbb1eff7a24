use crate::error::AppError;
use crate::id_provider::IDProvider;
use vstd::prelude::*;

verus! {

/// The canonical text of the absolute URL that `raw` spells, as the `url`
/// crate parses and writes it; `None` where `raw` is no absolute URL.
pub uninterp spec fn canonical_url(raw: Seq<char>) -> Option<Seq<char>>;

/// `url::ParseError`, the reason for which the `url` crate refuses a text.
/// The use case does not tell the reasons apart.
#[verifier::external_type_specification]
#[verifier::external_body]
pub struct ExParseError(url::ParseError);

/// Calls `url::Url::parse` and, on success, turns the URL into its
/// serialization (`String::from`). Parsing depends on the text alone, so its
/// result is named: `canonical_url`.
#[verifier::external_body]
fn parse_url(raw: &str) -> (parsed: Result<String, url::ParseError>)
    ensures
        match parsed {
            Ok(url) => canonical_url(raw@) == Some(url@),
            Err(_) => canonical_url(raw@) is None,
        },
{
    url::Url::parse(raw).map(String::from)
}

/// Checks that `full_url` is an absolute URL and gives its canonical text.
pub fn validate(full_url: &str) -> (checked: Result<String, AppError>)
    ensures
        match checked {
            Ok(url) => canonical_url(full_url@) == Some(url@),
            Err(error) => error == AppError::URLParseError && canonical_url(full_url@) is None,
        },
{
    match parse_url(full_url) {
        Ok(url) => Ok(url),
        Err(_) => Err(AppError::URLParseError),
    }
}

/// The mappings after `url` has been stored under `code`: an earlier mapping
/// of `code` is overwritten, every other one stays.
pub open spec fn saved(mappings: Map<Seq<char>, Seq<char>>, url: Seq<char>, code: Seq<char>) -> Map<
    Seq<char>,
    Seq<char>,
> {
    mappings.insert(code, url)
}

/// The writing side of a store of mappings.
pub trait CreateShortUrlRepository {
    /// The mappings held, from short code to canonical URL. A store that
    /// does not say otherwise holds none.
    open spec fn mappings(&self) -> Map<Seq<char>, Seq<char>> {
        Map::empty()
    }

    /// Whether the backing store never fails. A store that does not say
    /// otherwise may fail.
    open spec fn infallible(&self) -> bool {
        false
    }

    /// Stores `full_url` under `id`, overwriting what was there. A store that
    /// can fail answers `StorageFailure` and then has written nothing.
    fn save(&mut self, full_url: String, id: String) -> (written: Result<(), AppError>)
        ensures
            final(self).infallible() == old(self).infallible(),
            match written {
                Ok(_) => final(self).mappings() == saved(old(self).mappings(), full_url@, id@),
                Err(error) => error == AppError::StorageFailure && !old(self).infallible()
                    && final(self).mappings() == old(self).mappings(),
            },
    ;
}

/// The use case that stores a URL under a fresh short code.
pub struct CreateShortUrlCommand<I, R> where I: IDProvider, R: CreateShortUrlRepository {
    id_provider: I,
    repo: R,
}

impl<I, R> CreateShortUrlCommand<I, R> where I: IDProvider, R: CreateShortUrlRepository {
    /// The provider that this command takes its codes from.
    pub closed spec fn provider(&self) -> I {
        self.id_provider
    }

    /// The repository that this command writes to.
    pub closed spec fn repository(&self) -> R {
        self.repo
    }

    /// A command that takes codes from `id_provider` and writes to `repo`.
    pub fn new(id_provider: I, repo: R) -> (command: Self)
        ensures
            command.provider() == id_provider,
            command.repository() == repo,
    {
        Self { id_provider, repo }
    }

    /// The repository that this command writes to, for reading.
    pub fn repo(&self) -> (repo: &R)
        ensures
            *repo == self.repository(),
    {
        &self.repo
    }

    /// Stores the canonical URL `url` under a code of the provider and
    /// returns that code. There is no retry: a code already in use has its
    /// mapping overwritten.
    pub fn store(&mut self, url: String) -> (created: Result<String, AppError>)
        ensures
            final(self).provider() == old(self).provider(),
            final(self).repository().infallible() == old(self).repository().infallible(),
            match created {
                Ok(code) => {
                    &&& old(self).provider().provides(code@)
                    &&& final(self).repository().mappings() == saved(
                        old(self).repository().mappings(),
                        url@,
                        code@,
                    )
                },
                Err(error) => {
                    &&& error == AppError::StorageFailure
                    &&& !old(self).repository().infallible()
                    &&& final(self).repository().mappings() == old(self).repository().mappings()
                },
            },
    {
        let id = self.id_provider.provide();
        match self.repo.save(url, id.clone()) {
            Ok(_) => Ok(id),
            Err(error) => Err(error),
        }
    }

    /// Creates a mapping for `full_url`. Text that is no absolute URL is
    /// refused with `URLParseError` and nothing is written. Otherwise the
    /// canonical form of the URL is stored under a code of the provider, and
    /// the code is returned; only a store that can fail may refuse, with
    /// `StorageFailure`, and then nothing is written either.
    pub fn execute(&mut self, full_url: &str) -> (created: Result<String, AppError>)
        ensures
            final(self).provider() == old(self).provider(),
            final(self).repository().infallible() == old(self).repository().infallible(),
            match created {
                Ok(code) => {
                    &&& canonical_url(full_url@) is Some
                    &&& old(self).provider().provides(code@)
                    &&& final(self).repository().mappings() == saved(
                        old(self).repository().mappings(),
                        canonical_url(full_url@)->0,
                        code@,
                    )
                },
                Err(error) => {
                    &&& final(self).repository().mappings() == old(self).repository().mappings()
                    &&& canonical_url(full_url@) is None ==> error == AppError::URLParseError
                    &&& canonical_url(full_url@) is Some ==> error == AppError::StorageFailure
                        && !old(self).repository().infallible()
                },
            },
    {
        match validate(full_url) {
            Ok(url) => self.store(url),
            Err(error) => Err(error),
        }
    }
}

} // verus!
