use crate::app::command::create_short_url::{CreateShortUrlCommand, CreateShortUrlRepository};
use crate::app::query::get_full_url::{GetFullUrlQuery, GetFullUrlRepository};
use crate::id_provider::IDProvider;
use vstd::prelude::*;

verus! {

/// The two use cases, assembled and handed out as one unit.
pub struct Container<I, R, Q> where
    I: IDProvider,
    R: CreateShortUrlRepository,
    Q: GetFullUrlRepository,
 {
    pub shorten_command: CreateShortUrlCommand<I, R>,
    pub get_full_url_query: GetFullUrlQuery<Q>,
}

impl<I, R, Q> Container<I, R, Q> where
    I: IDProvider,
    R: CreateShortUrlRepository,
    Q: GetFullUrlRepository,
 {
    /// Builds the create use case from `id_provider` and `repository`, and
    /// the resolve use case from `querier`.
    pub fn new(id_provider: I, repository: R, querier: Q) -> (container: Self)
        ensures
            container.shorten_command.provider() == id_provider,
            container.shorten_command.repository() == repository,
            container.get_full_url_query.repository() == querier,
    {
        let shorten_command = CreateShortUrlCommand::new(id_provider, repository);
        let get_full_url_query = GetFullUrlQuery::new(querier);

        Container { shorten_command, get_full_url_query }
    }
}

} // verus!
