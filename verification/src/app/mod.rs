use crate::app::command::create_short_url::{canonical_url, saved};
use crate::app::query::get_full_url::resolved;
use crate::error::AppError;
use vstd::prelude::*;

pub mod command;
pub mod query;

verus! {

/// Resolving the code under which a create call stored an absolute URL gives
/// the canonical form of that URL, whatever the store held before.
pub proof fn lemma_create_then_resolve(
    mappings: Map<Seq<char>, Seq<char>>,
    raw: Seq<char>,
    code: Seq<char>,
)
    requires
        canonical_url(raw) is Some,
    ensures
        resolved(saved(mappings, canonical_url(raw)->0, code), code) == Ok::<Seq<char>, AppError>(
            canonical_url(raw)->0,
        ),
{
}

/// A code that the store does not hold resolves to `NotFound`.
pub proof fn lemma_absent_code_not_found(mappings: Map<Seq<char>, Seq<char>>, code: Seq<char>)
    requires
        !mappings.dom().contains(code),
    ensures
        resolved(mappings, code) == Err::<Seq<char>, AppError>(AppError::NotFound),
{
}

/// Storing a URL under one code changes what no other code resolves to.
pub proof fn lemma_other_codes_untouched(
    mappings: Map<Seq<char>, Seq<char>>,
    url: Seq<char>,
    code: Seq<char>,
    other: Seq<char>,
)
    requires
        other != code,
    ensures
        resolved(saved(mappings, url, code), other) == resolved(mappings, other),
{
}

/// Storing under a code that is already in use overwrites: the code then
/// resolves to the later URL, and the store holds no more codes than before.
pub proof fn lemma_reused_code_overwrites(
    mappings: Map<Seq<char>, Seq<char>>,
    first: Seq<char>,
    second: Seq<char>,
    code: Seq<char>,
)
    ensures
        saved(saved(mappings, first, code), second, code) == saved(mappings, second, code),
        resolved(saved(saved(mappings, first, code), second, code), code) == Ok::<
            Seq<char>,
            AppError,
        >(second),
{
    assert(mappings.insert(code, first).insert(code, second) =~= mappings.insert(code, second));
}

/// Two stores under different codes give the same mappings in either order,
/// and each code then resolves to its own URL.
pub proof fn lemma_distinct_saves_commute(
    mappings: Map<Seq<char>, Seq<char>>,
    first_url: Seq<char>,
    first_code: Seq<char>,
    second_url: Seq<char>,
    second_code: Seq<char>,
)
    requires
        first_code != second_code,
    ensures
        saved(saved(mappings, first_url, first_code), second_url, second_code) == saved(
            saved(mappings, second_url, second_code),
            first_url,
            first_code,
        ),
        resolved(
            saved(saved(mappings, first_url, first_code), second_url, second_code),
            first_code,
        ) == Ok::<Seq<char>, AppError>(first_url),
        resolved(
            saved(saved(mappings, first_url, first_code), second_url, second_code),
            second_code,
        ) == Ok::<Seq<char>, AppError>(second_url),
{
    assert(mappings.insert(first_code, first_url).insert(second_code, second_url)
        =~= mappings.insert(second_code, second_url).insert(first_code, first_url));
}

} // verus!
