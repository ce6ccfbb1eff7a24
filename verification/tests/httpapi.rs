use dashmap::DashMap;
use urlshortner::adapters::inmemory::InMemoryRepository;
use urlshortner::app::command::create_short_url::CreateShortUrlCommand;
use urlshortner::app::query::get_full_url::GetFullUrlQuery;
use urlshortner::error::AppError;
use urlshortner::id_provider::FakeIDProvider;
use urlshortner::httpapi::error_response;

fn command_over_two_mappings() -> CreateShortUrlCommand<FakeIDProvider, InMemoryRepository> {
    let store = DashMap::new();
    store.insert("test-id".to_owned(), "test-url".to_owned());
    store.insert("test-id-2".to_owned(), "test-url-2".to_owned());

    CreateShortUrlCommand::new(
        FakeIDProvider::new("test-id".to_owned()),
        InMemoryRepository::new(store),
    )
}

#[test]
fn test_get_full_url() {
    let command = command_over_two_mappings();
    let query = GetFullUrlQuery::new(command.repo());

    assert_eq!(query.execute("test-id"), Ok("test-url".to_owned()));
}

#[test]
fn get_not_found() {
    let command = command_over_two_mappings();
    let query = GetFullUrlQuery::new(command.repo());

    let error = query.execute("not-found").unwrap_err();

    assert_eq!(error, AppError::NotFound);
    assert_eq!(error_response(error), (404, "Not found".to_owned()));
}

#[test]
fn test_get_different_id() {
    let command = command_over_two_mappings();
    let query = GetFullUrlQuery::new(command.repo());

    assert_eq!(query.execute("test-id-2"), Ok("test-url-2".to_owned()));
}

#[test]
fn short_url() {
    let mut command = command_over_two_mappings();

    assert_eq!(
        command.execute("https://example.com"),
        Ok("test-id".to_owned())
    );
}

#[test]
fn short_and_get() {
    let mut command = CreateShortUrlCommand::new(
        FakeIDProvider::new("test-id".to_owned()),
        InMemoryRepository::new(DashMap::new()),
    );

    let created = command.execute("https://example.com/");
    let found = GetFullUrlQuery::new(command.repo()).execute("test-id");

    assert_eq!(created, Ok("test-id".to_owned()));
    assert_eq!(found, Ok("https://example.com/".to_owned()));
}

#[test]
fn test_invalid_url() {
    let mut command = command_over_two_mappings();

    let error = command.execute("invalid-url").unwrap_err();

    assert_eq!(error, AppError::URLParseError);
    assert_eq!(error_response(error), (400, "Invalid URL".to_owned()));
}

#[test]
fn storage_failure_is_a_server_error() {
    assert_eq!(
        error_response(AppError::StorageFailure),
        (500, "Storage failure".to_owned())
    );
}

#[test]
fn errors_describe_themselves() {
    assert_eq!(AppError::NotFound.message(), "Not found");
    assert_eq!(AppError::URLParseError.message(), "URL parse error");
    assert_eq!(AppError::StorageFailure.message(), "Storage failure");
}
