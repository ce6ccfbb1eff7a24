use dashmap::DashMap;
use urlshortner::adapters::inmemory::InMemoryRepository;
use urlshortner::app::command::create_short_url::CreateShortUrlCommand;
use urlshortner::app::query::get_full_url::{GetFullUrlQuery, GetFullUrlRepository};
use urlshortner::di::Container;
use urlshortner::error::AppError;
use urlshortner::id_provider::{FakeIDProvider, NanoIDProvider};

#[test]
fn create_and_get_short_url() {
    // Given
    let repo = InMemoryRepository::new(DashMap::new());
    let mut create_command = CreateShortUrlCommand::new(NanoIDProvider, repo);

    // When
    let result = create_command.execute("https://www.google.com");
    let get_query = GetFullUrlQuery::new(create_command.repo());
    let result2 = get_query.execute(&result.unwrap()).unwrap();

    // Then
    assert_eq!(result2, "https://www.google.com/".to_owned());
}

#[test]
fn container_holds_both_use_cases() {
    let written = DashMap::new();
    let read = DashMap::new();
    read.insert("test-id".to_owned(), "test-url".to_owned());

    let mut container = Container::new(
        FakeIDProvider::new("test-id".to_owned()),
        InMemoryRepository::new(written),
        InMemoryRepository::new(read),
    );

    assert_eq!(
        container.shorten_command.execute("https://example.com"),
        Ok("test-id".to_owned())
    );
    assert_eq!(
        container.shorten_command.repo().get("test-id"),
        Ok("https://example.com/".to_owned())
    );
    assert_eq!(
        container.get_full_url_query.execute("test-id"),
        Ok("test-url".to_owned())
    );
    assert_eq!(
        container.get_full_url_query.execute("other"),
        Err(AppError::NotFound)
    );
}
