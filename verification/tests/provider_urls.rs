use moviebot::imdb::ImdbApi;
use moviebot::imdb::UsageData;
use moviebot::transcripts::Language;

#[test]
fn search_url_uses_the_callers_key() {
    let api = ImdbApi::new("shared".to_string());
    assert_eq!(
        api.search_api("own-key", "The Matrix"),
        "https://imdb-api.com/API/SearchTitle/own-key/The Matrix"
    );
}

#[test]
fn empty_key_falls_back_to_the_shared_default() {
    let api = ImdbApi::new("shared".to_string());
    assert_eq!(api.api_key_or_default(""), "shared");
    assert_eq!(api.api_key_or_default("own"), "own");
    assert_eq!(
        api.search_api("", "Dune"),
        "https://imdb-api.com/API/SearchTitle/shared/Dune"
    );
}

#[test]
fn title_info_url_carries_the_locale() {
    let api = ImdbApi::new("shared".to_string());
    assert_eq!(
        api.title_info_api("k", "tt0133093", Language::En),
        "https://imdb-api.com/en/API/Title/k/tt0133093"
    );
}

#[test]
fn usage_url_names_the_usage_endpoint() {
    let api = ImdbApi::new("shared".to_string());
    assert_eq!(api.usage_api(""), "https://imdb-api.com/Usage/shared");
}

#[test]
fn usage_data_keeps_its_counters() {
    let usage = UsageData::new(42, 100);
    assert_eq!(usage.count, 42);
    assert_eq!(usage.maximum, 100);
}
