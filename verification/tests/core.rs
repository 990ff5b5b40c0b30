use headlines::config::{config_or_default, HeadlinesConfig};
use headlines::fetch::{append_articles, fetch_news};
use headlines::news::{card_from_parts, NewsCardData};
use headlines::state::Headlines;
use newsapi::payload::article::{Article, ArticleSource, Articles};

fn sample_article(title: Option<&str>, desc: Option<&str>, url: &str) -> Article {
    Article {
        source: ArticleSource { id: None, name: "somewhere".to_string() },
        author: None,
        title: title.map(|s| s.to_string()),
        description: desc.map(|s| s.to_string()),
        url: url.to_string(),
        url_to_image: None,
        published_at: "2023-01-01T00:00:00Z".to_string(),
        content: None,
    }
}

#[test]
fn default_config_is_dark_with_empty_key() {
    let c = HeadlinesConfig::default();
    assert_eq!(c.dark_mode, true);
    assert_eq!(c.api_key, "");
}

#[test]
fn missing_stored_config_falls_back_to_defaults() {
    let c = config_or_default(None);
    assert_eq!(c.dark_mode, true);
    assert_eq!(c.api_key, "");
}

#[test]
fn stored_config_is_taken_as_it_is() {
    let stored = HeadlinesConfig { dark_mode: false, api_key: "some-api-key".to_string() };
    let c = config_or_default(Some(stored));
    assert_eq!(c.dark_mode, false);
    assert_eq!(c.api_key, "some-api-key");
}

#[test]
fn config_parts_roundtrip() {
    let c = HeadlinesConfig { dark_mode: false, api_key: "some-key".to_string() };
    let (dark_mode, api_key) = c.to_parts();
    let rebuilt = HeadlinesConfig::from_parts(dark_mode, api_key);
    assert_eq!(rebuilt.dark_mode, c.dark_mode);
    assert_eq!(rebuilt.api_key, c.api_key);
}

#[test]
fn card_keeps_present_fields() {
    let card = card_from_parts(
        Some("a title".to_string()),
        Some("a description".to_string()),
        "https://example.org/a".to_string(),
    );
    assert_eq!(card.title, "a title");
    assert_eq!(card.desc, "a description");
    assert_eq!(card.url, "https://example.org/a");
}

#[test]
fn missing_description_becomes_placeholder() {
    let card = card_from_parts(
        Some("a title".to_string()),
        None,
        "https://example.org/a".to_string(),
    );
    assert_eq!(card.desc, "...");
}

#[test]
fn missing_title_becomes_empty() {
    let card = card_from_parts(None, None, "https://example.org/a".to_string());
    assert_eq!(card.title, "");
    assert_eq!(card.desc, "...");
}

#[test]
fn response_articles_are_appended_in_order() {
    let response = Articles {
        status: "ok".to_string(),
        total_results: 2,
        articles: vec![
            sample_article(Some("first"), Some("has a description"), "https://example.org/1"),
            sample_article(Some("second"), None, "https://example.org/2"),
        ],
    };
    let mut cards: Vec<NewsCardData> = Vec::new();
    append_articles(&mut cards, &response);
    assert_eq!(cards.len(), 2);
    assert_eq!(cards[0].title, "first");
    assert_eq!(cards[0].desc, "has a description");
    assert_eq!(cards[0].url, "https://example.org/1");
    assert_eq!(cards[1].title, "second");
    assert_eq!(cards[1].desc, "...");
    assert_eq!(cards[1].url, "https://example.org/2");
}

#[test]
fn append_keeps_earlier_cards() {
    let response = Articles {
        status: "ok".to_string(),
        total_results: 1,
        articles: vec![sample_article(Some("new"), None, "https://example.org/n")],
    };
    let mut cards = vec![card_from_parts(
        Some("old".to_string()),
        Some("kept".to_string()),
        "https://example.org/o".to_string(),
    )];
    append_articles(&mut cards, &response);
    assert_eq!(cards.len(), 2);
    assert_eq!(cards[0].title, "old");
    assert_eq!(cards[1].title, "new");
}

#[test]
fn fetch_with_empty_key_yields_no_articles() {
    let mut cards: Vec<NewsCardData> = Vec::new();
    fetch_news("", &mut cards);
    assert!(cards.is_empty());
}

#[test]
fn fetch_failure_leaves_existing_cards_alone() {
    let mut cards = vec![card_from_parts(
        Some("old".to_string()),
        None,
        "https://example.org/o".to_string(),
    )];
    fetch_news("not-a-valid-key", &mut cards);
    assert_eq!(cards.len(), 1);
    assert_eq!(cards[0].title, "old");
}

#[test]
fn new_state_keeps_config_and_waits_for_key() {
    let config = HeadlinesConfig { dark_mode: false, api_key: "".to_string() };
    let h = Headlines::new(config);
    assert_eq!(h.config.dark_mode, false);
    assert_eq!(h.config.api_key, "");
    assert_eq!(h.api_key_initialized, false);
    assert!(h.articles.is_empty());
}

#[test]
fn default_state_is_empty_dark_and_unconfirmed() {
    let h = Headlines::default();
    assert!(h.articles.is_empty());
    assert_eq!(h.config.dark_mode, true);
    assert_eq!(h.config.api_key, "");
    assert_eq!(h.api_key_initialized, false);
}

#[test]
fn toggling_theme_flips_only_the_flag() {
    let mut h = Headlines::default();
    h.toggle_dark_mode();
    assert_eq!(h.config.dark_mode, false);
    assert_eq!(h.api_key_initialized, false);
    assert!(h.articles.is_empty());
    h.toggle_dark_mode();
    assert_eq!(h.config.dark_mode, true);
}

#[test]
fn confirming_the_key_only_sets_the_flag() {
    let mut h = Headlines::default();
    h.config.api_key = "some-api-key".to_string();
    h.confirm_api_key();
    assert_eq!(h.api_key_initialized, true);
    assert_eq!(h.config.api_key, "some-api-key");
    assert_eq!(h.config.dark_mode, true);
}
