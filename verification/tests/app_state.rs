use headlines::headlines::card::{fetch_news, NewsCardData};
use headlines::headlines::config::HeadlinesConfig;
use headlines::headlines::state::{Headlines, KeySubmission, Screen};
use headlines::headlines::theme::{link_colour, title_colour, title_line, Rgb};
use headlines::headlines::worker::{Msg, Worker, WorkerStep};
use headlines::newsapi::client::NewsAPI;
use headlines::newsapi::error::NewsAPIError;
use headlines::newsapi::response::{Article, NewsAPIResponse};

fn card(title: &str) -> NewsCardData {
    NewsCardData {
        title: title.to_string(),
        url: format!("https://example.org/{}", title),
        description: "...".to_string(),
    }
}

fn three_articles() -> Result<NewsAPIResponse, NewsAPIError> {
    NewsAPI::new("abc123").receive(
        "{\"status\":\"ok\",\"articles\":[\
         {\"title\":\"A\",\"url\":\"ua\",\"description\":\"da\"},\
         {\"title\":\"B\",\"url\":\"ub\"},\
         {\"title\":\"C\",\"url\":\"uc\",\"description\":\"dc\"}]}",
    )
}

#[test]
fn default_configuration_is_light_and_keyless() {
    let config = HeadlinesConfig::default();
    assert_eq!(config, HeadlinesConfig { dark_mode: false, api_key: String::new() });
    assert!(!config.has_key());
}

#[test]
fn card_of_article_falls_back_to_dots() {
    let with = Article::new("T".to_string(), "U".to_string(), Some("D".to_string()));
    let without = Article::new("T".to_string(), "U".to_string(), None);
    assert_eq!(
        NewsCardData::from_article(&with),
        NewsCardData { title: "T".to_string(), url: "U".to_string(), description: "D".to_string() }
    );
    assert_eq!(
        NewsCardData::from_article(&without),
        NewsCardData {
            title: "T".to_string(),
            url: "U".to_string(),
            description: "...".to_string()
        }
    );
}

#[test]
fn fetch_news_gives_one_card_per_article_in_order() {
    let cards = fetch_news(&three_articles());
    let titles: Vec<&str> = cards.iter().map(|c| c.title.as_str()).collect();
    assert_eq!(titles, vec!["A", "B", "C"]);
    assert_eq!(cards[0].description, "da");
    assert_eq!(cards[1].description, "...");
    assert_eq!(cards[2].url, "uc");
}

#[test]
fn failed_fetch_sends_no_cards() {
    assert!(fetch_news(&Err(NewsAPIError::RequestFailed("refused".to_string()))).is_empty());
    assert!(fetch_news(&Err(NewsAPIError::BadRequest("Unknown"))).is_empty());
}

#[test]
fn polling_appends_in_order_whatever_the_cadence() {
    let mut app = Headlines::new(HeadlinesConfig { dark_mode: false, api_key: "k".to_string() });
    app.preload_articles(None);
    app.preload_articles(Some(card("A")));
    app.preload_articles(None);
    app.preload_articles(None);
    app.preload_articles(Some(card("B")));
    app.preload_articles(Some(card("C")));
    app.preload_articles(None);
    assert_eq!(app.articles(), &vec![card("A"), card("B"), card("C")]);
}

#[test]
fn missing_card_is_no_failure() {
    let mut app = Headlines::new(HeadlinesConfig::default());
    app.preload_articles(None);
    assert!(app.articles().is_empty());
    assert_eq!(app.screen(), Screen::KeyEntry);
}

#[test]
fn worker_without_key_waits_and_sends_nothing() {
    let mut worker = Worker::start("");
    assert_eq!(worker, Worker::AwaitingKey);
    assert_eq!(worker.step(), WorkerStep::AwaitMessage);
    worker.notified(None);
    assert_eq!(worker.step(), WorkerStep::AwaitMessage);
    let cards = worker.fetched(&three_articles());
    assert!(cards.is_empty());
    assert_eq!(worker, Worker::AwaitingKey);
}

#[test]
fn worker_fetches_with_exactly_the_submitted_key() {
    let mut worker = Worker::start("");
    worker.notified(Some(Msg::ApiKeySet("abc123".to_string())));
    assert_eq!(worker.step(), WorkerStep::Fetch("abc123".to_string()));
    let cards = worker.fetched(&three_articles());
    assert_eq!(cards.len(), 3);
    assert_eq!(worker.step(), WorkerStep::AwaitMessage);
    worker.notified(Some(Msg::ApiKeySet("second".to_string())));
    assert_eq!(worker.step(), WorkerStep::Fetch("second".to_string()));
}

#[test]
fn worker_with_key_fetches_once_and_stops() {
    let mut worker = Worker::start("configured");
    assert_eq!(worker.step(), WorkerStep::Fetch("configured".to_string()));
    worker.notified(Some(Msg::ApiKeySet("other".to_string())));
    assert_eq!(worker.step(), WorkerStep::Fetch("configured".to_string()));
    assert_eq!(worker.fetched(&three_articles()).len(), 3);
    assert_eq!(worker, Worker::Finished);
    assert_eq!(worker.step(), WorkerStep::Stop);
    assert!(worker.fetched(&three_articles()).is_empty());
    worker.notified(Some(Msg::ApiKeySet("late".to_string())));
    assert_eq!(worker.step(), WorkerStep::Stop);
}

#[test]
fn worker_with_key_stops_after_failed_fetch() {
    let mut worker = Worker::start("configured");
    assert!(worker.fetched(&Err(NewsAPIError::ArticleParseFailed)).is_empty());
    assert_eq!(worker.step(), WorkerStep::Stop);
}

#[test]
fn entering_a_key_end_to_end() {
    let mut app = Headlines::new(HeadlinesConfig::default());
    let mut worker = app.worker();
    assert_eq!(app.screen(), Screen::KeyEntry);
    assert!(!app.api_key_initialized());
    assert_eq!(worker.step(), WorkerStep::AwaitMessage);

    let submission = app.submit_api_key("abc123").unwrap();
    assert_eq!(
        submission,
        KeySubmission {
            stored: HeadlinesConfig { dark_mode: false, api_key: "abc123".to_string() },
            notice: Msg::ApiKeySet("abc123".to_string()),
        }
    );
    assert_eq!(app.screen(), Screen::News);
    assert!(app.api_key_initialized());
    assert_eq!(app.config().api_key, "abc123");

    worker.notified(Some(submission.notice));
    assert_eq!(worker.step(), WorkerStep::Fetch("abc123".to_string()));
    let mut queue: std::collections::VecDeque<NewsCardData> =
        worker.fetched(&three_articles()).into_iter().collect();
    assert_eq!(queue.len(), 3);
    for _ in 0..3 {
        app.preload_articles(queue.pop_front());
    }
    let titles: Vec<&str> = app.articles().iter().map(|c| c.title.as_str()).collect();
    assert_eq!(titles, vec!["A", "B", "C"]);
    app.preload_articles(queue.pop_front());
    assert_eq!(app.articles().len(), 3);
}

#[test]
fn configured_key_starts_in_news_with_no_cards() {
    let app = Headlines::new(HeadlinesConfig { dark_mode: true, api_key: "kept".to_string() });
    assert_eq!(app.screen(), Screen::News);
    assert!(app.api_key_initialized());
    assert!(app.articles().is_empty());
    assert!(app.dark_mode());
    let mut worker = app.worker();
    assert_eq!(worker.step(), WorkerStep::Fetch("kept".to_string()));
    assert_eq!(worker.fetched(&three_articles()).len(), 3);
    assert_eq!(worker.step(), WorkerStep::Stop);
}

#[test]
fn empty_entry_and_second_entry_change_nothing() {
    let mut app = Headlines::new(HeadlinesConfig::default());
    assert_eq!(app.submit_api_key(""), None);
    assert_eq!(app.screen(), Screen::KeyEntry);
    assert_eq!(app.config().api_key, "");
    assert!(app.submit_api_key("first").is_some());
    assert_eq!(app.submit_api_key("second"), None);
    assert_eq!(app.config().api_key, "first");
}

#[test]
fn submission_stores_the_theme_of_the_moment() {
    let mut app = Headlines::new(HeadlinesConfig::default());
    app.toggle_dark_mode();
    let submission = app.submit_api_key("k").unwrap();
    assert_eq!(submission.stored, HeadlinesConfig { dark_mode: true, api_key: "k".to_string() });
}

#[test]
fn toggle_switches_theme_and_nothing_else() {
    let mut app = Headlines::new(HeadlinesConfig { dark_mode: false, api_key: "k".to_string() });
    app.preload_articles(Some(card("A")));
    app.toggle_dark_mode();
    assert!(app.dark_mode());
    assert_eq!(app.articles().len(), 1);
    assert_eq!(app.screen(), Screen::News);
    app.toggle_dark_mode();
    assert!(!app.dark_mode());
    assert_eq!(app.config().api_key, "k");
}

#[test]
fn theme_colours_and_title_line() {
    assert_eq!(title_colour(true), Rgb { red: 255, green: 255, blue: 255 });
    assert_eq!(title_colour(false), Rgb { red: 0, green: 0, blue: 0 });
    assert_eq!(link_colour(true), Rgb { red: 0, green: 255, blue: 255 });
    assert_eq!(link_colour(false), Rgb { red: 255, green: 0, blue: 0 });
    assert_eq!(title_line("Headline"), "> Headline");
    assert_eq!(title_line(""), "> ");
}

#[test]
fn default_application_awaits_a_key() {
    let app = Headlines::default();
    assert_eq!(app.screen(), Screen::KeyEntry);
    assert!(app.articles().is_empty());
    assert!(!app.dark_mode());
    assert_eq!(app.config(), &HeadlinesConfig::default());
    assert_eq!(app.worker().step(), WorkerStep::AwaitMessage);
}
