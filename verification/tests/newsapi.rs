use headlines::newsapi::client::{NewsAPI, Request};
use headlines::newsapi::decode::{decode_article, decode_articles, decode_response, parse_response};
use headlines::newsapi::error::NewsAPIError;
use headlines::newsapi::params::{Country, Endpoint};
use headlines::newsapi::response::{map_response_err, Article, NewsAPIResponse};

#[test]
fn it_works() {
    let result: i32 = 2 + 2;
    assert_eq!(result, 4);
}

#[test]
fn endpoint_and_country_have_their_texts() {
    assert_eq!(Endpoint::TopHeadlines.to_string(), "top-headlines");
    assert_eq!(Country::Us.to_string(), "us");
}

#[test]
fn request_url_has_endpoint_path_and_country_query() {
    let mut api = NewsAPI::new("secret-key");
    api.endpoint(Endpoint::TopHeadlines).country(Country::Us);
    let url = api.prepare_url().unwrap();
    assert_eq!(url, "https://newsapi.org/v2/top-headlines?country=us");
    let parsed = url::Url::parse(&url).unwrap();
    assert_eq!(parsed.path(), "/v2/top-headlines");
    assert_eq!(parsed.query(), Some("country=us"));
}

#[test]
fn request_carries_key_as_authorization() {
    let api = NewsAPI::new("secret-key");
    let request = api.request().unwrap();
    assert_eq!(
        request,
        Request {
            url: "https://newsapi.org/v2/top-headlines?country=us".to_string(),
            header_name: "Authorization".to_string(),
            header_value: "secret-key".to_string(),
        }
    );
}

#[test]
fn request_with_empty_key_has_empty_header() {
    let request = NewsAPI::new("").request().unwrap();
    assert_eq!(request.header_name, "Authorization");
    assert_eq!(request.header_value, "");
}

#[test]
fn ok_body_gives_articles_in_order() {
    let body = "{\"status\":\"ok\",\"totalResults\":3,\"articles\":[\
        {\"title\":\"A\",\"url\":\"https://a.example/1\",\"description\":\"first\"},\
        {\"title\":\"B\",\"url\":\"https://b.example/2\",\"description\":null},\
        {\"title\":\"C\",\"url\":\"https://c.example/3\",\"author\":\"x\"}]}";
    let response = NewsAPI::new("k").receive(body).unwrap();
    let articles = response.articles();
    assert_eq!(articles.len(), 3);
    assert_eq!(articles[0].title(), "A");
    assert_eq!(articles[0].url(), "https://a.example/1");
    assert_eq!(articles[0].description(), Some("first"));
    assert_eq!(articles[1].title(), "B");
    assert_eq!(articles[1].url(), "https://b.example/2");
    assert_eq!(articles[1].description(), None);
    assert_eq!(articles[2].title(), "C");
    assert_eq!(articles[2].url(), "https://c.example/3");
    assert_eq!(articles[2].description(), None);
    assert_eq!(response.status(), "ok");
}

#[test]
fn ok_body_without_articles_is_no_failure() {
    let response = NewsAPI::new("k").receive("{\"status\":\"ok\",\"articles\":[]}").unwrap();
    assert!(response.articles().is_empty());
    assert_eq!(response, NewsAPIResponse::new("ok".to_string(), Vec::new(), None));
}

#[test]
fn titles_and_urls_are_copied_verbatim() {
    let body = "{\"status\":\"ok\",\"articles\":[{\"title\":\"  Caf\\u00e9 \\\"q\\\" \",\"url\":\"not a url\"}]}";
    let response = NewsAPI::new("k").receive(body).unwrap();
    assert_eq!(response.articles()[0].title(), "  Caf\u{e9} \"q\" ");
    assert_eq!(response.articles()[0].url(), "not a url");
}

#[test]
fn disabled_key_is_reported() {
    let body = "{\"status\":\"error\",\"code\":\"apiKeyDisabled\",\"articles\":[]}";
    let failure = NewsAPI::new("k").receive(body).unwrap_err();
    assert_eq!(failure, NewsAPIError::BadRequest("Your API key is disabled"));
    assert!(failure.is_api_key_disabled());
    assert_eq!(failure.message(), "Request failed: Your API key is disabled");
}

#[test]
fn other_code_is_unknown_failure() {
    let body = "{\"status\":\"error\",\"code\":\"somethingElse\",\"articles\":[]}";
    let failure = NewsAPI::new("k").receive(body).unwrap_err();
    assert_eq!(failure, NewsAPIError::BadRequest("Unknown"));
    assert!(!failure.is_api_key_disabled());
    assert_eq!(failure.message(), "Request failed: Unknown");
}

#[test]
fn missing_code_is_unknown_failure() {
    let body = "{\"status\":\"error\",\"articles\":[]}";
    let failure = NewsAPI::new("k").receive(body).unwrap_err();
    assert_eq!(failure, NewsAPIError::BadRequest("Unknown"));
    let null_code = "{\"status\":\"error\",\"code\":null,\"articles\":[]}";
    assert_eq!(
        NewsAPI::new("k").receive(null_code).unwrap_err(),
        NewsAPIError::BadRequest("Unknown")
    );
}

#[test]
fn code_is_read_only_where_status_is_not_ok() {
    let body = "{\"status\":\"ok\",\"code\":\"apiKeyDisabled\",\"articles\":[]}";
    assert!(NewsAPI::new("k").receive(body).is_ok());
}

#[test]
fn non_json_body_fails_parse() {
    let api = NewsAPI::new("k");
    assert_eq!(api.receive("<html>oops</html>").unwrap_err(), NewsAPIError::ArticleParseFailed);
    assert_eq!(api.receive("").unwrap_err(), NewsAPIError::ArticleParseFailed);
    assert_eq!(api.receive("{\"status\":\"ok\"").unwrap_err(), NewsAPIError::ArticleParseFailed);
    assert_eq!(
        api.receive("{\"status\":\"ok\",\"articles\":[]} trailing").unwrap_err(),
        NewsAPIError::ArticleParseFailed
    );
}

#[test]
fn mismatched_body_fails_parse() {
    let api = NewsAPI::new("k");
    let bodies = [
        "{\"articles\":[]}",
        "{\"status\":\"ok\"}",
        "{\"status\":200,\"articles\":[]}",
        "{\"status\":\"ok\",\"articles\":{}}",
        "{\"status\":\"ok\",\"articles\":[{\"title\":\"A\"}]}",
        "{\"status\":\"ok\",\"articles\":[{\"url\":\"u\"}]}",
        "{\"status\":\"ok\",\"articles\":[{\"title\":1,\"url\":\"u\"}]}",
        "{\"status\":\"ok\",\"articles\":[{\"title\":\"A\",\"url\":null}]}",
        "{\"status\":\"ok\",\"articles\":[{\"title\":\"A\",\"url\":\"u\",\"description\":3}]}",
        "{\"status\":\"ok\",\"articles\":[\"A\"]}",
        "{\"status\":\"ok\",\"articles\":[],\"code\":7}",
        "[\"ok\",[],null]",
        "null",
        "\"ok\"",
        "12",
    ];
    for body in bodies {
        assert_eq!(api.receive(body).unwrap_err(), NewsAPIError::ArticleParseFailed, "{}", body);
    }
}

#[test]
fn parse_response_does_not_judge_status() {
    let parsed = parse_response("{\"status\":\"error\",\"code\":\"x\",\"articles\":[]}").unwrap();
    assert_eq!(parsed.status(), "error");
    assert_eq!(
        parsed,
        NewsAPIResponse::new("error".to_string(), Vec::new(), Some("x".to_string()))
    );
    assert_eq!(parsed.into_result().unwrap_err(), NewsAPIError::BadRequest("Unknown"));
}

#[test]
fn into_result_keeps_ok_response() {
    let article = Article::new("T".to_string(), "U".to_string(), None);
    let response = NewsAPIResponse::new("ok".to_string(), vec![article], None);
    let kept = response.into_result().unwrap();
    assert_eq!(kept.articles().len(), 1);
    assert_eq!(kept.articles()[0], Article::new("T".to_string(), "U".to_string(), None));
}

#[test]
fn status_is_compared_exactly() {
    let response = NewsAPIResponse::new("OK".to_string(), Vec::new(), None);
    assert_eq!(response.into_result().unwrap_err(), NewsAPIError::BadRequest("Unknown"));
}

#[test]
fn map_response_err_goes_by_code() {
    assert_eq!(
        map_response_err(Some("apiKeyDisabled".to_string())),
        NewsAPIError::BadRequest("Your API key is disabled")
    );
    assert_eq!(
        map_response_err(Some("apikeydisabled".to_string())),
        NewsAPIError::BadRequest("Unknown")
    );
    assert_eq!(map_response_err(Some(String::new())), NewsAPIError::BadRequest("Unknown"));
    assert_eq!(map_response_err(None), NewsAPIError::BadRequest("Unknown"));
}

#[test]
fn decode_reads_values() {
    let value: serde_json::Value =
        serde_json::from_str("{\"title\":\"T\",\"url\":\"U\",\"description\":\"D\",\"x\":1}")
            .unwrap();
    assert_eq!(
        decode_article(&value),
        Some(Article::new("T".to_string(), "U".to_string(), Some("D".to_string())))
    );
    let items = vec![value, serde_json::Value::Null];
    assert_eq!(decode_articles(&items), None);
    assert_eq!(decode_articles(&items[..1].to_vec()).map(|a| a.len()), Some(1));
    assert_eq!(decode_response(&serde_json::Value::Bool(true)), None);
}

#[test]
fn error_messages() {
    assert_eq!(
        NewsAPIError::RequestFailed("dns".to_string()).message(),
        "Failed fetching articles"
    );
    assert_eq!(
        NewsAPIError::FailedResponseToString("io".to_string()).message(),
        "Failed to convert response to string"
    );
    assert_eq!(NewsAPIError::ArticleParseFailed.message(), "Article parsing failed");
    assert_eq!(NewsAPIError::UrlParsing.message(), "Url parsing failed");
    assert_eq!(
        NewsAPIError::AsyncRequestFailed("x".to_string()).message(),
        "Async Request Failed"
    );
    assert!(!NewsAPIError::UrlParsing.is_api_key_disabled());
}
