//! What the API answers: a status, the articles, and a code where the status
//! is not `ok`.

use vstd::prelude::*;
use vstd::string::StringExecFns;
use crate::newsapi::error::{ErrorView, NewsAPIError, API_KEY_DISABLED, UNKNOWN};

verus! {

/// The status of an answer that holds what was asked for.
pub const STATUS_OK: &'static str = "ok";

/// The code by which the API says that the key has been disabled.
pub const CODE_API_KEY_DISABLED: &'static str = "apiKeyDisabled";

/// The text that an optional string holds, where it holds one.
pub open spec fn text_of(text: Option<String>) -> Option<Seq<char>> {
    match text {
        Some(t) => Some(t@),
        None => None,
    }
}

/// An article, as contracts speak of it.
pub struct ArticleView {
    pub title: Seq<char>,
    pub url: Seq<char>,
    pub description: Option<Seq<char>>,
}

/// One article of an answer.
#[derive(Debug, PartialEq, Eq)]
pub struct Article {
    title: String,
    url: String,
    description: Option<String>,
}

impl View for Article {
    type V = ArticleView;

    closed spec fn view(&self) -> ArticleView {
        ArticleView {
            title: self.title@,
            url: self.url@,
            description: text_of(self.description),
        }
    }
}

impl Article {
    pub fn new(title: String, url: String, description: Option<String>) -> (article: Article)
        ensures
            article@ == (ArticleView {
                title: title@,
                url: url@,
                description: text_of(description),
            }),
    {
        Article { title, url, description }
    }

    pub fn title(&self) -> (title: &str)
        ensures
            title@ == self@.title,
    {
        self.title.as_str()
    }

    pub fn url(&self) -> (url: &str)
        ensures
            url@ == self@.url,
    {
        self.url.as_str()
    }

    /// What the API says of the article, where it says anything.
    pub fn description(&self) -> (description: Option<&str>)
        ensures
            match description {
                Some(text) => self@.description == Some(text@),
                None => self@.description is None,
            },
    {
        match &self.description {
            Some(text) => Some(text.as_str()),
            None => None,
        }
    }
}

/// The articles of a sequence, each as contracts speak of it.
pub open spec fn article_views(articles: Seq<Article>) -> Seq<ArticleView> {
    articles.map_values(|a: Article| a@)
}

/// An answer, as contracts speak of it.
pub struct ResponseView {
    pub status: Seq<char>,
    pub articles: Seq<ArticleView>,
    pub code: Option<Seq<char>>,
}

impl ResponseView {
    /// Whether the answer holds what was asked for. Its articles may be none.
    pub open spec fn is_ok(self) -> bool {
        self.status == STATUS_OK@
    }
}

/// An answer of the API.
#[derive(Debug, PartialEq, Eq)]
pub struct NewsAPIResponse {
    status: String,
    pub articles: Vec<Article>,
    code: Option<String>,
}

impl View for NewsAPIResponse {
    type V = ResponseView;

    closed spec fn view(&self) -> ResponseView {
        ResponseView {
            status: self.status@,
            articles: article_views(self.articles@),
            code: text_of(self.code),
        }
    }
}

/// The failure that the API reports by a code, or by none.
pub open spec fn api_failure(code: Option<Seq<char>>) -> ErrorView {
    if code == Some(CODE_API_KEY_DISABLED@) {
        ErrorView::BadRequest(API_KEY_DISABLED@)
    } else {
        ErrorView::BadRequest(UNKNOWN@)
    }
}

/// What a fetch makes of an answer that arrived whole: the answer itself
/// where its status is `ok`, else the failure that its code stands for.
pub open spec fn outcome_of(response: ResponseView) -> Result<ResponseView, ErrorView> {
    if response.is_ok() {
        Ok(response)
    } else {
        Err(api_failure(response.code))
    }
}

impl NewsAPIResponse {
    pub fn new(status: String, articles: Vec<Article>, code: Option<String>) -> (response:
        NewsAPIResponse)
        ensures
            response@ == (ResponseView {
                status: status@,
                articles: article_views(articles@),
                code: text_of(code),
            }),
    {
        NewsAPIResponse { status, articles, code }
    }

    pub fn articles(&self) -> (articles: &Vec<Article>)
        ensures
            article_views(articles@) == self@.articles,
    {
        &self.articles
    }

    pub fn status(&self) -> (status: &str)
        ensures
            status@ == self@.status,
    {
        self.status.as_str()
    }

    /// The answer itself where its status is `ok`, else the failure that its
    /// code stands for.
    pub fn into_result(self) -> (outcome: Result<NewsAPIResponse, NewsAPIError>)
        ensures
            match outcome {
                Ok(response) => outcome_of(self@) == Ok::<ResponseView, ErrorView>(response@)
                    && response == self,
                Err(failure) => outcome_of(self@) == Err::<ResponseView, ErrorView>(failure@),
            },
    {
        let ok: String = String::from_str(STATUS_OK);
        if self.status == ok {
            Ok(self)
        } else {
            Err(map_response_err(self.code))
        }
    }
}

/// The failure that the API reports by a code, or by none: that the key is
/// disabled where the code says so, an unknown failure for any other code and
/// for none.
pub fn map_response_err(code: Option<String>) -> (failure: NewsAPIError)
    ensures
        failure@ == api_failure(text_of(code)),
        failure == NewsAPIError::BadRequest(API_KEY_DISABLED) || failure
            == NewsAPIError::BadRequest(UNKNOWN),
{
    let disabled: String = String::from_str(CODE_API_KEY_DISABLED);
    match code {
        Some(code) => {
            if code == disabled {
                NewsAPIError::BadRequest(API_KEY_DISABLED)
            } else {
                NewsAPIError::BadRequest(UNKNOWN)
            }
        },
        None => NewsAPIError::BadRequest(UNKNOWN),
    }
}

} // verus!
