//! The shape of an answer: which JSON values are a response, and which
//! response each of them is.

use vstd::prelude::*;
use crate::newsapi::error::NewsAPIError;
use crate::newsapi::json::{json_of, json_of_each, json_parsed, member, parse_json, Json};
use crate::newsapi::response::{
    article_views, text_of, Article, ArticleView, NewsAPIResponse, ResponseView,
};

verus! {

pub const FIELD_STATUS: &'static str = "status";

pub const FIELD_ARTICLES: &'static str = "articles";

pub const FIELD_CODE: &'static str = "code";

pub const FIELD_TITLE: &'static str = "title";

pub const FIELD_URL: &'static str = "url";

pub const FIELD_DESCRIPTION: &'static str = "description";

/// The text of a member that has to be there and to be a string.
pub open spec fn required_text(field: Option<Json>) -> Option<Seq<char>> {
    match field {
        Some(Json::Text(text)) => Some(text),
        _ => None,
    }
}

/// The text of a member that may be missing or `null`: `Some(None)` where it
/// is, `Some(Some(text))` where it is a string, `None` where it is anything
/// else.
pub open spec fn optional_text(field: Option<Json>) -> Option<Option<Seq<char>>> {
    match field {
        None => Some(None),
        Some(Json::Null) => Some(None),
        Some(Json::Text(text)) => Some(Some(text)),
        Some(_) => None,
    }
}

/// The article that a JSON value is, if it is one: a title and a URL, both
/// strings, and a description that may be missing. Other members are not
/// looked at.
pub open spec fn article_of(v: Json) -> Option<ArticleView> {
    match (
        required_text(v.member(FIELD_TITLE@)),
        required_text(v.member(FIELD_URL@)),
        optional_text(v.member(FIELD_DESCRIPTION@)),
    ) {
        (Some(title), Some(url), Some(description)) => Some(
            ArticleView { title, url, description },
        ),
        _ => None,
    }
}

/// The articles that the elements of an array are, in the array's order, if
/// each of them is one.
pub open spec fn articles_of(items: Seq<Json>) -> Option<Seq<ArticleView>> {
    if forall|i: int| 0 <= i < items.len() ==> (#[trigger] article_of(items[i])) is Some {
        Some(Seq::new(items.len(), |i: int| article_of(items[i])->0))
    } else {
        None
    }
}

/// The articles that a member is, if it is an array of articles.
pub open spec fn article_list(field: Option<Json>) -> Option<Seq<ArticleView>> {
    match field {
        Some(Json::Array(items)) => articles_of(items),
        _ => None,
    }
}

/// The response that a JSON value is, if it is one: a status, which is a
/// string; articles, which are an array of articles; and a code that may be
/// missing. Other members are not looked at.
pub open spec fn response_of(v: Json) -> Option<ResponseView> {
    match (
        required_text(v.member(FIELD_STATUS@)),
        article_list(v.member(FIELD_ARTICLES@)),
        optional_text(v.member(FIELD_CODE@)),
    ) {
        (Some(status), Some(articles), Some(code)) => Some(
            ResponseView { status, articles, code },
        ),
        _ => None,
    }
}

/// The response that a body holds, if it is JSON and of a response's shape.
pub open spec fn response_in(body: Seq<char>) -> Option<ResponseView> {
    match json_parsed(body) {
        Some(v) => response_of(v),
        None => None,
    }
}

fn read_required(v: &serde_json::Value, key: &str) -> (text: Option<String>)
    ensures
        text_of(text) == required_text(json_of(*v).member(key@)),
{
    match member(v, key) {
        Some(found) => match found.as_str() {
            Some(text) => Some(text.to_owned()),
            None => None,
        },
        None => None,
    }
}

fn read_optional(v: &serde_json::Value, key: &str) -> (text: Option<Option<String>>)
    ensures
        match text {
            Some(t) => optional_text(json_of(*v).member(key@)) == Some(text_of(t)),
            None => optional_text(json_of(*v).member(key@)) is None,
        },
{
    match member(v, key) {
        None => Some(None),
        Some(found) => {
            if found.is_null() {
                Some(None)
            } else {
                match found.as_str() {
                    Some(text) => Some(Some(text.to_owned())),
                    None => None,
                }
            }
        },
    }
}

/// The article that a JSON value is, or nothing where it is none.
pub fn decode_article(v: &serde_json::Value) -> (article: Option<Article>)
    ensures
        match article {
            Some(a) => article_of(json_of(*v)) == Some(a@),
            None => article_of(json_of(*v)) is None,
        },
{
    let title = match read_required(v, FIELD_TITLE) {
        Some(title) => title,
        None => return None,
    };
    let url = match read_required(v, FIELD_URL) {
        Some(url) => url,
        None => return None,
    };
    let description = match read_optional(v, FIELD_DESCRIPTION) {
        Some(description) => description,
        None => return None,
    };
    Some(Article::new(title, url, description))
}

/// The articles that the elements of an array are, in the array's order, or
/// nothing where one of them is no article.
pub fn decode_articles(items: &Vec<serde_json::Value>) -> (articles: Option<Vec<Article>>)
    ensures
        match articles {
            Some(list) => articles_of(json_of_each(items@)) == Some(article_views(list@)),
            None => articles_of(json_of_each(items@)) is None,
        },
{
    let ghost elements = json_of_each(items@);
    let mut list: Vec<Article> = Vec::new();
    let mut i: usize = 0;
    while i < items.len()
        invariant
            i <= items.len(),
            list.len() == i,
            elements == json_of_each(items@),
            forall|j: int| 0 <= j < i ==> (#[trigger] article_of(elements[j])) == Some(list@[j]@),
        decreases items.len() - i,
    {
        assert(elements[i as int] == json_of(items@[i as int]));
        match decode_article(&items[i]) {
            Some(article) => list.push(article),
            None => return None,
        }
        i = i + 1;
    }
    assert(article_views(list@) =~= Seq::new(elements.len(), |i: int| article_of(elements[i])->0));
    Some(list)
}

/// The response that a JSON value is, or nothing where it is none.
pub fn decode_response(v: &serde_json::Value) -> (response: Option<NewsAPIResponse>)
    ensures
        match response {
            Some(r) => response_of(json_of(*v)) == Some(r@),
            None => response_of(json_of(*v)) is None,
        },
{
    let status = match read_required(v, FIELD_STATUS) {
        Some(status) => status,
        None => return None,
    };
    let articles = match member(v, FIELD_ARTICLES) {
        Some(found) => match found.as_array() {
            Some(items) => match decode_articles(items) {
                Some(articles) => articles,
                None => return None,
            },
            None => return None,
        },
        None => return None,
    };
    let code = match read_optional(v, FIELD_CODE) {
        Some(code) => code,
        None => return None,
    };
    Some(NewsAPIResponse::new(status, articles, code))
}

/// Reads a body as a response. A body that is not JSON, or whose JSON is not
/// of a response's shape, is a failed parse, whatever else it holds.
pub fn parse_response(body: &str) -> (parsed: Result<NewsAPIResponse, NewsAPIError>)
    ensures
        match parsed {
            Ok(response) => response_in(body@) == Some(response@),
            Err(failure) => response_in(body@) is None && failure
                == NewsAPIError::ArticleParseFailed,
        },
{
    match parse_json(body) {
        Some(v) => match decode_response(&v) {
            Some(response) => Ok(response),
            None => Err(NewsAPIError::ArticleParseFailed),
        },
        None => Err(NewsAPIError::ArticleParseFailed),
    }
}

} // verus!
