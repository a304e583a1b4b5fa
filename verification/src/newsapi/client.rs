//! The client: a key, the parameters of the query, the request that they
//! make, and what is made of the answer.
//!
//! The client sends nothing itself. `request` says what is to be sent, and
//! `receive` takes the body that came back.

use vstd::prelude::*;
use vstd::string::StringExecFns;
use crate::newsapi::decode::{
    article_of, optional_text, parse_response, response_in, response_of, FIELD_ARTICLES,
    FIELD_CODE, FIELD_STATUS, FIELD_TITLE, FIELD_URL,
};
use crate::newsapi::error::{ErrorView, NewsAPIError, API_KEY_DISABLED, UNKNOWN};
use crate::newsapi::json::{json_parsed, Json};
use crate::newsapi::params::{Country, Endpoint};
use crate::newsapi::response::{
    outcome_of, NewsAPIResponse, ResponseView, CODE_API_KEY_DISABLED, STATUS_OK,
};
use crate::newsapi::web::{
    parse_url, push_segment, serialization, set_query, url_bytes, url_cannot_be_a_base,
    url_has_room, url_parsed, url_text, url_with_query, url_with_segment,
};

verus! {

/// The URL under which every operation of the API is found.
pub const BASE_URL: &'static str = "https://newsapi.org/v2";

/// What goes before the country's code in the query of a request.
pub const COUNTRY_PARAMETER: &'static str = "country=";

/// The header that carries the key.
pub const AUTHORIZATION: &'static str = "Authorization";

/// The longest serialization, and the longest part, that the client hands to
/// the `url` crate, in bytes: under a quarter of what 32 bits can say.
pub const URL_LIMIT: usize = 1_000_000_000;

/// A client, as contracts speak of it.
pub struct ClientView {
    pub api_key: Seq<char>,
    pub endpoint: Endpoint,
    pub country: Country,
}

/// A client of the API.
#[derive(Debug)]
pub struct NewsAPI {
    api_key: String,
    endpoint: Endpoint,
    country: Country,
}

impl View for NewsAPI {
    type V = ClientView;

    closed spec fn view(&self) -> ClientView {
        ClientView { api_key: self.api_key@, endpoint: self.endpoint, country: self.country }
    }
}

/// A request, as contracts speak of it.
pub struct RequestView {
    pub url: Seq<char>,
    pub header_name: Seq<char>,
    pub header_value: Seq<char>,
}

/// What is to be sent: a GET of a URL, with one header.
#[derive(Debug, PartialEq, Eq)]
pub struct Request {
    pub url: String,
    pub header_name: String,
    pub header_value: String,
}

impl View for Request {
    type V = RequestView;

    open spec fn view(&self) -> RequestView {
        RequestView {
            url: self.url@,
            header_name: self.header_name@,
            header_value: self.header_value@,
        }
    }
}

/// The query of a request for a country's headlines.
pub open spec fn country_query(country: Country) -> Seq<char> {
    COUNTRY_PARAMETER@ + country.code()
}

/// Whether the client hands a URL and a part to the `url` crate: both are
/// within the limit.
pub open spec fn within_limit(u: url::Url, part: Seq<char>) -> bool {
    url_bytes(u) <= URL_LIMIT && vstd::utf8::encode_utf8(part).len() <= URL_LIMIT
}

/// The URL of a request: what the `url` crate makes of the base URL when the
/// endpoint's segment is appended to its path and the country's query is
/// written as its query. There is none where the crate refuses the base URL,
/// or finds no segments in its path, or where a text is over the limit.
pub open spec fn request_url(endpoint: Endpoint, country: Country) -> Option<Seq<char>> {
    match url_parsed(BASE_URL@) {
        None => None,
        Some(base) => {
            let with_path = url_with_segment(base, endpoint.segment());
            if !within_limit(base, endpoint.segment()) || url_cannot_be_a_base(base) {
                None
            } else if !within_limit(with_path, country_query(country)) {
                None
            } else {
                Some(url_text(url_with_query(with_path, country_query(country))))
            }
        },
    }
}

/// The request of a client: the URL of its endpoint and country, and its key
/// as the value of the authorization header.
pub open spec fn request_of(client: ClientView) -> Option<RequestView> {
    match request_url(client.endpoint, client.country) {
        Some(url) => Some(
            RequestView { url, header_name: AUTHORIZATION@, header_value: client.api_key },
        ),
        None => None,
    }
}

/// What a fetch makes of a body that arrived: a failed parse where the body
/// is no response; the response where its status is `ok`; else the failure
/// that the response reports.
pub open spec fn received(body: Seq<char>) -> Result<ResponseView, ErrorView> {
    match response_in(body) {
        Some(response) => outcome_of(response),
        None => Err(ErrorView::ArticleParseFailed),
    }
}

fn fits(u: &url::Url, part: &str) -> (fit: bool)
    ensures
        fit == within_limit(*u, part@),
        fit ==> url_has_room(*u, part@),
{
    broadcast use vstd::slice::axiom_spec_len;

    serialization(u).as_bytes().len() <= URL_LIMIT && part.as_bytes().len() <= URL_LIMIT
}

impl NewsAPI {
    /// A client with a key, for the top headlines of the United States.
    pub fn new(api_key: &str) -> (client: NewsAPI)
        ensures
            client@ == (ClientView {
                api_key: api_key@,
                endpoint: Endpoint::TopHeadlines,
                country: Country::Us,
            }),
    {
        NewsAPI {
            api_key: String::from_str(api_key),
            endpoint: Endpoint::TopHeadlines,
            country: Country::Us,
        }
    }

    /// Sets the operation to call, and hands the client back for the next
    /// setting.
    pub fn endpoint(&mut self, endpoint: Endpoint) -> (client: &mut NewsAPI)
        ensures
            client@ == (ClientView { endpoint, ..old(self)@ }),
            *final(self) == *final(client),
    {
        self.endpoint = endpoint;
        self
    }

    /// Sets the country to ask for, and hands the client back for the next
    /// setting.
    pub fn country(&mut self, country: Country) -> (client: &mut NewsAPI)
        ensures
            client@ == (ClientView { country, ..old(self)@ }),
            *final(self) == *final(client),
    {
        self.country = country;
        self
    }

    /// The URL of the request.
    pub fn prepare_url(&self) -> (prepared: Result<String, NewsAPIError>)
        ensures
            match prepared {
                Ok(url) => request_url(self@.endpoint, self@.country) == Some(url@),
                Err(failure) => request_url(self@.endpoint, self@.country) is None && failure
                    == NewsAPIError::UrlParsing,
            },
    {
        let mut url = match parse_url(BASE_URL) {
            Some(url) => url,
            None => return Err(NewsAPIError::UrlParsing),
        };
        let segment = self.endpoint.to_string();
        if !fits(&url, segment.as_str()) {
            return Err(NewsAPIError::UrlParsing);
        }
        if !push_segment(&mut url, segment.as_str()) {
            return Err(NewsAPIError::UrlParsing);
        }
        let country = String::from_str(COUNTRY_PARAMETER).concat(self.country.to_string().as_str());
        if !fits(&url, country.as_str()) {
            return Err(NewsAPIError::UrlParsing);
        }
        set_query(&mut url, country.as_str());
        Ok(serialization(&url).to_owned())
    }

    /// What is to be sent: a GET of the request's URL, with the key as the
    /// value of the authorization header.
    pub fn request(&self) -> (prepared: Result<Request, NewsAPIError>)
        ensures
            match prepared {
                Ok(request) => request_of(self@) == Some(request@),
                Err(failure) => request_of(self@) is None && failure == NewsAPIError::UrlParsing,
            },
    {
        match self.prepare_url() {
            Ok(url) => Ok(
                Request {
                    url,
                    header_name: String::from_str(AUTHORIZATION),
                    header_value: self.api_key.clone(),
                },
            ),
            Err(failure) => Err(failure),
        }
    }

    /// What the fetch comes to, given the body that came back.
    pub fn receive(&self, body: &str) -> (outcome: Result<NewsAPIResponse, NewsAPIError>)
        ensures
            match outcome {
                Ok(response) => received(body@) == Ok::<ResponseView, ErrorView>(response@),
                Err(failure) => received(body@) == Err::<ResponseView, ErrorView>(failure@),
            },
    {
        match parse_response(body) {
            Ok(response) => response.into_result(),
            Err(failure) => Err(failure),
        }
    }
}

/// Whatever the endpoint and the country, a request that can be made goes
/// to the base URL with the endpoint's segment appended to its path and with
/// the country's code, after `country=`, as its query; and it carries the
/// client's key as the value of the authorization header.
pub proof fn law_request_names_endpoint_country_and_key(client: ClientView)
    ensures
        match request_of(client) {
            Some(request) => {
                &&& request.header_name == AUTHORIZATION@
                &&& request.header_value == client.api_key
                &&& url_parsed(BASE_URL@) matches Some(base) && request.url == url_text(
                    url_with_query(
                        url_with_segment(base, client.endpoint.segment()),
                        COUNTRY_PARAMETER@ + client.country.code(),
                    ),
                )
            },
            None => true,
        },
{
}

/// A body that is a JSON object whose status is `ok`, whose articles are an
/// array of articles and whose code, if it has one, is a string or `null`,
/// is fetched as a response with as many articles as the array has
/// elements, in the array's order, each with the title and the URL that its
/// element holds.
pub proof fn law_ok_body_gives_its_articles(
    body: Seq<char>,
    members: Map<Seq<char>, Json>,
    items: Seq<Json>,
)
    requires
        json_parsed(body) == Some(Json::Object(members)),
        Json::Object(members).member(FIELD_STATUS@) == Some(Json::Text(STATUS_OK@)),
        Json::Object(members).member(FIELD_ARTICLES@) == Some(Json::Array(items)),
        forall|i: int| 0 <= i < items.len() ==> (#[trigger] article_of(items[i])) is Some,
        optional_text(Json::Object(members).member(FIELD_CODE@)) is Some,
    ensures
        received(body) matches Ok(response) && {
            &&& response.articles.len() == items.len()
            &&& forall|i: int|
                0 <= i < items.len() ==> {
                    &&& items[i].member(FIELD_TITLE@) == Some(
                        Json::Text((#[trigger] response.articles[i]).title),
                    )
                    &&& items[i].member(FIELD_URL@) == Some(Json::Text(response.articles[i].url))
                }
        },
{
    let response = response_of(Json::Object(members))->0;
    assert forall|i: int| 0 <= i < items.len() implies {
        &&& items[i].member(FIELD_TITLE@) == Some(
            Json::Text((#[trigger] response.articles[i]).title),
        )
        &&& items[i].member(FIELD_URL@) == Some(Json::Text(response.articles[i].url))
    } by {
        assert(article_of(items[i]) is Some);
    }
}

/// A body that is not JSON, and one whose JSON is not of a response's
/// shape, is fetched as a failed parse, and as nothing else.
pub proof fn law_unreadable_body_fails_parse(body: Seq<char>)
    requires
        json_parsed(body) is None || response_of(json_parsed(body)->0) is None,
    ensures
        received(body) == Err::<ResponseView, ErrorView>(ErrorView::ArticleParseFailed),
{
}

/// A body whose response has another status than `ok` is fetched as the
/// failure that its code stands for: that the key is disabled where the
/// code says so, the unknown failure for any other code and for none. The
/// two are told apart.
pub proof fn law_reported_failure_goes_by_code(body: Seq<char>, response: ResponseView)
    requires
        response_in(body) == Some(response),
        !response.is_ok(),
    ensures
        response.code == Some(CODE_API_KEY_DISABLED@) ==> received(body) == Err::<
            ResponseView,
            ErrorView,
        >(ErrorView::BadRequest(API_KEY_DISABLED@)),
        response.code != Some(CODE_API_KEY_DISABLED@) ==> received(body) == Err::<
            ResponseView,
            ErrorView,
        >(ErrorView::BadRequest(UNKNOWN@)),
        ErrorView::BadRequest(API_KEY_DISABLED@) != ErrorView::BadRequest(UNKNOWN@),
{
    reveal_strlit("Your API key is disabled");
    reveal_strlit("Unknown");
    assert(API_KEY_DISABLED@.len() != UNKNOWN@.len());
}

} // verus!
