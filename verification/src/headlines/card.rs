//! The card that the application shows for an article, and the cards that a
//! fetch yields.

use vstd::prelude::*;
use vstd::string::StringExecFns;
use crate::newsapi::error::{ErrorView, NewsAPIError};
use crate::newsapi::response::{Article, ArticleView, NewsAPIResponse, ResponseView};

verus! {

/// What a card says of an article of which the API says nothing.
pub const NO_DESCRIPTION: &'static str = "...";

/// A card, as contracts speak of it.
pub struct NewsCardView {
    pub title: Seq<char>,
    pub url: Seq<char>,
    pub description: Seq<char>,
}

/// What the application shows of one article. A card owns its texts: the
/// response that they were read from does not outlive its fetch.
#[derive(Debug, PartialEq, Eq)]
pub struct NewsCardData {
    pub title: String,
    pub url: String,
    pub description: String,
}

impl View for NewsCardData {
    type V = NewsCardView;

    open spec fn view(&self) -> NewsCardView {
        NewsCardView { title: self.title@, url: self.url@, description: self.description@ }
    }
}

/// The cards of a sequence, each as contracts speak of it.
pub open spec fn card_views(cards: Seq<NewsCardData>) -> Seq<NewsCardView> {
    cards.map_values(|c: NewsCardData| c@)
}

/// The card of an article: its title and URL as they are, and its
/// description, or three dots where it has none.
pub open spec fn card_of(article: ArticleView) -> NewsCardView {
    NewsCardView {
        title: article.title,
        url: article.url,
        description: match article.description {
            Some(description) => description,
            None => NO_DESCRIPTION@,
        },
    }
}

/// The cards of the articles of a response, in the response's order.
pub open spec fn cards_of(articles: Seq<ArticleView>) -> Seq<NewsCardView> {
    articles.map_values(|a: ArticleView| card_of(a))
}

/// What a fetch came to, as contracts speak of it.
pub open spec fn outcome_view(outcome: Result<NewsAPIResponse, NewsAPIError>) -> Result<
    ResponseView,
    ErrorView,
> {
    match outcome {
        Ok(response) => Ok(response@),
        Err(failure) => Err(failure@),
    }
}

/// The cards that a fetch yields: one for each article of the response, in
/// the response's order, where the fetch succeeded; none where it failed.
pub open spec fn cards_sent(outcome: Result<ResponseView, ErrorView>) -> Seq<NewsCardView> {
    match outcome {
        Ok(response) => cards_of(response.articles),
        Err(_) => Seq::empty(),
    }
}

impl NewsCardData {
    /// The card of an article.
    pub fn from_article(article: &Article) -> (card: NewsCardData)
        ensures
            card@ == card_of(article@),
    {
        let description = match article.description() {
            Some(description) => String::from_str(description),
            None => String::from_str(NO_DESCRIPTION),
        };
        NewsCardData {
            title: String::from_str(article.title()),
            url: String::from_str(article.url()),
            description,
        }
    }
}

/// The cards to send for a fetch that is over: one for each article, in the
/// response's order. A failed fetch sends none, and nothing tells the
/// application of the failure.
pub fn fetch_news(outcome: &Result<NewsAPIResponse, NewsAPIError>) -> (cards: Vec<NewsCardData>)
    ensures
        card_views(cards@) == cards_sent(outcome_view(*outcome)),
{
    let mut cards: Vec<NewsCardData> = Vec::new();
    match outcome {
        Ok(response) => {
            let articles = response.articles();
            let mut i: usize = 0;
            while i < articles.len()
                invariant
                    i <= articles.len(),
                    cards.len() == i,
                    forall|j: int| 0 <= j < i ==> (#[trigger] cards@[j])@ == card_of(articles@[j]@),
                decreases articles.len() - i,
            {
                cards.push(NewsCardData::from_article(&articles[i]));
                i = i + 1;
            }
            assert(card_views(cards@) =~= cards_of(
                crate::newsapi::response::article_views(articles@),
            ));
        },
        Err(_) => {
            assert(card_views(cards@) =~= Seq::<NewsCardView>::empty());
        },
    }
    cards
}

} // verus!
