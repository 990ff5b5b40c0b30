use vstd::prelude::*;

use crate::news::{card_from_parts, desc_or_placeholder, opt_chars, title_or_empty, NewsCardData};
use newsapi::error::NewsApiError;
use newsapi::payload::article::{Article, ArticleSource, Articles};

verus! {

/// The source a news article was published by, as the news API reports it.
#[verifier::external_type_specification]
pub struct ExArticleSource(ArticleSource);

/// One article of a news-API response; its title and description may be
/// absent.
#[verifier::external_type_specification]
pub struct ExArticle(Article);

/// The decoded payload of a news-API response: a status, a result count and
/// the articles themselves.
#[verifier::external_type_specification]
pub struct ExArticles(Articles);

/// The error type of the news-API client; the library never looks inside it.
#[verifier::external_type_specification]
#[verifier::external_body]
pub struct ExNewsApiError(NewsApiError);

/// Relies on newsapi's `NewsAPIClient::new`, `NewsAPIClient::top_headlines`
/// and `NewsAPIClient::send_sync`: one blocking top-headlines request,
/// authenticated with the given key, decoded into the crate's `Articles`
/// payload. The outcome depends on the network and the remote service, so
/// nothing is promised of it: any decoded payload, or any error, may come
/// back.
#[verifier::external_body]
fn request_top_headlines(api_key: &str) -> Result<Articles, NewsApiError> {
    let mut client = newsapi::api::NewsAPIClient::new(api_key.to_owned());
    client.top_headlines();
    client.send_sync::<Articles>()
}

/// The headline record that one fetched article is shown as.
pub open spec fn card_of_article(a: Article) -> (Seq<char>, Seq<char>, Seq<char>) {
    (title_or_empty(opt_chars(a.title)), desc_or_placeholder(opt_chars(a.description)), a.url@)
}

/// A card list as the sequence of its records' fields.
pub open spec fn cards_view(s: Seq<NewsCardData>) -> Seq<(Seq<char>, Seq<char>, Seq<char>)> {
    s.map_values(|c: NewsCardData| c@)
}

/// The records that a sequence of fetched articles is shown as, in order.
pub open spec fn cards_of_articles(arts: Seq<Article>) -> Seq<(Seq<char>, Seq<char>, Seq<char>)> {
    arts.map_values(|a: Article| card_of_article(a))
}

/// Appends one card per article of a decoded response, in response order,
/// leaving the cards already in the list untouched.
pub fn append_articles(cards: &mut Vec<NewsCardData>, response: &Articles)
    ensures
        cards_view(final(cards)@) == cards_view(old(cards)@) + cards_of_articles(
            response.articles@,
        ),
{
    let n: usize = response.articles.len();
    let mut i: usize = 0;
    while i < n
        invariant
            i <= n,
            n == response.articles@.len(),
            cards_view(cards@) =~= cards_view(old(cards)@) + cards_of_articles(
                response.articles@.take(i as int),
            ),
        decreases n - i,
    {
        let a = &response.articles[i];
        let title: Option<String> = match &a.title {
            Some(t) => Some(t.clone()),
            None => None,
        };
        let desc: Option<String> = match &a.description {
            Some(d) => Some(d.clone()),
            None => None,
        };
        let card = card_from_parts(title, desc, a.url.clone());
        let ghost prev = cards@;
        cards.push(card);
        proof {
            let arts = response.articles@;
            assert(card@ == card_of_article(arts[i as int]));
            assert(cards_view(cards@) =~= cards_view(prev).push(card@));
            assert(arts.take(i + 1) =~= arts.take(i as int).push(arts[i as int]));
            assert(cards_of_articles(arts.take(i + 1)) =~= cards_of_articles(
                arts.take(i as int),
            ).push(card_of_article(arts[i as int])));
            assert(cards_view(cards@) =~= cards_view(old(cards)@) + cards_of_articles(
                arts.take(i + 1),
            ));
        }
        i = i + 1;
    }
    proof {
        assert(response.articles@.take(n as int) =~= response.articles@);
        assert(cards_view(cards@) =~= cards_view(old(cards)@) + cards_of_articles(
            response.articles@,
        ));
    }
}

/// One fetch of the top headlines with the given key, appending a card per
/// returned article. On any failure — network, authentication (an invalid or
/// empty key), or an undecodable response — nothing is appended, so a fetch
/// into an empty list that fails leaves it empty. Whatever came back, the new
/// list is the old one followed by the records of some article sequence.
pub fn fetch_news(api_key: &str, articles: &mut Vec<NewsCardData>)
    ensures
        exists|arts: Seq<Article>|
            cards_view(final(articles)@) == cards_view(old(articles)@) + cards_of_articles(arts),
{
    match request_top_headlines(api_key) {
        Ok(response) => {
            append_articles(articles, &response);
        },
        Err(_) => {
            proof {
                assert(cards_of_articles(Seq::<Article>::empty()) =~= Seq::<(
                    Seq<char>,
                    Seq<char>,
                    Seq<char>,
                )>::empty());
                assert(cards_view(articles@) =~= cards_view(old(articles)@) + cards_of_articles(
                    Seq::<Article>::empty(),
                ));
            }
        },
    }
}

} // verus!
