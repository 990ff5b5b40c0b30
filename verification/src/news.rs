use vstd::prelude::*;

verus! {

/// One headline as the list shows it: a title, a description and the URL of
/// the full article.
#[derive(Clone, Debug)]
pub struct NewsCardData {
    pub title: String,
    pub desc: String,
    pub url: String,
}

impl View for NewsCardData {
    type V = (Seq<char>, Seq<char>, Seq<char>);

    open spec fn view(&self) -> Self::V {
        (self.title@, self.desc@, self.url@)
    }
}

/// The characters of an optional string, when there is one.
pub open spec fn opt_chars(o: Option<String>) -> Option<Seq<char>> {
    match o {
        Some(s) => Some(s@),
        None => None,
    }
}

/// A missing title is shown as the empty string.
pub open spec fn title_or_empty(t: Option<Seq<char>>) -> Seq<char> {
    match t {
        Some(s) => s,
        None => Seq::<char>::empty(),
    }
}

/// A missing description is shown as the placeholder "...".
pub open spec fn desc_or_placeholder(d: Option<Seq<char>>) -> Seq<char> {
    match d {
        Some(s) => s,
        None => "..."@,
    }
}

/// One headline record built from the raw fields of a fetched article: a
/// missing title becomes the empty string, a missing description becomes the
/// placeholder, and the URL is kept as it is.
pub fn card_from_parts(title: Option<String>, desc: Option<String>, url: String) -> (card:
    NewsCardData)
    ensures
        card@.0 == title_or_empty(opt_chars(title)),
        card@.1 == desc_or_placeholder(opt_chars(desc)),
        card@.2 == url@,
{
    let t: String = match title {
        Some(t) => t,
        None => String::new(),
    };
    let d: String = match desc {
        Some(d) => d,
        None => "...".to_owned(),
    };
    NewsCardData { title: t, desc: d, url }
}

} // verus!
