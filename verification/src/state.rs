use vstd::prelude::*;

use crate::config::HeadlinesConfig;
use crate::fetch::{cards_of_articles, cards_view, fetch_news};
use crate::news::NewsCardData;
use newsapi::payload::article::Article;

verus! {

/// Everything the running application owns: the fetched headline cards, the
/// user's preferences, and whether the user has confirmed an API key yet (the
/// flag that decides which window is shown).
pub struct Headlines {
    pub articles: Vec<NewsCardData>,
    pub config: HeadlinesConfig,
    pub api_key_initialized: bool,
}

impl Headlines {
    /// Fresh application state for a loaded config: the key is not yet
    /// confirmed, and the card list is filled by one fetch with the config's
    /// key — the records of whatever article sequence that fetch yielded, or
    /// nothing on failure.
    pub fn new(config: HeadlinesConfig) -> (h: Headlines)
        ensures
            h.config.parts() == config.parts(),
            h.api_key_initialized == false,
            exists|arts: Seq<Article>| cards_view(h.articles@) == cards_of_articles(arts),
    {
        let mut h = Headlines { articles: Vec::new(), config, api_key_initialized: false };
        let key = h.config.api_key.clone();
        fetch_news(key.as_str(), &mut h.articles);
        proof {
            let arts = choose|arts: Seq<Article>|
                cards_view(h.articles@) == cards_view(Seq::<NewsCardData>::empty())
                    + cards_of_articles(arts);
            assert(cards_view(Seq::<NewsCardData>::empty()) + cards_of_articles(arts)
                =~= cards_of_articles(arts));
        }
        h
    }

    /// Flips the colour theme and changes nothing else.
    pub fn toggle_dark_mode(&mut self)
        ensures
            final(self).config.dark_mode == !old(self).config.dark_mode,
            final(self).config.api_key@ == old(self).config.api_key@,
            final(self).articles@ == old(self).articles@,
            final(self).api_key_initialized == old(self).api_key_initialized,
    {
        self.config.dark_mode = !self.config.dark_mode;
    }

    /// Records that the user has confirmed an API key, which moves the
    /// interface from the configuration window to the headline list; nothing
    /// else changes.
    pub fn confirm_api_key(&mut self)
        ensures
            final(self).api_key_initialized == true,
            final(self).config.parts() == old(self).config.parts(),
            final(self).articles@ == old(self).articles@,
    {
        self.api_key_initialized = true;
    }
}

impl Default for Headlines {
    /// The state before anything is loaded or fetched: no articles, default
    /// preferences, no confirmed key.
    fn default() -> (h: Self)
        ensures
            h.articles@ == Seq::<NewsCardData>::empty(),
            h.config.dark_mode == true,
            h.config.api_key@ == Seq::<char>::empty(),
            h.api_key_initialized == false,
    {
        Headlines {
            articles: Vec::new(),
            config: HeadlinesConfig::default(),
            api_key_initialized: false,
        }
    }
}

} // verus!
