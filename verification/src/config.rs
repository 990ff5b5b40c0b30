use vstd::prelude::*;

verus! {

/// User preferences that persist across runs: the colour theme and the key
/// used against the news API.
#[derive(Clone, Debug)]
pub struct HeadlinesConfig {
    pub dark_mode: bool,
    pub api_key: String,
}

impl HeadlinesConfig {
    /// The pair of plain values that the persistence layer stores for a
    /// config: the theme flag and the characters of the API key.
    pub open spec fn parts(self) -> (bool, Seq<char>) {
        (self.dark_mode, self.api_key@)
    }

    /// Rebuilds a config from a stored pair.
    pub fn from_parts(dark_mode: bool, api_key: String) -> (c: HeadlinesConfig)
        ensures
            c.parts() == (dark_mode, api_key@),
    {
        HeadlinesConfig { dark_mode, api_key }
    }

    /// The pair that persisting this config writes out.
    pub fn to_parts(&self) -> (p: (bool, String))
        ensures
            (p.0, p.1@) == self.parts(),
    {
        (self.dark_mode, self.api_key.clone())
    }
}

impl Default for HeadlinesConfig {
    /// With no stored preferences the app starts in dark mode with an empty
    /// API key.
    fn default() -> (c: Self)
        ensures
            c.dark_mode == true,
            c.api_key@ == Seq::<char>::empty(),
    {
        HeadlinesConfig { dark_mode: true, api_key: String::new() }
    }
}

/// The config that startup uses: the stored one when it could be read, else
/// the defaults. Reading the config file is the caller's job; any read or
/// parse failure arrives here as `None`.
pub fn config_or_default(loaded: Option<HeadlinesConfig>) -> (c: HeadlinesConfig)
    ensures
        match loaded {
            Some(l) => c.parts() == l.parts(),
            None => c.dark_mode == true && c.api_key@ == Seq::<char>::empty(),
        },
{
    match loaded {
        Some(l) => l,
        None => HeadlinesConfig::default(),
    }
}

/// Round trip through the stored pair: a config whose stored pair equals that
/// of `c` agrees with `c` on both fields. Together with the contracts of
/// `to_parts` and `from_parts` this says that writing a config out as its
/// pair and rebuilding it loses nothing; the config file itself is outside
/// the library.
pub proof fn lemma_config_roundtrip(c: HeadlinesConfig, rebuilt: HeadlinesConfig)
    requires
        rebuilt.parts() == c.parts(),
    ensures
        rebuilt.dark_mode == c.dark_mode,
        rebuilt.api_key@ == c.api_key@,
{
}

} // verus!
