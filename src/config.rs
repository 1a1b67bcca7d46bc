//! The resolved configuration of a search: which filter, which directories,
//! whether to rank and whether to color.
use vstd::prelude::*;
use crate::filename_filter::{
    FuzzyFilter, MatchAllFilter, PatternError, RegexFilter, SearchFilter,
    SubstringFilter, regex_compiles,
};

verus! {

/// How the query is matched against file names.
#[derive(Debug, Clone, Copy, PartialEq, Eq, Structural)]
pub enum SearchType {
    All,
    Substring,
    Regex,
    Fuzzy,
}

/// When to emit color.
#[derive(Debug, Clone, Copy, PartialEq, Eq, Structural)]
pub enum ColorOption {
    Auto,
    Always,
    Never,
}

/// A configuration that cannot be searched with.
#[derive(Debug, Clone, Copy, PartialEq, Eq, Structural)]
pub enum ConfigError {
    /// Regex and fuzzy matching were both asked for.
    ConflictingModes,
}

/// The search type that a query and the two mode flags select.
pub open spec fn spec_search_type(has_pattern: bool, regex: bool, fuzzy: bool) -> Result<
    SearchType,
    ConfigError,
> {
    if !has_pattern {
        Ok(SearchType::All)
    } else if regex && fuzzy {
        Err(ConfigError::ConflictingModes)
    } else if regex {
        Ok(SearchType::Regex)
    } else if fuzzy {
        Ok(SearchType::Fuzzy)
    } else {
        Ok(SearchType::Substring)
    }
}

/// Selects the search type: all files without a query, else substring
/// matching unless regex or fuzzy matching is asked for, not both.
pub fn search_type(has_pattern: bool, regex: bool, fuzzy: bool) -> (r: Result<
    SearchType,
    ConfigError,
>)
    ensures
        r == spec_search_type(has_pattern, regex, fuzzy),
{
    if !has_pattern {
        Ok(SearchType::All)
    } else if regex && fuzzy {
        Err(ConfigError::ConflictingModes)
    } else if regex {
        Ok(SearchType::Regex)
    } else if fuzzy {
        Ok(SearchType::Fuzzy)
    } else {
        Ok(SearchType::Substring)
    }
}

/// Whether to emit color: as asked, or, on `Auto`, when standard output is a
/// terminal.
pub fn color_enabled(color: ColorOption, stdout_is_terminal: bool) -> (r: bool)
    ensures
        r == match color {
            ColorOption::Always => true,
            ColorOption::Never => false,
            ColorOption::Auto => stdout_is_terminal,
        },
{
    match color {
        ColorOption::Always => true,
        ColorOption::Never => false,
        ColorOption::Auto => stdout_is_terminal,
    }
}

/// The configuration of one search.
pub struct Config {
    pub dirs: Vec<String>,
    pub search: String,
    pub search_type: SearchType,
    pub sort: bool,
    pub color: bool,
}

impl Config {
    /// Resolves the options into a configuration; the query is "undefined"
    /// where none is given, and is then not used.
    pub fn new(
        dirs: Vec<String>,
        filename: Option<String>,
        regex: bool,
        fuzzy: bool,
        sort: bool,
        color: ColorOption,
        stdout_is_terminal: bool,
    ) -> (r: Result<Config, ConfigError>)
        ensures
            match spec_search_type(filename is Some, regex, fuzzy) {
                Ok(t) => r matches Ok(c) && c.search_type == t && c.dirs@ == dirs@ && c.sort == sort
                    && c.color == (match color {
                    ColorOption::Always => true,
                    ColorOption::Never => false,
                    ColorOption::Auto => stdout_is_terminal,
                }) && (filename matches Some(f) ==> c.search@ == f@),
                Err(e) => r == Err::<Config, ConfigError>(e),
            },
    {
        let t = search_type(filename.is_some(), regex, fuzzy);
        match t {
            Ok(search_type) => {
                let search = match filename {
                    Some(f) => f,
                    None => "undefined".to_owned(),
                };
                Ok(
                    Config {
                        dirs,
                        search,
                        search_type,
                        sort,
                        color: color_enabled(color, stdout_is_terminal),
                    },
                )
            },
            Err(e) => Err(e),
        }
    }

    /// A search needs at least one directory.
    pub fn validate(&self) -> (r: bool)
        ensures
            r == (self.dirs@.len() > 0),
    {
        self.dirs.len() > 0
    }

    /// Results are ranked by similarity only where asked for and only for a
    /// substring search, the one mode where similarity to the query means
    /// something.
    pub fn ranks_by_similarity(&self) -> (r: bool)
        ensures
            r == (self.sort && self.search_type == SearchType::Substring),
    {
        self.sort && self.search_type == SearchType::Substring
    }

    /// Builds the filter of the configured search type; a regex that the engine
    /// refuses is an error.
    pub fn make_filter(&self) -> (r: Result<SearchFilter, PatternError>)
        ensures
            r is Err <==> (self.search_type == SearchType::Regex && !regex_compiles(self.search@)),
            r matches Err(e) ==> e.pattern@ == self.search@,
            r matches Ok(f) ==> match self.search_type {
                SearchType::All => f is All,
                SearchType::Substring => f matches SearchFilter::Substring(s) && s@ == self.search@,
                SearchType::Regex => f matches SearchFilter::Regex(s) && s@ == self.search@,
                SearchType::Fuzzy => f matches SearchFilter::Fuzzy(s) && s@ == self.search@,
            },
    {
        match self.search_type {
            SearchType::All => Ok(SearchFilter::All(MatchAllFilter {  })),
            SearchType::Substring => Ok(SearchFilter::Substring(SubstringFilter::new(self.search.as_str()))),
            SearchType::Regex => match RegexFilter::new(self.search.as_str()) {
                Ok(f) => Ok(SearchFilter::Regex(f)),
                Err(e) => Err(e),
            },
            SearchType::Fuzzy => Ok(SearchFilter::Fuzzy(FuzzyFilter::new(self.search.as_str()))),
        }
    }
}

} // verus!
