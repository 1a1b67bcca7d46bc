//! Yes-or-no filters over directory entries, by name or by permission bits.
use vstd::prelude::*;
use vstd::utf8::encode_utf8;
use crate::filename_filter::{
    self, FileNameFilter, PatternError, find_bytes, first_occurrence_from, regex_compiles,
    regex_leftmost, skim_score,
};
use crate::scan::has_execute_bit;

verus! {

/// What a filter reads of a directory entry: its name, where that is valid
/// UTF-8, and its permission bits.
pub struct FileEntry {
    pub file_name: Option<String>,
    pub mode: u32,
}

/// Decides whether a directory entry is kept.
pub trait FileFilter {
    /// Whether the filter keeps `file`.
    spec fn spec_keeps(&self, file: FileEntry) -> bool;

    fn filter(&self, file: &FileEntry) -> (r: bool)
        ensures
            r == self.spec_keeps(*file),
    ;
}

/// Keeps an entry whose name holds the pattern.
pub struct SubstringFilter {
    pattern: String,
}

impl View for SubstringFilter {
    type V = Seq<char>;

    closed spec fn view(&self) -> Seq<char> {
        self.pattern@
    }
}

impl SubstringFilter {
    pub fn new(pattern: &str) -> (r: Self)
        ensures
            r@ == pattern@,
    {
        SubstringFilter { pattern: pattern.to_owned() }
    }
}

impl FileFilter for SubstringFilter {
    open spec fn spec_keeps(&self, file: FileEntry) -> bool {
        file.file_name matches Some(n) && first_occurrence_from(
            encode_utf8(self@),
            encode_utf8(n@),
            0,
        ) is Some
    }

    fn filter(&self, file: &FileEntry) -> (r: bool) {
        match &file.file_name {
            Some(name) => find_bytes(self.pattern.as_str().as_bytes(), name.as_str().as_bytes()).is_some(),
            None => false,
        }
    }
}

/// Keeps an entry whose name the skim fuzzy matcher scores against the
/// pattern.
pub struct FuzzyFilter {
    matcher: filename_filter::FuzzyFilter,
}

impl View for FuzzyFilter {
    type V = Seq<char>;

    closed spec fn view(&self) -> Seq<char> {
        self.matcher@
    }
}

impl FuzzyFilter {
    pub fn new(pattern: &str) -> (r: FuzzyFilter)
        ensures
            r@ == pattern@,
    {
        FuzzyFilter { matcher: filename_filter::FuzzyFilter::new(pattern) }
    }
}

impl FileFilter for FuzzyFilter {
    open spec fn spec_keeps(&self, file: FileEntry) -> bool {
        file.file_name matches Some(n) && skim_score(n@, self@) is Some
    }

    fn filter(&self, file: &FileEntry) -> (r: bool) {
        match &file.file_name {
            Some(name) => self.matcher.filter(name.as_str()).is_some(),
            None => false,
        }
    }
}

/// Keeps an entry whose name the regular expression matches somewhere.
pub struct RegexFilter {
    regex: filename_filter::RegexFilter,
}

impl View for RegexFilter {
    type V = Seq<char>;

    closed spec fn view(&self) -> Seq<char> {
        self.regex@
    }
}

impl RegexFilter {
    pub fn new(pattern: &str) -> (r: Result<Self, PatternError>)
        ensures
            r is Ok <==> regex_compiles(pattern@),
            r matches Ok(f) ==> f@ == pattern@,
            r matches Err(e) ==> e.pattern@ == pattern@,
    {
        match filename_filter::RegexFilter::new(pattern) {
            Ok(regex) => Ok(RegexFilter { regex }),
            Err(e) => Err(e),
        }
    }
}

impl FileFilter for RegexFilter {
    open spec fn spec_keeps(&self, file: FileEntry) -> bool {
        file.file_name matches Some(n) && regex_leftmost(self@, encode_utf8(n@)) is Some
    }

    fn filter(&self, file: &FileEntry) -> (r: bool) {
        match &file.file_name {
            Some(name) => self.regex.filter(name.as_str()).is_some(),
            None => false,
        }
    }
}

/// Keeps an entry with some execute bit set, whatever kind of file it is.
pub struct ExecutableFilter {}

impl FileFilter for ExecutableFilter {
    open spec fn spec_keeps(&self, file: FileEntry) -> bool {
        has_execute_bit(file.mode)
    }

    fn filter(&self, file: &FileEntry) -> (r: bool) {
        let m = file.mode;
        assert(m & 0o111 != 0 <==> (m & 0o100 != 0 || m & 0o010 != 0 || m & 0o001 != 0))
            by (bit_vector);
        m & 0o111 != 0
    }
}

} // verus!
