//! Filters that decide whether a file name matches a query, and where.
use vstd::prelude::*;
use vstd::utf8::encode_utf8;
use fuzzy_matcher::skim::SkimMatcherV2;
use fuzzy_matcher::FuzzyMatcher;
use regex::bytes::Regex;

verus! {

/// Where a filter matched inside a file name.
///
/// `SingleRange((start, end))` is a half-open range of byte offsets into the
/// name; `NoHighlight` means that the name matched but no part of it is singled out.
#[derive(Debug, PartialEq, Eq)]
pub enum FileNameMatch {
    NoHighlight,
    SingleRange((usize, usize)),
}

/// The bytes `p` stand in `f` from offset `i` on.
pub open spec fn occurs_at(p: Seq<u8>, f: Seq<u8>, i: int) -> bool {
    0 <= i && i + p.len() <= f.len() && f.subrange(i, i + p.len()) == p
}

/// The lowest offset at or after `i` where `p` stands in `f`.
pub open spec fn first_occurrence_from(p: Seq<u8>, f: Seq<u8>, i: int) -> Option<int>
    decreases f.len() + 1 - i,
{
    if i < 0 || i + p.len() > f.len() {
        None
    } else if occurs_at(p, f, i) {
        Some(i)
    } else {
        first_occurrence_from(p, f, i + 1)
    }
}

/// What a substring search for `p` in `f` reports: the range of the first
/// occurrence, or nothing.
pub open spec fn substring_match(p: Seq<u8>, f: Seq<u8>) -> Option<FileNameMatch> {
    match first_occurrence_from(p, f, 0) {
        Some(s) => Some(FileNameMatch::SingleRange((s as usize, (s + p.len()) as usize))),
        None => None,
    }
}

proof fn lemma_first_occurrence_from(p: Seq<u8>, f: Seq<u8>, i: int)
    requires
        0 <= i,
    ensures
        match first_occurrence_from(p, f, i) {
            Some(s) => i <= s && occurs_at(p, f, s) && forall|j: int|
                i <= j < s ==> !occurs_at(p, f, j),
            None => forall|j: int| i <= j ==> !occurs_at(p, f, j),
        },
    decreases f.len() + 1 - i,
{
    if i + p.len() > f.len() {
    } else if occurs_at(p, f, i) {
    } else {
        lemma_first_occurrence_from(p, f, i + 1);
    }
}

/// A substring search reports the first place where the pattern stands in
/// the name, with a range as long as the pattern, and reports nothing exactly
/// when the pattern stands nowhere in the name (so always when it is longer).
pub proof fn lemma_substring_first_occurrence(p: Seq<u8>, f: Seq<u8>)
    requires
        f.len() <= usize::MAX,
    ensures
        substring_match(p, f) is None <==> forall|j: int| !occurs_at(p, f, j),
        forall|s: usize, e: usize|
            substring_match(p, f) == Some(FileNameMatch::SingleRange((s, e))) ==> {
                &&& occurs_at(p, f, s as int)
                &&& e == s + p.len()
                &&& forall|j: int| 0 <= j < s ==> !occurs_at(p, f, j)
            },
        substring_match(p, f) != Some(FileNameMatch::NoHighlight),
        p.len() > f.len() ==> substring_match(p, f) is None,
{
    lemma_first_occurrence_from(p, f, 0);
    if let Some(s) = first_occurrence_from(p, f, 0) {
        assert(s + p.len() <= f.len());
    }
}

/// Whether `p` stands in `f` from offset `i` on, compared byte by byte.
fn bytes_occur_at(p: &[u8], f: &[u8], i: usize) -> (r: bool)
    requires
        i + p@.len() <= f@.len(),
    ensures
        r == occurs_at(p@, f@, i as int),
{
    let flen = f.len();
    let mut k: usize = 0;
    while k < p.len()
        invariant
            flen == f@.len(),
            k <= p@.len(),
            i + p@.len() <= f@.len(),
            forall|j: int| 0 <= j < k ==> f@[i + j] == p@[j],
        decreases p@.len() - k,
    {
        if f[i + k] != p[k] {
            assert(f@.subrange(i as int, i + p@.len())[k as int] != p@[k as int]);
            return false;
        }
        k = k + 1;
    }
    assert(f@.subrange(i as int, i + p@.len()) =~= p@);
    true
}

/// The first offset where `p` stands in `f`, searched from the start.
pub(crate) fn find_bytes(p: &[u8], f: &[u8]) -> (r: Option<usize>)
    ensures
        r matches Some(s) ==> first_occurrence_from(p@, f@, 0) == Some(s as int),
        r is None ==> first_occurrence_from(p@, f@, 0) is None,
{
    if p.len() > f.len() {
        return None;
    }
    let last: usize = f.len() - p.len();
    let mut i: usize = 0;
    while i <= last
        invariant
            f@.len() <= usize::MAX,
            last == f@.len() - p@.len(),
            i <= last + 1,
            first_occurrence_from(p@, f@, 0) == first_occurrence_from(p@, f@, i as int),
        decreases last + 1 - i,
    {
        if bytes_occur_at(p, f, i) {
            return Some(i);
        }
        assert(p@.len() > 0) by {
            if p@.len() == 0 {
                assert(f@.subrange(i as int, i as int) =~= p@);
            }
        }
        i = i + 1;
    }
    None
}


/// Decides whether a file name matches, and which bytes of it matched.
pub trait FileNameFilter {
    /// What the filter reports for the name with characters `name`.
    spec fn spec_filter(&self, name: Seq<char>) -> Option<FileNameMatch>;

    fn filter(&self, filename: &str) -> (r: Option<FileNameMatch>)
        ensures
            r == self.spec_filter(filename@),
    ;
}

/// Matches a name that holds the pattern, byte for byte and case-sensitively.
pub struct SubstringFilter {
    pattern: String,
}

impl View for SubstringFilter {
    type V = Seq<char>;

    closed spec fn view(&self) -> Seq<char> {
        self.pattern@
    }
}

impl SubstringFilter {
    pub fn new(pattern: &str) -> (r: Self)
        ensures
            r@ == pattern@,
    {
        SubstringFilter { pattern: pattern.to_owned() }
    }
}

impl FileNameFilter for SubstringFilter {
    open spec fn spec_filter(&self, name: Seq<char>) -> Option<FileNameMatch> {
        substring_match(encode_utf8(self@), encode_utf8(name))
    }

    fn filter(&self, filename: &str) -> (r: Option<FileNameMatch>) {
        let p = self.pattern.as_str().as_bytes();
        let f = filename.as_bytes();
        let name_len = f.len();
        match find_bytes(p, f) {
            Some(s) => {
                proof {
                    lemma_first_occurrence_from(p@, f@, 0);
                }
                assert(s + p@.len() <= name_len);
                Some(FileNameMatch::SingleRange((s, s + p.len())))
            },
            None => None,
        }
    }
}

/// Matches every name, without singling out any part of it.
pub struct MatchAllFilter {}

impl FileNameFilter for MatchAllFilter {
    open spec fn spec_filter(&self, name: Seq<char>) -> Option<FileNameMatch> {
        Some(FileNameMatch::NoHighlight)
    }

    fn filter(&self, _filename: &str) -> (r: Option<FileNameMatch>) {
        Some(FileNameMatch::NoHighlight)
    }
}


#[verifier::external_type_specification]
#[verifier::external_body]
pub struct ExRegex(Regex);

#[verifier::external_type_specification]
#[verifier::external_body]
pub struct ExRegexError(regex::Error);

#[verifier::external_type_specification]
#[verifier::external_body]
pub struct ExSkimMatcherV2(SkimMatcherV2);

/// Whether the regex engine accepts `pattern`.
pub uninterp spec fn regex_compiles(pattern: Seq<char>) -> bool;

/// The leftmost-first match of `pattern` in `haystack`, as a pair of byte
/// offsets, if there is one.
pub uninterp spec fn regex_leftmost(pattern: Seq<char>, haystack: Seq<u8>) -> Option<(usize, usize)>;

/// The score that the default skim matcher gives `choice` against `pattern`,
/// if it matches at all.
pub uninterp spec fn skim_score(choice: Seq<char>, pattern: Seq<char>) -> Option<i64>;

/// Relies on `regex::bytes::Regex::new`: it fails exactly on the patterns that
/// the engine does not accept, which depends on the pattern alone.
#[verifier::external_body]
fn compile_regex(pattern: &str) -> (r: Result<Regex, regex::Error>)
    ensures
        r is Ok <==> regex_compiles(pattern@),
{
    Regex::new(pattern)
}

/// Relies on `ToString` for `regex::Error`: the engine's diagnostic as text.
#[verifier::external_body]
fn regex_error_text(e: &regex::Error) -> (r: String) {
    e.to_string()
}

/// Relies on `regex::bytes::Regex::find`: the leftmost-first match, whose
/// offsets lie within the haystack. A `RegexFilter` only ever holds the regex
/// compiled from its own pattern (see `RegexFilter::new`).
#[verifier::external_body]
fn regex_find(filter: &RegexFilter, haystack: &[u8]) -> (r: Option<(usize, usize)>)
    ensures
        r == regex_leftmost(filter@, haystack@),
        r matches Some((s, e)) ==> s <= e <= haystack@.len(),
{
    filter.regex.find(haystack).map(|m| (m.start(), m.end()))
}

/// Relies on `SkimMatcherV2::default`: the matcher with skim's default scoring
/// and smart case.
#[verifier::external_body]
fn default_skim_matcher() -> (r: SkimMatcherV2) {
    SkimMatcherV2::default()
}

/// Relies on `FuzzyMatcher::fuzzy_match` of `SkimMatcherV2`: the score of a
/// name against the pattern, which is `Some(0)` for an empty pattern. A
/// `FuzzyFilter` only ever holds a default matcher (see `FuzzyFilter::new`).
#[verifier::external_body]
fn skim_fuzzy_match(filter: &FuzzyFilter, choice: &str) -> (r: Option<i64>)
    ensures
        r == skim_score(choice@, filter@),
        filter@.len() == 0 ==> r == Some(0i64),
{
    filter.skim_matcher.fuzzy_match(choice, &filter.pattern)
}

/// A pattern that the regex engine refused, with the engine's diagnostic.
#[derive(Debug)]
pub struct PatternError {
    pub pattern: String,
    pub message: String,
}

impl PatternError {
    /// The engine's diagnostic.
    pub fn to_string(&self) -> (r: String)
        ensures
            r@ == self.message@,
    {
        self.message.clone()
    }
}

/// What a regex filter reports for a match found at `found`.
pub open spec fn span_outcome(found: Option<(usize, usize)>) -> Option<FileNameMatch> {
    match found {
        Some((s, e)) => Some(FileNameMatch::SingleRange((s, e))),
        None => None,
    }
}

/// Turns the offsets of a regex match, if any, into what the filter reports.
pub fn outcome_of_span(found: Option<(usize, usize)>) -> (r: Option<FileNameMatch>)
    ensures
        r == span_outcome(found),
{
    match found {
        Some((s, e)) => Some(FileNameMatch::SingleRange((s, e))),
        None => None,
    }
}

/// Matches a name in which the regular expression finds a match, and reports
/// the leftmost one.
#[derive(Debug)]
pub struct RegexFilter {
    pattern: String,
    regex: Regex,
}

impl View for RegexFilter {
    type V = Seq<char>;

    closed spec fn view(&self) -> Seq<char> {
        self.pattern@
    }
}

impl RegexFilter {
    /// Compiles `pattern` once; fails, naming the pattern, where the engine
    /// refuses it.
    pub fn new(pattern: &str) -> (r: Result<Self, PatternError>)
        ensures
            r is Ok <==> regex_compiles(pattern@),
            r matches Ok(f) ==> f@ == pattern@,
            r matches Err(e) ==> e.pattern@ == pattern@,
    {
        match compile_regex(pattern) {
            Ok(regex) => Ok(RegexFilter { pattern: pattern.to_owned(), regex }),
            Err(err) => Err(PatternError { pattern: pattern.to_owned(), message: regex_error_text(&err) }),
        }
    }
}

impl FileNameFilter for RegexFilter {
    open spec fn spec_filter(&self, name: Seq<char>) -> Option<FileNameMatch> {
        span_outcome(regex_leftmost(self@, encode_utf8(name)))
    }

    fn filter(&self, filename: &str) -> (r: Option<FileNameMatch>) {
        outcome_of_span(regex_find(self, filename.as_bytes()))
    }
}

/// What a fuzzy filter reports for a score: a match without a range, since
/// an approximate match singles out no run of bytes.
pub open spec fn score_outcome(score: Option<i64>) -> Option<FileNameMatch> {
    match score {
        Some(_) => Some(FileNameMatch::NoHighlight),
        None => None,
    }
}

/// Turns a fuzzy score, if any, into what the filter reports.
pub fn outcome_of_score(score: Option<i64>) -> (r: Option<FileNameMatch>)
    ensures
        r == score_outcome(score),
{
    match score {
        Some(_) => Some(FileNameMatch::NoHighlight),
        None => None,
    }
}

/// Matches a name that the skim fuzzy matcher scores against the pattern.
pub struct FuzzyFilter {
    pattern: String,
    skim_matcher: SkimMatcherV2,
}

impl View for FuzzyFilter {
    type V = Seq<char>;

    closed spec fn view(&self) -> Seq<char> {
        self.pattern@
    }
}

impl FuzzyFilter {
    pub fn new(pattern: &str) -> (r: FuzzyFilter)
        ensures
            r@ == pattern@,
    {
        FuzzyFilter { pattern: pattern.to_owned(), skim_matcher: default_skim_matcher() }
    }
}

impl FileNameFilter for FuzzyFilter {
    open spec fn spec_filter(&self, name: Seq<char>) -> Option<FileNameMatch> {
        score_outcome(skim_score(name, self@))
    }

    fn filter(&self, filename: &str) -> (r: Option<FileNameMatch>) {
        outcome_of_score(skim_fuzzy_match(self, filename))
    }
}


/// The one filter that a search uses, chosen by its search type.
pub enum SearchFilter {
    All(MatchAllFilter),
    Substring(SubstringFilter),
    Regex(RegexFilter),
    Fuzzy(FuzzyFilter),
}

impl FileNameFilter for SearchFilter {
    open spec fn spec_filter(&self, name: Seq<char>) -> Option<FileNameMatch> {
        match self {
            SearchFilter::All(f) => f.spec_filter(name),
            SearchFilter::Substring(f) => f.spec_filter(name),
            SearchFilter::Regex(f) => f.spec_filter(name),
            SearchFilter::Fuzzy(f) => f.spec_filter(name),
        }
    }

    fn filter(&self, filename: &str) -> (r: Option<FileNameMatch>) {
        match self {
            SearchFilter::All(f) => f.filter(filename),
            SearchFilter::Substring(f) => f.filter(filename),
            SearchFilter::Regex(f) => f.filter(filename),
            SearchFilter::Fuzzy(f) => f.filter(filename),
        }
    }
}

} // verus!
