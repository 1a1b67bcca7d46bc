use pathsearch::filename_filter::{
    outcome_of_score, outcome_of_span, FileNameFilter, FileNameMatch, FuzzyFilter,
    MatchAllFilter, RegexFilter, SearchFilter, SubstringFilter,
};

#[test]
fn substring_filter_returns_none_when_no_match() {
    let filter = SubstringFilter::new("abc");
    let result = filter.filter("def");
    assert_eq!(result, None);
}

#[test]
fn substring_filter_returns_match_range_when_pattern_found() {
    let filter = SubstringFilter::new("abc");
    let result = filter.filter("xyzabc123");
    assert_eq!(result, Some(FileNameMatch::SingleRange((3, 6))));
}

#[test]
fn substring_filter_returns_first_match_range_when_multiple_patterns_found() {
    let filter = SubstringFilter::new("abc");
    let result = filter.filter("xyzabc123abc");
    assert_eq!(result, Some(FileNameMatch::SingleRange((3, 6))));
}

#[test]
fn fuzzy_filter_returns_none_when_no_match() {
    let filter = FuzzyFilter::new("abc");
    let result = filter.filter("def");
    assert_eq!(result, None);
}

#[test]
fn fuzzy_filter_returns_none_when_match_found() {
    let filter = FuzzyFilter::new("abc");
    let result = filter.filter("abracadabra");
    assert_eq!(result, Some(FileNameMatch::NoHighlight));
}

#[test]
fn regex_filter_returns_none_when_no_match() {
    let filter = RegexFilter::new(r"\d+").unwrap();
    let result = filter.filter("abc");
    assert_eq!(result, None);
}

#[test]
fn regex_filter_returns_match_range_when_pattern_found() {
    let filter = RegexFilter::new(r"\d+").unwrap();
    let result = filter.filter("abc123def");
    assert_eq!(result, Some(FileNameMatch::SingleRange((3, 6))));
}

#[test]
fn regex_filter_returns_first_match_range_when_multiple_patterns_found() {
    let filter = RegexFilter::new(r"\d+").unwrap();
    let result = filter.filter("abc123def456");
    assert_eq!(result, Some(FileNameMatch::SingleRange((3, 6))));
}

#[test]
fn regex_filter_returns_error_when_invalid_pattern() {
    let filter = RegexFilter::new(r"(").unwrap_err();
    assert_eq!(filter.to_string().contains("regex parse error"), true);
}

#[test]
fn match_all_filter() {
    let ma_filter = MatchAllFilter {};
    let m = ma_filter.filter("");
    assert_eq!(m.is_some(), true);
    assert_eq!(m.unwrap(), FileNameMatch::NoHighlight);
}

#[test]
fn regex_error_names_the_pattern() {
    let err = RegexFilter::new("a(b").unwrap_err();
    assert_eq!(err.pattern, "a(b");
    assert!(!err.message.is_empty());
}

#[test]
fn regex_anchored_at_start() {
    let filter = RegexFilter::new("^foo").unwrap();
    assert_eq!(filter.filter("foobar"), Some(FileNameMatch::SingleRange((0, 3))));
    assert_eq!(filter.filter("barfoo"), None);
}

#[test]
fn regex_zero_length_match_is_a_span() {
    let filter = RegexFilter::new("x*").unwrap();
    assert_eq!(filter.filter("abc"), Some(FileNameMatch::SingleRange((0, 0))));
}

#[test]
fn regex_offsets_are_bytes() {
    let filter = RegexFilter::new("b").unwrap();
    assert_eq!(filter.filter("\u{e9}b"), Some(FileNameMatch::SingleRange((2, 3))));
}

#[test]
fn substring_reports_first_occurrence_only() {
    let filter = SubstringFilter::new("abc");
    assert_eq!(filter.filter("xyzabc123abc"), Some(FileNameMatch::SingleRange((3, 6))));
}

#[test]
fn substring_longer_pattern_never_matches() {
    let filter = SubstringFilter::new("abcdef");
    assert_eq!(filter.filter("abc"), None);
}

#[test]
fn substring_empty_pattern_matches_at_start() {
    let filter = SubstringFilter::new("");
    assert_eq!(filter.filter("ls"), Some(FileNameMatch::SingleRange((0, 0))));
    assert_eq!(filter.filter(""), Some(FileNameMatch::SingleRange((0, 0))));
}

#[test]
fn substring_is_case_sensitive() {
    let filter = SubstringFilter::new("LS");
    assert_eq!(filter.filter("ls"), None);
}

#[test]
fn substring_offsets_are_bytes() {
    let filter = SubstringFilter::new("b");
    assert_eq!(filter.filter("\u{e9}\u{e9}b"), Some(FileNameMatch::SingleRange((4, 5))));
}

#[test]
fn substring_whole_name() {
    let filter = SubstringFilter::new("ls");
    assert_eq!(filter.filter("ls"), Some(FileNameMatch::SingleRange((0, 2))));
}

#[test]
fn fuzzy_empty_pattern_matches() {
    let filter = FuzzyFilter::new("");
    assert_eq!(filter.filter("anything"), Some(FileNameMatch::NoHighlight));
}

#[test]
fn fuzzy_in_order_subsequence_matches() {
    let filter = FuzzyFilter::new("gco");
    assert_eq!(filter.filter("git-checkout"), Some(FileNameMatch::NoHighlight));
    assert_eq!(filter.filter("ocg"), None);
}

#[test]
fn outcome_of_score_values() {
    assert_eq!(outcome_of_score(Some(42)), Some(FileNameMatch::NoHighlight));
    assert_eq!(outcome_of_score(Some(0)), Some(FileNameMatch::NoHighlight));
    assert_eq!(outcome_of_score(None), None);
}

#[test]
fn outcome_of_span_values() {
    assert_eq!(outcome_of_span(Some((2, 5))), Some(FileNameMatch::SingleRange((2, 5))));
    assert_eq!(outcome_of_span(None), None);
}

#[test]
fn search_filter_dispatches() {
    let all = SearchFilter::All(MatchAllFilter {});
    assert_eq!(all.filter("x"), Some(FileNameMatch::NoHighlight));
    let sub = SearchFilter::Substring(SubstringFilter::new("s"));
    assert_eq!(sub.filter("ls"), Some(FileNameMatch::SingleRange((1, 2))));
    let re = SearchFilter::Regex(RegexFilter::new("l.").unwrap());
    assert_eq!(re.filter("ls"), Some(FileNameMatch::SingleRange((0, 2))));
    let fz = SearchFilter::Fuzzy(FuzzyFilter::new("zz"));
    assert_eq!(fz.filter("ls"), None);
}
